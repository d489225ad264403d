//! The reference that stands for an entry in the target document.
//!
//! The source gives an entry no reference of the account servicer, and the
//! target schema asks for one. It is derived from what the entry holds, so
//! that the same entry gets the same reference wherever it is converted.
//!
//! The hash is that of `std::collections::hash_map::DefaultHasher` as
//! `DefaultHasher::new` makes it, fed the fields as `String`s in a fixed
//! order. It is the same in every run; the standard library does not promise
//! to keep it from one release to the next.

use crate::model::{Transaction, TransactionView};
use crate::text::{
    decimal_text, lemma_decimal_text_tells_apart, normalize_whitespace, normalized_whitespace,
    power_of_ten, push_decimal,
};
use std::collections::hash_map::DefaultHasher;
use std::hash::Hash;
use std::hash::Hasher;
use vstd::prelude::*;
use vstd::std_specs::hash::DefaultHasherAdditionalSpecFns;

verus! {

/// What every reference starts with.
pub const REFERENCE_PREFIX: &'static str = "TX";

/// Number of digits of a reference.
pub const REFERENCE_DIGITS: u32 = 10;

/// The number that a hash is reduced by: ten to the number of digits.
pub const REFERENCE_MODULUS: u64 = 10_000_000_000;

/// What hashing a text writes to a hasher.
pub uninterp spec fn text_hash_input(text: Seq<char>) -> Seq<Seq<u8>>;

/// `Hash::hash` of a `String` into a `DefaultHasher`: what the hasher is fed
/// depends on the text alone, and comes after what it was fed before.
#[verifier::external_body]
fn hash_text(hasher: &mut DefaultHasher, text: &String)
    ensures
        final(hasher)@ == old(hasher)@ + text_hash_input(text@),
{
    text.hash(hasher);
}

/// What the hasher is fed for an entry: its amount, currency, indicator,
/// booking date and bank code, then its additional information with the white
/// space normalised.
pub open spec fn hashed_content(transaction: TransactionView) -> Seq<Seq<u8>> {
    text_hash_input(transaction.amount) + text_hash_input(transaction.currency) + text_hash_input(
        transaction.credit_debit_ind,
    ) + text_hash_input(transaction.booking_date) + text_hash_input(transaction.bank_tx_code)
        + text_hash_input(normalized_whitespace(transaction.additional_info))
}

/// The hash of what an entry holds.
pub open spec fn transaction_hash(transaction: TransactionView) -> u64 {
    DefaultHasher::spec_finish(hashed_content(transaction))
}

/// The reference made of a hash: the prefix, then the hash modulo ten
/// billion as ten digits.
pub open spec fn reference_text(hash: u64) -> Seq<char> {
    REFERENCE_PREFIX@ + decimal_text((hash % REFERENCE_MODULUS) as nat, REFERENCE_DIGITS as nat)
}

/// The reference of an entry.
pub open spec fn transaction_reference(transaction: TransactionView) -> Seq<char> {
    reference_text(transaction_hash(transaction))
}

/// Hashes what an entry holds.
pub fn hash_transaction(transaction: &Transaction) -> (hash: u64)
    ensures
        hash == transaction_hash(transaction@),
{
    let mut hasher = DefaultHasher::new();
    hash_text(&mut hasher, &transaction.amount);
    hash_text(&mut hasher, &transaction.currency);
    hash_text(&mut hasher, &transaction.credit_debit_ind);
    hash_text(&mut hasher, &transaction.booking_date);
    hash_text(&mut hasher, &transaction.bank_tx_code);
    let normalized = normalize_whitespace(transaction.additional_info.as_str());
    hash_text(&mut hasher, &normalized);
    hasher.finish()
}

/// Writes a hash out as a reference.
pub fn reference_from_hash(hash: u64) -> (reference: String)
    ensures
        reference@ == reference_text(hash),
{
    let mut reference = REFERENCE_PREFIX.to_owned();
    push_decimal(&mut reference, hash % REFERENCE_MODULUS, REFERENCE_DIGITS);
    reference
}

/// Derives the reference of an entry from its amount, currency, indicator,
/// booking date, bank code and additional information.
pub fn generate_transaction_reference(transaction: &Transaction) -> (reference: String)
    ensures
        reference@ == transaction_reference(transaction@),
{
    reference_from_hash(hash_transaction(transaction))
}

/// Two entries that agree in amount, currency, indicator, booking date and
/// bank code, and whose additional information differs in white space only,
/// have the same reference.
pub proof fn lemma_reference_stable(first: TransactionView, second: TransactionView)
    requires
        first.amount == second.amount,
        first.currency == second.currency,
        first.credit_debit_ind == second.credit_debit_ind,
        first.booking_date == second.booking_date,
        first.bank_tx_code == second.bank_tx_code,
        normalized_whitespace(first.additional_info) == normalized_whitespace(
            second.additional_info,
        ),
    ensures
        transaction_reference(first) == transaction_reference(second),
{
}

/// Every reference has twelve characters: the two of the prefix and ten
/// digits.
pub proof fn lemma_reference_length(hash: u64)
    ensures
        reference_text(hash).len() == 12,
        reference_text(hash).take(2) == REFERENCE_PREFIX@,
{
    reveal_strlit("TX");
    lemma_decimal_length((hash % REFERENCE_MODULUS) as nat, REFERENCE_DIGITS as nat);
}

/// A number written to a width has that many digits.
pub proof fn lemma_decimal_length(value: nat, width: nat)
    ensures
        decimal_text(value, width).len() == width,
    decreases width,
{
    if width > 0 {
        lemma_decimal_length(value / 10, (width - 1) as nat);
    }
}

/// Two hashes give the same reference exactly where they agree modulo ten
/// billion: nothing but a collision of the reduced hashes makes two
/// references alike.
pub proof fn lemma_reference_tells_hashes_apart(first: u64, second: u64)
    ensures
        reference_text(first) == reference_text(second) <==> first % REFERENCE_MODULUS == second
            % REFERENCE_MODULUS,
{
    let first_digits = decimal_text((first % REFERENCE_MODULUS) as nat, REFERENCE_DIGITS as nat);
    let second_digits = decimal_text((second % REFERENCE_MODULUS) as nat, REFERENCE_DIGITS as nat);
    if reference_text(first) == reference_text(second) {
        let length = REFERENCE_PREFIX@.len() as int;
        assert(reference_text(first).skip(length) == first_digits);
        assert(reference_text(second).skip(length) == second_digits);
        assert(power_of_ten(REFERENCE_DIGITS as nat) == REFERENCE_MODULUS) by {
            reveal_with_fuel(power_of_ten, 11);
        }
        lemma_decimal_text_tells_apart(
            (first % REFERENCE_MODULUS) as nat,
            (second % REFERENCE_MODULUS) as nat,
            REFERENCE_DIGITS as nat,
        );
    }
}

/// Two entries have the same reference exactly where the hashes of what they
/// hold agree modulo ten billion.
pub proof fn lemma_reference_differs_with_hash(first: TransactionView, second: TransactionView)
    ensures
        transaction_reference(first) == transaction_reference(second) <==> transaction_hash(first)
            % REFERENCE_MODULUS == transaction_hash(second) % REFERENCE_MODULUS,
{
    lemma_reference_tells_hashes_apart(transaction_hash(first), transaction_hash(second));
}

} // verus!
