use camt_converter::model::Transaction;
use camt_converter::reference::{
    generate_transaction_reference, hash_transaction, reference_from_hash,
};
use camt_converter::text::normalize_whitespace;
use std::collections::hash_map::DefaultHasher;
use std::hash::{Hash, Hasher};

fn coffee() -> Transaction {
    Transaction {
        amount: "50.00".to_string(),
        currency: "EUR".to_string(),
        credit_debit_ind: "DBIT".to_string(),
        booking_date: "2025-06-20T00:00:00+02:00".to_string(),
        bank_tx_code: "CARD001".to_string(),
        additional_info: "  Coffee   shop  ".to_string(),
        charges: None,
    }
}

#[test]
fn reference_of_zero() {
    assert_eq!(reference_from_hash(0), "TX0000000000");
}

#[test]
fn reference_is_padded_to_ten_digits() {
    assert_eq!(reference_from_hash(123_456_789), "TX0123456789");
    assert_eq!(reference_from_hash(7), "TX0000000007");
}

#[test]
fn reference_keeps_the_last_ten_digits() {
    assert_eq!(reference_from_hash(10_000_000_000), "TX0000000000");
    assert_eq!(reference_from_hash(19_876_543_210), "TX9876543210");
    assert_eq!(reference_from_hash(u64::MAX), "TX3709551615");
}

#[test]
fn reference_has_prefix_and_ten_digits() {
    let reference = generate_transaction_reference(&coffee());
    assert_eq!(reference.len(), 12);
    assert!(reference.starts_with("TX"));
    assert!(reference[2..].chars().all(|c| c.is_ascii_digit()));
}

#[test]
fn same_entry_same_reference() {
    assert_eq!(
        generate_transaction_reference(&coffee()),
        generate_transaction_reference(&coffee())
    );
}

#[test]
fn white_space_does_not_change_the_reference() {
    let mut other = coffee();
    other.additional_info = "Coffee shop".to_string();
    assert_eq!(
        generate_transaction_reference(&coffee()),
        generate_transaction_reference(&other)
    );
    other.additional_info = "\tCoffee\n\nshop".to_string();
    assert_eq!(
        generate_transaction_reference(&coffee()),
        generate_transaction_reference(&other)
    );
}

#[test]
fn charges_do_not_change_the_reference() {
    let mut other = coffee();
    other.charges = Some("1.00".to_string());
    assert_eq!(
        generate_transaction_reference(&coffee()),
        generate_transaction_reference(&other)
    );
}

#[test]
fn every_hashed_field_changes_the_hash() {
    let base = hash_transaction(&coffee());
    let mut other = coffee();
    other.amount = "50.01".to_string();
    assert_ne!(hash_transaction(&other), base);
    let mut other = coffee();
    other.currency = "CHF".to_string();
    assert_ne!(hash_transaction(&other), base);
    let mut other = coffee();
    other.credit_debit_ind = "CRDT".to_string();
    assert_ne!(hash_transaction(&other), base);
    let mut other = coffee();
    other.booking_date = "2025-06-21T00:00:00+02:00".to_string();
    assert_ne!(hash_transaction(&other), base);
    let mut other = coffee();
    other.bank_tx_code = "CARD002".to_string();
    assert_ne!(hash_transaction(&other), base);
    let mut other = coffee();
    other.additional_info = "Coffeeshop".to_string();
    assert_ne!(hash_transaction(&other), base);
}

#[test]
fn fields_are_hashed_apart() {
    let mut first = coffee();
    first.amount = "50.0".to_string();
    first.currency = "0EUR".to_string();
    assert_ne!(hash_transaction(&first), hash_transaction(&coffee()));
}

#[test]
fn hash_is_that_of_the_fields_in_order() {
    let mut hasher = DefaultHasher::new();
    "50.00".to_string().hash(&mut hasher);
    "EUR".to_string().hash(&mut hasher);
    "DBIT".to_string().hash(&mut hasher);
    "2025-06-20T00:00:00+02:00".to_string().hash(&mut hasher);
    "CARD001".to_string().hash(&mut hasher);
    "Coffee shop".to_string().hash(&mut hasher);
    let expected = hasher.finish();
    assert_eq!(hash_transaction(&coffee()), expected);
    assert_eq!(
        generate_transaction_reference(&coffee()),
        format!("TX{:010}", expected % 10_000_000_000)
    );
}

#[test]
fn runs_of_white_space_become_one_space() {
    assert_eq!(normalize_whitespace("  Coffee   shop  "), "Coffee shop");
    assert_eq!(normalize_whitespace("a\tb\nc\r\nd"), "a b c d");
    assert_eq!(normalize_whitespace("one"), "one");
    assert_eq!(normalize_whitespace(""), "");
    assert_eq!(normalize_whitespace(" \t\n"), "");
    assert_eq!(normalize_whitespace("a\u{a0}b\u{3000}c"), "a b c");
    assert_eq!(normalize_whitespace("é  ü"), "é ü");
}

#[test]
fn white_space_is_what_the_standard_library_takes_for_it() {
    for code in 0..=0x10ffffu32 {
        if let Some(c) = char::from_u32(code) {
            let mut text = String::from("a");
            text.push(c);
            text.push('b');
            let expected = if c.is_whitespace() { "a b".to_string() } else { text.clone() };
            assert_eq!(normalize_whitespace(&text), expected);
        }
    }
}

#[test]
fn text_of_white_space_only_is_hashed_as_empty_text() {
    let mut blank = coffee();
    blank.additional_info = " \t \n".to_string();
    let mut empty = coffee();
    empty.additional_info = String::new();
    assert_eq!(hash_transaction(&blank), hash_transaction(&empty));
    assert_eq!(
        generate_transaction_reference(&blank),
        generate_transaction_reference(&empty)
    );
}
