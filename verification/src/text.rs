//! Helpers on byte strings and text that the other modules share.

use vstd::prelude::*;
use vstd::string::StrSliceExecFns;
use vstd::utf8::{decode_utf8, valid_utf8};

verus! {

/// The model of a text that may be missing.
pub open spec fn optional_text(text: Option<String>) -> Option<Seq<char>> {
    match text {
        Some(t) => Some(t@),
        None => None,
    }
}

/// `String::from_utf8`: the text that `bytes` encode, or `None` where they
/// are not UTF-8.
#[verifier::external_body]
pub(crate) fn utf8_string(bytes: Vec<u8>) -> (text: Option<String>)
    ensures
        match text {
            Some(t) => valid_utf8(bytes@) && t@ == decode_utf8(bytes@),
            None => !valid_utf8(bytes@),
        },
{
    String::from_utf8(bytes).ok()
}

/// A copy of a byte slice.
pub fn copy_bytes(bytes: &[u8]) -> (copy: Vec<u8>)
    ensures
        copy@ == bytes@,
{
    let mut copy: Vec<u8> = Vec::new();
    let mut i: usize = 0;
    while i < bytes.len()
        invariant
            i <= bytes.len(),
            copy@ == bytes@.take(i as int),
        decreases bytes.len() - i,
    {
        copy.push(bytes[i]);
        i += 1;
    }
    copy
}

/// Whether two byte strings are the same.
pub fn bytes_equal(left: &[u8], right: &[u8]) -> (equal: bool)
    ensures
        equal == (left@ == right@),
{
    if left.len() != right.len() {
        return false;
    }
    let mut i: usize = 0;
    while i < left.len()
        invariant
            i <= left.len(),
            left.len() == right.len(),
            left@.take(i as int) == right@.take(i as int),
        decreases left.len() - i,
    {
        if left[i] != right[i] {
            return false;
        }
        i += 1;
    }
    assert(left@ == left@.take(i as int));
    assert(right@ == right@.take(i as int));
    true
}

/// Whether `text` ends with `suffix`.
pub fn bytes_end_with(text: &[u8], suffix: &[u8]) -> (found: bool)
    ensures
        found == suffix@.is_suffix_of(text@),
{
    if suffix.len() > text.len() {
        return false;
    }
    let offset: usize = text.len() - suffix.len();
    let ghost tail = text@.subrange(offset as int, text@.len() as int);
    let mut i: usize = 0;
    while i < suffix.len()
        invariant
            i <= suffix.len(),
            offset + suffix.len() == text.len(),
            tail == text@.subrange(offset as int, text@.len() as int),
            tail.take(i as int) == suffix@.take(i as int),
        decreases suffix.len() - i,
    {
        if text[offset + i] != suffix[i] {
            return false;
        }
        i += 1;
    }
    assert(suffix@ == suffix@.take(i as int));
    true
}

/// Whether `text` starts with `prefix`.
pub fn text_starts_with(text: &str, prefix: &str) -> (found: bool)
    ensures
        found == prefix@.is_prefix_of(text@),
{
    let length = prefix.unicode_len();
    if text.unicode_len() < length {
        false
    } else {
        text.substring_char(0, length).to_owned() == prefix.to_owned()
    }
}

/// `String::push`: the text with one character appended.
#[verifier::external_body]
pub(crate) fn push_char(text: &mut String, c: char)
    ensures
        final(text)@ == old(text)@.push(c),
{
    text.push(c);
}

/// Whether a character is white space: whether it has the Unicode property
/// `White_Space`. These are the controls from tab to carriage return, the
/// space, next line, the no-break space, the Ogham space mark, the spaces from
/// en quad to hair space, the line and the paragraph separator, the narrow
/// no-break space, the medium mathematical space and the ideographic space.
pub open spec fn is_white_space(c: char) -> bool {
    let code = c as u32;
    ||| 0x09 <= code <= 0x0d
    ||| code == 0x20
    ||| code == 0x85
    ||| code == 0xa0
    ||| code == 0x1680
    ||| 0x2000 <= code <= 0x200a
    ||| code == 0x2028
    ||| code == 0x2029
    ||| code == 0x202f
    ||| code == 0x205f
    ||| code == 0x3000
}

/// `char::is_whitespace`, which is true of the characters with the Unicode
/// property `White_Space` and of no others.
#[verifier::external_body]
pub(crate) fn is_whitespace(c: char) -> (white: bool)
    ensures
        white == is_white_space(c),
{
    c.is_whitespace()
}

/// The words of a text: its longest runs of characters that are not white
/// space, in order.
pub open spec fn words(text: Seq<char>) -> Seq<Seq<char>>
    decreases text.len(),
{
    if text.len() == 0 {
        Seq::empty()
    } else {
        let before = words(text.drop_last());
        if is_white_space(text.last()) {
            before
        } else if text.len() >= 2 && !is_white_space(text[text.len() - 2]) {
            before.update(before.len() - 1, before.last().push(text.last()))
        } else {
            before.push(seq![text.last()])
        }
    }
}

/// Words joined by single spaces.
pub open spec fn joined_words(words: Seq<Seq<char>>) -> Seq<char>
    decreases words.len(),
{
    if words.len() == 0 {
        Seq::empty()
    } else if words.len() == 1 {
        words[0]
    } else {
        joined_words(words.drop_last()) + seq![' '] + words.last()
    }
}

/// A text with every run of white space replaced by one space, and none left
/// at either end.
pub open spec fn normalized_whitespace(text: Seq<char>) -> Seq<char> {
    joined_words(words(text))
}

/// A text that ends in a character which is not white space has a word.
pub proof fn lemma_words_after_letter(text: Seq<char>)
    requires
        text.len() > 0,
        !is_white_space(text.last()),
    ensures
        words(text).len() > 0,
    decreases text.len(),
{
    if text.len() >= 2 && !is_white_space(text[text.len() - 2]) {
        lemma_words_after_letter(text.drop_last());
    }
}

/// A character added to the last word is added to the joined text.
pub proof fn lemma_joined_words_extend(list: Seq<Seq<char>>, c: char)
    requires
        list.len() > 0,
    ensures
        joined_words(list.update(list.len() - 1, list.last().push(c))) == joined_words(list).push(
            c,
        ),
{
    let extended = list.update(list.len() - 1, list.last().push(c));
    if list.len() > 1 {
        assert(extended.drop_last() == list.drop_last());
    }
}

/// Replaces every run of white space in a text by one space and drops the
/// white space at both ends.
pub fn normalize_whitespace(text: &str) -> (normalized: String)
    ensures
        normalized@ == normalized_whitespace(text@),
{
    let mut normalized = String::new();
    let mut in_word = false;
    let mut has_word = false;
    for c in iter: text.chars()
        invariant
            iter.seq() == text@,
            normalized@ == joined_words(words(text@.take(iter.index()))),
            in_word == (iter.index() > 0 && !is_white_space(text@[iter.index() - 1])),
            has_word == (words(text@.take(iter.index())).len() > 0),
    {
        let white = is_whitespace(c);
        proof {
            let i = iter.index();
            let before = text@.take(i);
            let next = text@.take(i + 1);
            assert(next.drop_last() == before);
            if !white {
                if in_word {
                    lemma_words_after_letter(before);
                    lemma_joined_words_extend(words(before), c);
                } else {
                    assert(words(next).drop_last() == words(before));
                }
            }
        }
        if !white {
            if !in_word && has_word {
                push_char(&mut normalized, ' ');
            }
            push_char(&mut normalized, c);
            has_word = true;
        }
        in_word = !white;
    }
    assert(text@.take(text@.len() as int) == text@);
    normalized
}

/// The character that stands for a decimal digit.
pub open spec fn digit_char(digit: int) -> char {
    if digit == 0 {
        '0'
    } else if digit == 1 {
        '1'
    } else if digit == 2 {
        '2'
    } else if digit == 3 {
        '3'
    } else if digit == 4 {
        '4'
    } else if digit == 5 {
        '5'
    } else if digit == 6 {
        '6'
    } else if digit == 7 {
        '7'
    } else if digit == 8 {
        '8'
    } else {
        '9'
    }
}

/// The last `width` decimal digits of a number, with leading zeros where it
/// has fewer.
pub open spec fn decimal_text(value: nat, width: nat) -> Seq<char>
    decreases width,
{
    if width == 0 {
        Seq::empty()
    } else {
        decimal_text(value / 10, (width - 1) as nat).push(digit_char((value % 10) as int))
    }
}

/// The character of a decimal digit.
pub fn digit_to_char(digit: u64) -> (c: char)
    requires
        digit < 10,
    ensures
        c == digit_char(digit as int),
{
    if digit == 0 {
        '0'
    } else if digit == 1 {
        '1'
    } else if digit == 2 {
        '2'
    } else if digit == 3 {
        '3'
    } else if digit == 4 {
        '4'
    } else if digit == 5 {
        '5'
    } else if digit == 6 {
        '6'
    } else if digit == 7 {
        '7'
    } else if digit == 8 {
        '8'
    } else {
        '9'
    }
}

/// Appends the last `width` decimal digits of a number to a text, with
/// leading zeros where the number has fewer.
pub fn push_decimal(text: &mut String, value: u64, width: u32)
    ensures
        final(text)@ == old(text)@ + decimal_text(value as nat, width as nat),
    decreases width,
{
    if width > 0 {
        push_decimal(text, value / 10, width - 1);
        push_char(text, digit_to_char(value % 10));
    }
}

/// A text of white space only has no words, and nothing is left of it.
pub proof fn lemma_blank_text_has_no_words(text: Seq<char>)
    requires
        forall|i: int| 0 <= i < text.len() ==> is_white_space(#[trigger] text[i]),
    ensures
        words(text).len() == 0,
        normalized_whitespace(text) == Seq::<char>::empty(),
    decreases text.len(),
{
    if text.len() > 0 {
        lemma_blank_text_has_no_words(text.drop_last());
    }
}

/// Ten to the power of `exponent`.
pub open spec fn power_of_ten(exponent: nat) -> nat
    decreases exponent,
{
    if exponent == 0 {
        1
    } else {
        10 * power_of_ten((exponent - 1) as nat)
    }
}

/// Two numbers that fit the width and are written alike are the same number.
pub proof fn lemma_decimal_text_tells_apart(first: nat, second: nat, width: nat)
    requires
        first < power_of_ten(width),
        second < power_of_ten(width),
        decimal_text(first, width) == decimal_text(second, width),
    ensures
        first == second,
    decreases width,
{
    if width > 0 {
        let narrower = (width - 1) as nat;
        let first_head = decimal_text(first / 10, narrower);
        let second_head = decimal_text(second / 10, narrower);
        assert(decimal_text(first, width).drop_last() == first_head);
        assert(decimal_text(second, width).drop_last() == second_head);
        assert(decimal_text(first, width).last() == digit_char((first % 10) as int));
        assert(decimal_text(second, width).last() == digit_char((second % 10) as int));
        lemma_decimal_text_tells_apart(first / 10, second / 10, narrower);
    }
}

} // verus!
