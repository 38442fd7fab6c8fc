//! Small text helpers for field paths and messages.

use vstd::prelude::*;

verus! {

/// The text of one decimal digit.
pub open spec fn digit_text(digit: nat) -> Seq<char> {
    if digit == 0 {
        "0"@
    } else if digit == 1 {
        "1"@
    } else if digit == 2 {
        "2"@
    } else if digit == 3 {
        "3"@
    } else if digit == 4 {
        "4"@
    } else if digit == 5 {
        "5"@
    } else if digit == 6 {
        "6"@
    } else if digit == 7 {
        "7"@
    } else if digit == 8 {
        "8"@
    } else {
        "9"@
    }
}

/// The decimal text of a number, without leading zeros.
pub open spec fn decimal_text(n: nat) -> Seq<char>
    decreases n,
{
    if n < 10 {
        digit_text(n)
    } else {
        decimal_text(n / 10) + digit_text(n % 10)
    }
}

fn digit_str(digit: usize) -> (text: &'static str)
    requires
        digit < 10,
    ensures
        text@ == digit_text(digit as nat),
{
    if digit == 0 {
        "0"
    } else if digit == 1 {
        "1"
    } else if digit == 2 {
        "2"
    } else if digit == 3 {
        "3"
    } else if digit == 4 {
        "4"
    } else if digit == 5 {
        "5"
    } else if digit == 6 {
        "6"
    } else if digit == 7 {
        "7"
    } else if digit == 8 {
        "8"
    } else {
        "9"
    }
}

/// Writes a number in decimal.
pub fn decimal_string(n: usize) -> (text: String)
    ensures
        text@ == decimal_text(n as nat),
    decreases n,
{
    if n < 10 {
        String::from_str(digit_str(n))
    } else {
        let mut text = decimal_string(n / 10);
        text.append(digit_str(n % 10));
        text
    }
}

/// An owned copy of a string slice.
pub fn owned(text: &str) -> (copy: String)
    ensures
        copy@ == text@,
{
    String::from_str(text)
}

/// `head` followed by the decimal text of `index` and then by `tail`.
pub open spec fn indexed_text(head: Seq<char>, index: nat, tail: Seq<char>) -> Seq<char> {
    head + decimal_text(index) + tail
}

/// Builds `head`, the decimal text of `index` and `tail` as one string.
pub fn indexed_string(head: &str, index: usize, tail: &str) -> (text: String)
    ensures
        text@ == indexed_text(head@, index as nat, tail@),
{
    let mut text = String::from_str(head);
    let digits = decimal_string(index);
    text.append(digits.as_str());
    text.append(tail);
    text
}

/// What `str::trim` returns for a text. The result depends on the text
/// alone.
pub uninterp spec fn trimmed_text(text: Seq<char>) -> Seq<char>;

/// Whether `part` is a contiguous part of `text`.
pub open spec fn is_part_of(part: Seq<char>, text: Seq<char>) -> bool {
    exists|from: int, to: int|
        0 <= from <= to <= text.len() && part == #[trigger] text.subrange(from, to)
}

/// Calls `str::trim`, which returns the slice of `text` that is left when
/// leading and trailing whitespace is removed. The contract names that
/// slice and claims only that it is a contiguous part of `text`.
#[verifier::external_body]
pub(crate) fn trimmed<'a>(text: &'a str) -> (rest: &'a str)
    ensures
        rest@ == trimmed_text(text@),
        rest@.len() <= text@.len(),
        is_part_of(rest@, text@),
{
    text.trim()
}

/// A character with an ASCII capital letter turned into its small letter.
pub open spec fn ascii_lower_char(c: char) -> char {
    if 65 <= c as int <= 90 {
        (c as int + 32) as char
    } else {
        c
    }
}

/// A text with every ASCII capital letter turned into its small letter.
pub open spec fn ascii_lower(text: Seq<char>) -> Seq<char> {
    Seq::new(text.len(), |i: int| ascii_lower_char(text[i]))
}

/// Calls `str::to_ascii_lowercase`, which returns a copy of `text` in
/// which the ASCII letters `A` to `Z` are replaced by `a` to `z` and every
/// other character is kept.
#[verifier::external_body]
pub(crate) fn ascii_lowercase(text: &str) -> (lower: String)
    ensures
        lower@ == ascii_lower(text@),
{
    text.to_ascii_lowercase()
}

} // verus!
