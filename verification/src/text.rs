//! Small text routines: the calls into `std` that have no contract of
//! their own, and decimal numbers in both directions.

use vstd::prelude::*;
use vstd::string::*;

verus! {

/// Whether a character is white space: one of the 25 characters that
/// Unicode gives the property White_Space.
pub open spec fn is_white_space(c: char) -> bool {
    ('\u{9}' <= c && c <= '\u{d}') || c == ' ' || c == '\u{85}' || c == '\u{a0}' || c
        == '\u{1680}' || ('\u{2000}' <= c && c <= '\u{200a}') || c == '\u{2028}' || c
        == '\u{2029}' || c == '\u{202f}' || c == '\u{205f}' || c == '\u{3000}'
}

/// A string without the white space at its start.
pub open spec fn trimmed_start(s: Seq<char>) -> Seq<char>
    decreases s.len(),
{
    if s.len() > 0 && is_white_space(s.first()) {
        trimmed_start(s.drop_first())
    } else {
        s
    }
}

/// A string without the white space at its end.
pub open spec fn trimmed_end(s: Seq<char>) -> Seq<char>
    decreases s.len(),
{
    if s.len() > 0 && is_white_space(s.last()) {
        trimmed_end(s.drop_last())
    } else {
        s
    }
}

/// A string without the white space at its start and at its end.
pub open spec fn trimmed(s: Seq<char>) -> Seq<char> {
    trimmed_end(trimmed_start(s))
}

/// What `str::to_lowercase` makes of a string: its lowercase form.
pub uninterp spec fn lowercased(s: Seq<char>) -> Seq<char>;

/// Calls `str::trim`. Trusted: the result is the input without the
/// characters of the Unicode property White_Space at its start and at its
/// end.
#[verifier::external_body]
pub(crate) fn trim(s: &str) -> (r: &str)
    ensures
        r@ == trimmed(s@),
{
    s.trim()
}

/// Calls `str::to_lowercase`. Trusted: the result depends on the characters
/// of the input alone. What the lowercase of a character is, is not stated
/// here.
#[verifier::external_body]
pub(crate) fn to_lowercase(s: &str) -> (r: String)
    ensures
        r@ == lowercased(s@),
{
    s.to_lowercase()
}

/// Calls `String::push`. Trusted: the character is appended at the end.
#[verifier::external_body]
pub(crate) fn push_char(s: &mut String, c: char)
    ensures
        final(s)@ == old(s)@.push(c),
{
    s.push(c)
}

/// Calls `str::eq`. Trusted: two strings are equal exactly when they hold
/// the same characters.
#[verifier::external_body]
pub(crate) fn same_text(a: &str, b: &str) -> (r: bool)
    ensures
        r == (a@ == b@),
{
    a == b
}

/// The character of a decimal digit.
pub open spec fn digit_char(d: nat) -> char {
    (48 + d) as char
}

/// A natural number in decimal, without leading zeros.
pub open spec fn decimal(n: nat) -> Seq<char>
    decreases n,
{
    if n < 10 {
        seq![digit_char(n)]
    } else {
        decimal(n / 10).push(digit_char(n % 10))
    }
}

/// Whether a byte is an ASCII digit.
pub open spec fn is_digit(b: u8) -> bool {
    48 <= b <= 57
}

/// The number that a run of ASCII digits denotes, the most significant
/// digit first; zero for the empty run.
pub open spec fn digits_value(digits: Seq<u8>) -> nat
    decreases digits.len(),
{
    if digits.len() == 0 {
        0
    } else {
        (10 * digits_value(digits.drop_last()) + (digits.last() - 48)) as nat
    }
}

/// Whether a text begins with a minus sign.
pub open spec fn has_minus(text: Seq<u8>) -> bool {
    text.len() > 0 && text[0] == 45
}

/// The digits of a number: the text without one leading `+` or `-`.
pub open spec fn digits_of(text: Seq<u8>) -> Seq<u8> {
    if text.len() > 0 && (text[0] == 43 || text[0] == 45) {
        text.drop_first()
    } else {
        text
    }
}

/// Reads an integer: an optional `+` or `-`, then one or more ASCII digits
/// whose value fits in 64 bits. Anything else is no integer.
pub open spec fn integer_of(text: Seq<u8>) -> Option<int> {
    let digits = digits_of(text);
    if digits.len() > 0 && (forall|i: int| 0 <= i < digits.len() ==> is_digit(#[trigger] digits[i]))
        && digits_value(digits) <= u64::MAX {
        if has_minus(text) {
            Some(-(digits_value(digits) as int))
        } else {
            Some(digits_value(digits) as int)
        }
    } else {
        None
    }
}

/// A run of digits denotes at least what any of its prefixes denotes.
pub proof fn lemma_digits_value_grows(digits: Seq<u8>, k: int)
    requires
        0 <= k <= digits.len(),
        forall|i: int| 0 <= i < digits.len() ==> is_digit(#[trigger] digits[i]),
    ensures
        digits_value(digits.take(k)) <= digits_value(digits),
    decreases digits.len() - k,
{
    if k == digits.len() {
        assert(digits.take(k) =~= digits);
    } else {
        lemma_digits_value_grows(digits, k + 1);
        let longer = digits.take(k + 1);
        assert(longer.drop_last() =~= digits.take(k));
        assert(is_digit(digits[k]));
        assert(longer.last() == digits[k]);
    }
}

/// Appends the decimal form of `n` to `out`.
pub fn append_decimal(out: &mut String, n: u64)
    ensures
        final(out)@ == old(out)@ + decimal(n as nat),
    decreases n,
{
    if n >= 10 {
        append_decimal(out, n / 10);
    }
    let d: u8 = (n % 10) as u8;
    push_char(out, (48u8 + d) as char);
    assert(final(out)@ =~= old(out)@ + decimal(n as nat));
}

/// Reads an integer from a string. The result lies between `-u64::MAX`
/// and `u64::MAX`.
pub fn parse_integer(text: &str) -> (r: Option<i128>)
    ensures
        match r {
            Some(value) => integer_of(text.spec_bytes()) == Some(value as int),
            None => integer_of(text.spec_bytes()) is None,
        },
{
    let bytes = text.as_bytes();
    let signed: bool = bytes.len() > 0 && (bytes[0] == 43 || bytes[0] == 45);
    let negative: bool = bytes.len() > 0 && bytes[0] == 45;
    let start: usize = if signed { 1 } else { 0 };
    if bytes.len() == start {
        return None;
    }
    let ghost digits = digits_of(bytes@);
    assert(digits =~= bytes@.skip(start as int));
    let mut value: u64 = 0;
    let mut i: usize = start;
    while i < bytes.len()
        invariant
            start <= i <= bytes.len(),
            start <= 1,
            digits == bytes@.skip(start as int),
            digits == digits_of(bytes@),
            bytes@ == text.spec_bytes(),
            digits.len() > 0,
            forall|k: int| 0 <= k < i - start ==> is_digit(#[trigger] digits[k]),
            value == digits_value(digits.take(i - start)),
        decreases bytes.len() - i,
    {
        let b: u8 = bytes[i];
        assert(digits[i - start] == b);
        if b < 48 || b > 57 {
            return None;
        }
        let ghost longer = digits.take(i - start + 1);
        assert(longer.drop_last() =~= digits.take(i - start));
        assert(longer.last() == b);
        let next = match value.checked_mul(10) {
            Some(v) => v.checked_add((b - 48) as u64),
            None => None,
        };
        match next {
            Some(v) => {
                value = v;
            },
            None => {
                proof {
                    assert(digits_value(longer) > u64::MAX);
                    if forall|k: int| 0 <= k < digits.len() ==> is_digit(#[trigger] digits[k]) {
                        lemma_digits_value_grows(digits, i - start + 1);
                    }
                }
                return None;
            },
        }
        i += 1;
    }
    assert(digits.take(i - start) =~= digits);
    if negative {
        Some(-(value as i128))
    } else {
        Some(value as i128)
    }
}

} // verus!
