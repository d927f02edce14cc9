//! Lookup identifiers: a raw key is trimmed, lower-cased, hashed with
//! SHA-256 and rendered as lowercase hexadecimal.

use crate::text::{lowercased, push_char, to_lowercase, trim, trimmed};
use sha2::Digest;
use vstd::prelude::*;
use vstd::string::*;
use vstd::utf8::*;

verus! {

/// What `sha2::Sha256::digest` makes of a byte string: its SHA-256 digest.
pub uninterp spec fn sha256_digest(data: Seq<u8>) -> Seq<u8>;

/// Calls `sha2::Sha256::digest`, which hashes the whole input at once.
/// Trusted: the 32 bytes returned depend on `data` alone. That they are the
/// digest which the standard defines rests on the `sha2` crate.
#[verifier::external_body]
fn sha256(data: &[u8]) -> (out: [u8; 32])
    ensures
        out@ == sha256_digest(data@),
{
    sha2::Sha256::digest(data).into()
}

/// The lowercase hexadecimal digit of a value below sixteen.
pub open spec fn hex_digit(n: int) -> char {
    if n < 10 {
        (48 + n) as char
    } else {
        (87 + n) as char
    }
}

/// Two lowercase hexadecimal digits for every byte, the high half first.
pub open spec fn hex_lower(bytes: Seq<u8>) -> Seq<char> {
    Seq::new(
        2 * bytes.len(),
        |i: int|
            if i % 2 == 0 {
                hex_digit(bytes[i / 2] as int / 16)
            } else {
                hex_digit(bytes[i / 2] as int % 16)
            },
    )
}

/// Whether a character is one of `0`..`9`, `a`..`f`.
pub open spec fn is_lower_hex(c: char) -> bool {
    ('0' <= c && c <= '9') || ('a' <= c && c <= 'f')
}

/// The key as it is hashed: trimmed, then lower-cased.
pub open spec fn normalized(raw: Seq<char>) -> Seq<char> {
    lowercased(trimmed(raw))
}

/// The lookup identifier of a raw key.
pub open spec fn lookup_id(raw: Seq<char>) -> Seq<char> {
    hex_lower(sha256_digest(encode_utf8(normalized(raw))))
}

fn hex_char(n: u8) -> (c: char)
    requires
        n < 16,
    ensures
        c == hex_digit(n as int),
        is_lower_hex(c),
{
    if n < 10 {
        (48u8 + n) as char
    } else {
        (87u8 + n) as char
    }
}

/// Renders bytes as lowercase hexadecimal.
pub fn to_hex(bytes: &[u8]) -> (text: String)
    ensures
        text@ == hex_lower(bytes@),
        forall|i: int| 0 <= i < text@.len() ==> is_lower_hex(#[trigger] text@[i]),
{
    let mut text = String::new();
    let mut i: usize = 0;
    while i < bytes.len()
        invariant
            i <= bytes.len(),
            text@.len() == 2 * i,
            forall|k: int| 0 <= k < text@.len() ==> #[trigger] text@[k] == hex_lower(bytes@)[k],
            forall|k: int| 0 <= k < text@.len() ==> is_lower_hex(#[trigger] text@[k]),
        decreases bytes.len() - i,
    {
        let b: u8 = bytes[i];
        push_char(&mut text, hex_char(b / 16));
        push_char(&mut text, hex_char(b % 16));
        i += 1;
    }
    assert(text@ =~= hex_lower(bytes@));
    text
}

/// Trims, lower-cases and hashes a raw key. Any string, the empty one
/// included, has an identifier, and equal normalized keys share it.
pub fn normalize_and_hash(raw: &str) -> (id: String)
    ensures
        id@ == lookup_id(raw@),
        id@.len() == 64,
        forall|i: int| 0 <= i < 64 ==> is_lower_hex(#[trigger] id@[i]),
{
    let key = to_lowercase(trim(raw));
    let digest = sha256(key.as_str().as_bytes());
    to_hex(digest.as_slice())
}

/// The address of the profile of a raw key below `base_url`.
pub open spec fn profile_url(base_url: Seq<char>, raw: Seq<char>) -> Seq<char> {
    base_url + "/"@ + lookup_id(raw)
}

/// Builds the address of the profile of a raw key: the base address, a
/// slash and the key's lookup identifier.
pub fn build_url(base_url: &str, raw: &str) -> (url: String)
    ensures
        url@ == profile_url(base_url@, raw@),
{
    let mut url = base_url.to_owned();
    url.append("/");
    let id = normalize_and_hash(raw);
    url.append(id.as_str());
    url
}

/// The sixteen hexadecimal digits are distinct.
pub proof fn lemma_hex_digits_are_distinct(m: int, n: int)
    requires
        0 <= m < 16,
        0 <= n < 16,
        hex_digit(m) == hex_digit(n),
    ensures
        m == n,
{
    let a: int = if m < 10 { 48 + m } else { 87 + m };
    let b: int = if n < 10 { 48 + n } else { 87 + n };
    assert(a as char as int == a);
    assert(b as char as int == b);
}

/// Byte strings with the same hexadecimal rendering are the same.
pub proof fn lemma_hex_is_injective(first: Seq<u8>, second: Seq<u8>)
    requires
        hex_lower(first) == hex_lower(second),
    ensures
        first == second,
{
    assert(hex_lower(first).len() == 2 * first.len());
    assert(hex_lower(second).len() == 2 * second.len());
    assert forall|i: int| 0 <= i < first.len() implies first[i] == second[i] by {
        let x = first[i] as int;
        let y = second[i] as int;
        assert(hex_lower(first)[2 * i] == hex_digit(x / 16));
        assert(hex_lower(second)[2 * i] == hex_digit(y / 16));
        assert(hex_lower(first)[2 * i + 1] == hex_digit(x % 16));
        assert(hex_lower(second)[2 * i + 1] == hex_digit(y % 16));
        lemma_hex_digits_are_distinct(x / 16, y / 16);
        lemma_hex_digits_are_distinct(x % 16, y % 16);
    }
    assert(first =~= second);
}

/// Two keys have the same lookup identifier only where their normalized
/// forms have the same SHA-256 digest.
pub proof fn lemma_shared_identifier_is_shared_digest(first: Seq<char>, second: Seq<char>)
    requires
        lookup_id(first) == lookup_id(second),
    ensures
        sha256_digest(encode_utf8(normalized(first))) == sha256_digest(
            encode_utf8(normalized(second)),
        ),
{
    lemma_hex_is_injective(
        sha256_digest(encode_utf8(normalized(first))),
        sha256_digest(encode_utf8(normalized(second))),
    );
}

/// Keys that are equal once trimmed and lower-cased have the same lookup
/// identifier, and so the same address.
pub proof fn lemma_equal_keys_share_identifier(first: Seq<char>, second: Seq<char>)
    requires
        normalized(first) == normalized(second),
    ensures
        lookup_id(first) == lookup_id(second),
        forall|base_url: Seq<char>| #[trigger]
            profile_url(base_url, first) == profile_url(base_url, second),
{
}

} // verus!
