//! Identifiers from the `uuid` crate: parsing, the two text renderings, and
//! fresh random identifiers. An identifier is carried as its 128-bit value.

use vstd::prelude::*;

verus! {

/// What `Uuid::from_str` gives for the text `s`: the identifier's value, or
/// `None` when the text is not one of the accepted forms (simple,
/// hyphenated, URN, braced).
pub uninterp spec fn uuid_parse(s: Seq<char>) -> Option<u128>;

/// The lower-case hexadecimal digit of `n` (`0 <= n < 16`).
pub open spec fn hex_lower(n: int) -> char {
    seq!['0', '1', '2', '3', '4', '5', '6', '7', '8', '9', 'a', 'b', 'c', 'd', 'e', 'f'][n]
}

/// The last `digits` lower-case hexadecimal digits of `u`, most significant first.
pub open spec fn hex_digits(u: nat, digits: nat) -> Seq<char>
    decreases digits,
{
    if digits == 0 {
        Seq::empty()
    } else {
        hex_digits(u / 16, (digits - 1) as nat).push(hex_lower((u % 16) as int))
    }
}

/// The simple rendering: 32 lower-case hexadecimal digits.
pub open spec fn uuid_simple_text(u: u128) -> Seq<char> {
    hex_digits(u as nat, 32)
}

/// The hyphenated rendering `8-4-4-4-12` that `Uuid`'s `Display` writes.
pub open spec fn uuid_hyphenated_text(u: u128) -> Seq<char> {
    let s = uuid_simple_text(u);
    s.subrange(0, 8) + seq!['-'] + s.subrange(8, 12) + seq!['-'] + s.subrange(12, 16) + seq!['-']
        + s.subrange(16, 20) + seq!['-'] + s.subrange(20, 32)
}

/// `hex_digits` has exactly `digits` characters.
pub proof fn lemma_hex_digits_len(u: nat, digits: nat)
    ensures
        hex_digits(u, digits).len() == digits,
    decreases digits,
{
    if digits > 0 {
        lemma_hex_digits_len(u / 16, (digits - 1) as nat);
    }
}

/// `Uuid::from_str`: the value of the identifier written as `s`, or `None`
/// when `s` is not an identifier; the result is `uuid_parse(s@)`.
#[verifier::external_body]
pub(crate) fn parse_uuid(s: &str) -> (r: Option<u128>)
    ensures
        r == uuid_parse(s@),
{
    match <uuid::Uuid as std::str::FromStr>::from_str(s) {
        Ok(u) => Some(u.as_u128()),
        Err(_) => None,
    }
}

/// `Uuid::from_u128(u).to_string()`: the hyphenated lower-case rendering,
/// as the crate's `Display` writes it; the crate documents that its parser
/// reads back every form it writes.
#[verifier::external_body]
pub(crate) fn uuid_to_hyphenated(u: u128) -> (s: String)
    ensures
        s@ == uuid_hyphenated_text(u),
        uuid_parse(s@) == Some(u),
{
    uuid::Uuid::from_u128(u).to_string()
}

/// `Uuid::from_u128(u).simple().to_string()`: 32 lower-case hex digits,
/// which the crate's parser reads back.
#[verifier::external_body]
pub(crate) fn uuid_to_simple(u: u128) -> (s: String)
    ensures
        s@ == uuid_simple_text(u),
        uuid_parse(s@) == Some(u),
{
    uuid::Uuid::from_u128(u).simple().to_string()
}

/// A version 4 identifier: its version nibble (bits 76 to 79) is 4 and its
/// variant bits (62 and 63) are `10`.
pub open spec fn is_v4(u: u128) -> bool {
    &&& (u as int / 75557863725914323419136) % 16 == 4
    &&& (u as int / 4611686018427387904) % 4 == 2
}

/// `Uuid::new_v4()`: a random identifier. Its value is random; the source
/// fixes the version nibble to 4 and the variant bits to `10`.
#[verifier::external_body]
pub(crate) fn new_random_uuid() -> (u: u128)
    ensures
        is_v4(u),
{
    uuid::Uuid::new_v4().as_u128()
}

} // verus!
