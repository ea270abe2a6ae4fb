//! 128-bit identifiers: their RFC 9562 lowercase hyphenated text, parsing, and
//! fresh random (version 4) identifiers, all through the `uuid` crate.

use vstd::prelude::*;

verus! {

/// Lowercase hexadecimal digit for a value in `0..16`.
pub open spec fn hex_char(d: int) -> char {
    if d == 0 { '0' } else if d == 1 { '1' } else if d == 2 { '2' } else if d == 3 { '3' }
    else if d == 4 { '4' } else if d == 5 { '5' } else if d == 6 { '6' } else if d == 7 { '7' }
    else if d == 8 { '8' } else if d == 9 { '9' } else if d == 10 { 'a' } else if d == 11 { 'b' }
    else if d == 12 { 'c' } else if d == 13 { 'd' } else if d == 14 { 'e' } else { 'f' }
}

/// The last `n` hexadecimal digits of `v`, most significant first.
pub open spec fn hex_digits(v: int, n: nat) -> Seq<char>
    decreases n,
{
    if n == 0 {
        Seq::empty()
    } else {
        hex_digits(v / 16, (n - 1) as nat).push(hex_char(v % 16))
    }
}

/// The lowercase hyphenated text of an identifier,
/// `xxxxxxxx-xxxx-xxxx-xxxx-xxxxxxxxxxxx`, digits most significant first.
pub open spec fn hyphenated(v: u128) -> Seq<char> {
    let d = hex_digits(v as int, 32);
    d.subrange(0, 8) + seq!['-'] + d.subrange(8, 12) + seq!['-'] + d.subrange(12, 16) + seq!['-']
        + d.subrange(16, 20) + seq!['-'] + d.subrange(20, 32)
}

/// An identifier carries the version-4 ("random") version nibble and the
/// RFC 9562 variant bits `10`.
pub open spec fn is_random_uuid(v: u128) -> bool {
    &&& (v as int / 0x10000000000000000000int) % 16 == 4
    &&& (v as int / 0x4000000000000000int) % 4 == 2
}

/// What `uuid::Uuid::parse_str` makes of a text, as a 128-bit value.
pub uninterp spec fn parsed_uuid(text: Seq<char>) -> Option<u128>;

/// Calls `uuid::Uuid::parse_str` and reads the parsed identifier as a
/// big-endian 128-bit value (`Uuid::as_u128`). Claimed: the result is the named
/// function of the text, and the lowercase hyphenated text of a value parses
/// back to that value (the parser accepts 36-character texts with hyphens at
/// 8, 13, 18 and 23 and hexadecimal digits elsewhere). Which other texts it
/// accepts (simple, braced, URN and uppercase forms) is left unsaid.
#[verifier::external_body]
pub(crate) fn parse_uuid(text: &str) -> (r: Option<u128>)
    ensures
        r == parsed_uuid(text@),
        forall|v: u128| text@ == #[trigger] hyphenated(v) ==> r == Some(v),
{
    uuid::Uuid::parse_str(text).ok().map(|u| u.as_u128())
}

/// Calls `uuid::Uuid::new_v4` and reads the identifier as a 128-bit value.
/// Claimed: the version nibble is 4 and the variant bits are `10`, which
/// `new_v4` sets on the random bits it draws. The other 122 bits are random.
#[verifier::external_body]
pub(crate) fn random_uuid() -> (r: u128)
    ensures
        is_random_uuid(r),
{
    uuid::Uuid::new_v4().as_u128()
}

/// Formats an identifier with `uuid::Uuid`'s `Display` (`to_string`).
/// Claimed: the text is the lowercase hyphenated form of the value.
#[verifier::external_body]
pub(crate) fn uuid_text(id: u128) -> (r: String)
    ensures
        r@ == hyphenated(id),
{
    uuid::Uuid::from_u128(id).to_string()
}

} // verus!
