//! UUIDs as they appear in text: invite codes and refresh tokens, through the `uuid` crate.
use vstd::prelude::*;

verus! {

/// The lowercase hexadecimal digit for a value below sixteen.
pub open spec fn hex_char(d: nat) -> char {
    if d < 10 {
        crate::text::digit_char(d)
    } else if d == 10 { 'a' }
    else if d == 11 { 'b' }
    else if d == 12 { 'c' }
    else if d == 13 { 'd' }
    else if d == 14 { 'e' }
    else { 'f' }
}

/// The last `width` lowercase hexadecimal digits of `v`, most significant first.
pub open spec fn hex_digits(v: nat, width: nat) -> Seq<char>
    decreases width,
{
    if width == 0 {
        Seq::empty()
    } else {
        hex_digits(v / 16, (width - 1) as nat).push(hex_char(v % 16))
    }
}

/// The hyphenated form of a UUID, e.g. `67e55044-10b1-426f-9247-bb680e5fe0c8`: its 32
/// lowercase hexadecimal digits in groups of 8, 4, 4, 4 and 12.
pub open spec fn uuid_hyphenated(u: u128) -> Seq<char> {
    let v = u as nat;
    hex_digits(v / 0x1_0000_0000_0000_0000_0000_0000, 8) + seq!['-']
        + hex_digits(v / 0x1_0000_0000_0000_0000_0000, 4) + seq!['-']
        + hex_digits(v / 0x1_0000_0000_0000_0000, 4) + seq!['-']
        + hex_digits(v / 0x1_0000_0000_0000, 4) + seq!['-']
        + hex_digits(v, 12)
}

/// What `uuid::Uuid::try_parse` gives for a text: the UUID (as its 128-bit value) when the text
/// is in one of the formats the crate accepts, else `None`.
pub uninterp spec fn uuid_parse(s: Seq<char>) -> Option<u128>;

/// Parses a UUID with `uuid::Uuid::try_parse`.
///
/// Trusted: the result is `uuid_parse` of the text, the value of the parsed UUID.
#[verifier::external_body]
pub(crate) fn parse_uuid(s: &str) -> (r: Option<u128>)
    ensures
        r == uuid_parse(s@),
{
    match uuid::Uuid::try_parse(s) {
        Ok(u) => Some(u.as_u128()),
        Err(_) => None,
    }
}

/// Formats a UUID with `uuid::Uuid`'s `Display`, the hyphenated lowercase form.
///
/// Trusted: the text is the hyphenated form, and `Uuid::try_parse` gives the same UUID back
/// for it (the crate's documentation: every format it generates is accepted by its parser).
#[verifier::external_body]
pub(crate) fn uuid_to_string(u: u128) -> (s: String)
    ensures
        s@ == uuid_hyphenated(u),
        uuid_parse(s@) == Some(u),
{
    uuid::Uuid::from_u128(u).to_string()
}

} // verus!
