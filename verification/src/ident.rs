//! Identifiers of users and records. An identifier is a UUID, held as the
//! 128-bit number that its sixteen bytes spell in big-endian order.

use vstd::prelude::*;

use crate::error::ErrorKind;

verus! {

/// The error of `uuid`, carried through and never looked into.
#[verifier::external_type_specification]
#[verifier::external_body]
pub struct ExUuidError(uuid::Error);

/// The number that `uuid::Uuid::parse_str` reads from a text, or `None` where
/// it reports an error. It accepts the simple, hyphenated, braced and URN
/// forms, in either case of the hexadecimal digits.
pub uninterp spec fn parsed_uuid(text: Seq<char>) -> Option<u128>;

/// The character for one hexadecimal digit, in lower case.
pub open spec fn hex_digit(digit: int) -> char
    recommends
        0 <= digit < 16,
{
    seq!['0', '1', '2', '3', '4', '5', '6', '7', '8', '9', 'a', 'b', 'c', 'd', 'e', 'f'][digit]
}

/// Sixteen to the power `exponent`.
pub open spec fn pow16(exponent: nat) -> int
    decreases exponent,
{
    if exponent == 0 {
        1
    } else {
        16 * pow16((exponent - 1) as nat)
    }
}

/// The hexadecimal digit of `id` at `place`, where place 0 is the most
/// significant of the 32 digits.
pub open spec fn digit_at(id: u128, place: int) -> int
    recommends
        0 <= place < 32,
{
    (id as int / pow16((31 - place) as nat)) % 16
}

/// How many hyphens the hyphenated form has before position `index`.
pub open spec fn hyphens_before(index: int) -> int {
    if index > 23 {
        4
    } else if index > 18 {
        3
    } else if index > 13 {
        2
    } else if index > 8 {
        1
    } else {
        0
    }
}

/// The hyphenated form of an identifier: 32 lower-case hexadecimal digits in
/// groups of 8, 4, 4, 4 and 12.
pub open spec fn hyphenated(id: u128) -> Seq<char> {
    Seq::new(
        36,
        |index: int|
            if index == 8 || index == 13 || index == 18 || index == 23 {
                '-'
            } else {
                hex_digit(digit_at(id, index - hyphens_before(index)))
            },
    )
}

/// `uuid::Uuid::parse_str`, with the UUID taken as a number by
/// `Uuid::as_u128`. The contract gives the outcome a name and says no more
/// of it.
#[verifier::external_body]
fn uuid_parse(text: &str) -> (outcome: Result<u128, uuid::Error>)
    ensures
        match outcome {
            Ok(id) => parsed_uuid(text@) == Some(id),
            Err(_) => parsed_uuid(text@) is None,
        },
{
    match uuid::Uuid::parse_str(text) {
        Ok(id) => Ok(id.as_u128()),
        Err(fault) => Err(fault),
    }
}

/// `Display` of `uuid::Uuid`, on the UUID that `Uuid::from_u128` makes of the
/// number. The contract claims that the text is the lower-case hyphenated
/// form, and that `Uuid::parse_str` reads the same number back from it, as
/// the crate documents of every form that it writes.
#[verifier::external_body]
fn uuid_format(id: u128) -> (text: String)
    ensures
        text@ == hyphenated(id),
        parsed_uuid(text@) == Some(id),
{
    uuid::Uuid::from_u128(id).to_string()
}

/// Whether an identifier is laid out as a random UUID: the version is 4,
/// which is the hexadecimal digit at place 12, and the variant is the one of
/// RFC 4122, which is the two top bits 1 and 0 of the digit at place 16. The
/// other 122 bits are free.
pub open spec fn is_random_uuid(id: u128) -> bool {
    id & 0x0000_0000_0000_f000_c000_0000_0000_0000 == 0x0000_0000_0000_4000_8000_0000_0000_0000
}

/// `uuid::Uuid::new_v4`, taken as a number by `Uuid::as_u128`. The value is
/// random, so it has no name. The contract claims of every value that comes
/// out that it is laid out as a random UUID: the crate clears and sets the
/// version and variant bits of the random number with two masks.
#[verifier::external_body]
fn uuid_random() -> (id: u128)
    ensures
        is_random_uuid(id),
{
    uuid::Uuid::new_v4().as_u128()
}

/// Reads an identifier that a client sent.
pub fn parse_id(text: &str) -> (outcome: Result<u128, ErrorKind>)
    ensures
        outcome == id_reading(parsed_uuid(text@)),
{
    read_id(uuid_parse(text).ok())
}

/// What a parse outcome means for the request.
pub open spec fn id_reading(parsed: Option<u128>) -> Result<u128, ErrorKind> {
    match parsed {
        Some(id) => Ok(id),
        None => Err(ErrorKind::InvalidId),
    }
}

/// Turns a parse outcome into the identifier or the failure to report.
pub fn read_id(parsed: Option<u128>) -> (outcome: Result<u128, ErrorKind>)
    ensures
        outcome == id_reading(parsed),
{
    match parsed {
        Some(id) => Ok(id),
        None => Err(ErrorKind::InvalidId),
    }
}

/// Writes an identifier as clients see it.
pub fn id_text(id: u128) -> (text: String)
    ensures
        text@ == hyphenated(id),
        parsed_uuid(text@) == Some(id),
{
    uuid_format(id)
}

/// A new random identifier: a UUID of version 4.
pub fn fresh_id() -> (id: u128)
    ensures
        is_random_uuid(id),
{
    uuid_random()
}

} // verus!
