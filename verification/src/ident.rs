//! Identifiers of remote resources: 128-bit UUIDs.

use vstd::arithmetic::power::pow;
use vstd::prelude::*;

verus! {

/// A universally unique identifier, as the 128-bit number whose big-endian
/// bytes are the identifier's sixteen bytes.
#[derive(Clone, Copy, Debug, PartialEq, Eq, Hash, Structural)]
pub struct Uuid {
    pub value: u128,
}

/// The lower-case hexadecimal digit for `d`, where `0 <= d < 16`.
pub open spec fn hex_digit(d: int) -> char {
    seq!['0', '1', '2', '3', '4', '5', '6', '7', '8', '9', 'a', 'b', 'c', 'd', 'e', 'f'][d]
}

/// The `i`-th of the 32 hexadecimal digits of `value`, most significant first.
pub open spec fn nibble(value: u128, i: int) -> int {
    (value as int / pow(16, (31 - i) as nat)) % 16
}

/// Whether position `p` of the hyphenated form holds a hyphen.
pub open spec fn is_hyphen_position(p: int) -> bool {
    p == 8 || p == 13 || p == 18 || p == 23
}

/// How many hyphens stand before position `p` of the hyphenated form.
pub open spec fn hyphens_before(p: int) -> int {
    if p < 8 {
        0
    } else if p < 13 {
        1
    } else if p < 18 {
        2
    } else if p < 23 {
        3
    } else {
        4
    }
}

/// The hyphenated lower-case form of `value`: 32 hexadecimal digits in
/// groups of 8, 4, 4, 4 and 12, with a hyphen between two groups.
pub open spec fn hyphenated(value: u128) -> Seq<char> {
    Seq::new(
        36,
        |p: int|
            if is_hyphen_position(p) {
                '-'
            } else {
                hex_digit(nibble(value, p - hyphens_before(p)))
            },
    )
}

/// The number that `uuid::Uuid::parse_str` reads from `text`, or `None`
/// where it rejects `text`.
pub uninterp spec fn parsed_uuid(text: Seq<char>) -> Option<u128>;

/// Calls `uuid::Uuid::parse_str` and takes the identifier's number with
/// `as_u128`. The contract only gives the outcome its name.
#[verifier::external_body]
fn parse_hex(text: &str) -> (r: Option<u128>)
    ensures
        r == parsed_uuid(text@),
{
    ::uuid::Uuid::parse_str(text).ok().map(|id| id.as_u128())
}

/// Formats `uuid::Uuid::from_u128(value)` with `{:x}`, which the crate
/// defines as the hyphenated lower-case form.
#[verifier::external_body]
fn format_hex(value: u128) -> (r: String)
    ensures
        r@ == hyphenated(value),
{
    format!("{:x}", ::uuid::Uuid::from_u128(value))
}

impl Default for Uuid {
    /// The nil identifier, whose bits are all zero.
    fn default() -> (id: Uuid)
        ensures
            id.value == 0,
    {
        Uuid { value: 0 }
    }
}

impl Uuid {
    /// The identifier with the number `value`.
    pub fn from_u128(value: u128) -> (id: Uuid)
        ensures
            id.value == value,
    {
        Uuid { value }
    }

    /// The identifier's number.
    pub fn as_u128(&self) -> (value: u128)
        ensures
            value == self.value,
    {
        self.value
    }

    /// Reads an identifier from its simple, hyphenated or URN form.
    pub fn parse_str(text: &str) -> (r: Option<Uuid>)
        ensures
            r == Uuid::parsed(text@),
    {
        match parse_hex(text) {
            Some(value) => Some(Uuid { value }),
            None => None,
        }
    }

    /// What [`Uuid::parse_str`] gives for `text`.
    pub open spec fn parsed(text: Seq<char>) -> Option<Uuid> {
        match parsed_uuid(text) {
            Some(value) => Some(Uuid { value }),
            None => None,
        }
    }

    /// The hyphenated lower-case form, as it stands in a request path.
    pub fn to_hyphenated(&self) -> (text: String)
        ensures
            text@ == hyphenated(self.value),
            text@.len() == 36,
    {
        format_hex(self.value)
    }
}

} // verus!
