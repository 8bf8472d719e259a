//! Identifiers of projects, services and deployments.

use vstd::prelude::*;
use vstd::utf8::encode_utf8;

verus! {

/// Why a text is no identifier.
#[derive(Debug, Clone, Copy, PartialEq, Eq, Structural)]
pub enum DecodeError {
    /// It has the wrong length.
    InvalidLength,
    /// A character of it is no digit of an identifier.
    InvalidChar,
}

/// What `ulid::Ulid::from_string` makes of a text.
pub uninterp spec fn ulid_from_string(s: Seq<char>) -> Result<u128, DecodeError>;

/// The number that a ULID stands for, by `ulid::Ulid::from_string`, which depends on the text
/// alone. A text is refused for its length exactly if it has not 26 bytes; what the digits are
/// and how they make up the number is left to that function.
#[verifier::external_body]
pub(crate) fn parse_ulid(s: &str) -> (r: Result<u128, DecodeError>)
    ensures
        r == ulid_from_string(s@),
        (r matches Err(DecodeError::InvalidLength)) == (encode_utf8(s@).len() != 26),
{
    match ulid::Ulid::from_string(s) {
        Ok(id) => Ok(id.0),
        Err(ulid::DecodeError::InvalidLength) => Err(DecodeError::InvalidLength),
        Err(ulid::DecodeError::InvalidChar) => Err(DecodeError::InvalidChar),
    }
}

} // verus!
