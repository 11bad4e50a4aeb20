//! Identifiers of tracked repositories: 128-bit values that are written as
//! UUID text in stored rows.

use vstd::prelude::*;

verus! {

/// The error that `uuid` reports for text that is no UUID.
#[verifier::external_type_specification]
#[verifier::external_body]
pub struct ExUuidError(uuid::Error);

/// The value that `uuid::Uuid::parse_str` reads from `text`, as
/// `Uuid::as_u128` gives it, or `None` where it rejects the text.
pub uninterp spec fn uuid_value(text: Seq<char>) -> Option<u128>;

/// Reads an identifier with `uuid::Uuid::parse_str`: the result is the
/// parsed value where the text is accepted and the crate's error where it is
/// not. Which texts are accepted is left to the crate.
#[verifier::external_body]
fn parse_uuid(text: &str) -> (r: Result<u128, uuid::Error>)
    ensures
        match r {
            Ok(value) => uuid_value(text@) == Some(value),
            Err(_) => uuid_value(text@) is None,
        },
{
    match uuid::Uuid::parse_str(text) {
        Ok(id) => Ok(id.as_u128()),
        Err(e) => Err(e),
    }
}

/// A new identifier from `uuid::Uuid::now_v7`, which draws on the clock and
/// on random bits: nothing is promised of the value. The clock must not
/// stand before the Unix epoch, and the system must hand out random bytes:
/// `uuid` accepts neither failure.
#[verifier::external_body]
pub(crate) fn new_id() -> (id: u128) {
    uuid::Uuid::now_v7().as_u128()
}

/// Why a stored row could not be read.
#[derive(Debug, Clone, Copy, PartialEq, Eq, Structural)]
pub enum RowError {
    /// The id column does not hold a UUID.
    InvalidId,
}

/// The identifier written in `text`, or the error for text that is no UUID.
pub fn parse_id(text: &str) -> (r: Result<u128, RowError>)
    ensures
        match r {
            Ok(id) => uuid_value(text@) == Some(id),
            Err(e) => uuid_value(text@) is None && e == RowError::InvalidId,
        },
{
    match parse_uuid(text) {
        Ok(id) => Ok(id),
        Err(_) => Err(RowError::InvalidId),
    }
}

} // verus!
