//! Subscriptions: which chats want to hear of which repository.

use crate::ids::{parse_id, uuid_value, RowError};
use crate::time::Timestamp;
use vstd::prelude::*;

verus! {

/// One chat's subscription to one repository.
#[derive(Debug, Clone, Copy, PartialEq, Eq, Structural)]
pub struct Subscription {
    pub tracked_repository_id: u128,
    pub chat_id: i64,
    pub created_at: Timestamp,
}

impl Subscription {
    /// The subscription that a stored row holds. The id column must hold a
    /// UUID.
    pub fn from_columns(tracked_repository_id: &str, chat_id: i64, created_at: Timestamp) -> (r:
        Result<Self, RowError>)
        ensures
            match r {
                Ok(row) => uuid_value(tracked_repository_id@) == Some(row.tracked_repository_id)
                    && row.chat_id == chat_id && row.created_at == created_at,
                Err(e) => uuid_value(tracked_repository_id@) is None && e == RowError::InvalidId,
            },
    {
        match parse_id(tracked_repository_id) {
            Ok(id) => Ok(Subscription { tracked_repository_id: id, chat_id, created_at }),
            Err(e) => Err(e),
        }
    }
}

} // verus!
