//! Users: one row per identity that has ever written.

use vstd::prelude::*;
use crate::clock::current_time;

verus! {

/// A user row. Timestamps are microseconds since the Unix epoch.
#[derive(Clone, Copy, Debug, PartialEq, Eq)]
pub struct Model {
    pub user_id: u128,
    /// Sum of the sizes of every retained version; kept by the store itself.
    pub total_space_used: i64,
    pub updated_at: i64,
    pub last_auto_sync_at: Option<i64>,
}

/// A user row that is about to be written.
#[derive(Clone, Copy, Debug, PartialEq, Eq)]
pub struct ActiveModel {
    pub row: Model,
}

/// The row of a user written at `now`.
pub open spec fn new_user(user_id: u128, total_space_used: i64, now: i64) -> Model {
    Model { user_id, total_space_used, updated_at: now, last_auto_sync_at: None }
}

impl ActiveModel {
    /// A user row stamped with `now`.
    pub fn stamped(user_id: u128, total_space_used: i64, now: i64) -> (m: ActiveModel)
        ensures
            m.row == new_user(user_id, total_space_used, now),
    {
        ActiveModel {
            row: Model { user_id, total_space_used, updated_at: now, last_auto_sync_at: None },
        }
    }

    /// A user row stamped with the current time.
    pub fn new(user_id: u128, total_space_used: i64) -> (m: ActiveModel)
        ensures
            m.row == new_user(user_id, total_space_used, m.row.updated_at),
    {
        ActiveModel::stamped(user_id, total_space_used, current_time())
    }
}

} // verus!
