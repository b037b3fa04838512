//! Follow records.

use vstd::prelude::*;

use crate::models::base::DbBmc;

verus! {

/// A stored follow edge: `follower` follows `following`.
#[derive(Debug, Clone, PartialEq, Eq)]
pub struct FollowingModel {
    pub id: i64,
    pub follower: String,
    pub following: String,
}

impl DbBmc for FollowingModel {
    fn table() -> &'static str {
        "user_management.following"
    }
}

} // verus!
