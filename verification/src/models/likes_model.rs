//! Like records.

use vstd::prelude::*;

use crate::models::base::DbBmc;

verus! {

/// A stored like row.
#[derive(Debug, Clone, PartialEq, Eq)]
pub struct LikesModel {
    pub id: i64,
    pub post_id: i64,
    pub username: String,
}

impl DbBmc for LikesModel {
    fn table() -> &'static str {
        "post_management.likes"
    }
}

/// The fields of a like to be created or deleted.
#[derive(Debug, Clone, PartialEq, Eq)]
pub struct LikePost {
    pub post_id: i64,
    pub username: String,
}

} // verus!
