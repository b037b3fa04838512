//! Seen-post records: which posts a user was already shown.

use vstd::prelude::*;

use crate::models::base::DbBmc;

verus! {

/// A stored seen-post row.
#[derive(Debug, Clone, PartialEq, Eq)]
pub struct SeenPostsModel {
    pub id: i64,
    pub post_id: i64,
    pub username: String,
}

impl DbBmc for SeenPostsModel {
    fn table() -> &'static str {
        "post_management.seen_posts"
    }
}

/// The fields of a seen-post row to be created.
#[derive(Debug, Clone, PartialEq, Eq)]
pub struct SeenPostCreateModel {
    pub post_id: i64,
    pub username: String,
}

} // verus!
