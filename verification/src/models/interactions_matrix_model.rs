//! One row of the boot-time interaction snapshot: a (user, post) pair with
//! its two binary signals.

use vstd::prelude::*;

verus! {

/// A row of the user x post cross product with left-joined signals.
/// The signal columns hold 0 or 1.
#[derive(Debug, Clone, PartialEq, Eq)]
pub struct InteractionsMatrixModel {
    pub user_id: i64,
    pub post_id: i64,
    pub is_liked: i32,
    pub is_following: i32,
    pub username: String,
}

impl InteractionsMatrixModel {
    /// Both signal columns are binary.
    pub open spec fn binary_signals(&self) -> bool {
        (self.is_liked == 0 || self.is_liked == 1) && (self.is_following == 0
            || self.is_following == 1)
    }
}

} // verus!
