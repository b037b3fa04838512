//! Profile picture records.

use vstd::prelude::*;

use crate::models::base::DbBmc;

verus! {

/// A stored profile-picture row.
#[derive(Debug, Clone, PartialEq, Eq)]
pub struct ProfilePictureModel {
    pub id: i64,
    pub username: String,
}

impl DbBmc for ProfilePictureModel {
    fn table() -> &'static str {
        "user_management.profile_pictures"
    }
}

} // verus!
