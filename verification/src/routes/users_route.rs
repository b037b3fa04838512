//! The user route group: profile reads, listings, deletion and follows.

use vstd::prelude::*;

verus! {

/// The user route group.
pub struct UserRoute;

impl UserRoute {
    /// Where the group is mounted.
    pub fn path() -> (r: &'static str)
        ensures
            r@ == "/users"@,
    {
        "/users"
    }
}

/// The public projection of a user, as the route returns it.
#[derive(Debug, Clone, PartialEq, Eq)]
pub struct ReadUserModel {
    pub username: String,
    pub first_name: String,
    pub last_name: String,
}

/// The fields of a follow edge to be created.
#[derive(Debug, Clone, PartialEq, Eq)]
pub struct FollowingCreateModel {
    pub follower: String,
    pub following: String,
}

/// Builds the follow edge a follow request creates: the caller follows
/// the named user.
pub fn build_follow(follower: String, following: String) -> (r: FollowingCreateModel)
    ensures
        r.follower == follower,
        r.following == following,
{
    FollowingCreateModel { follower, following }
}

} // verus!
