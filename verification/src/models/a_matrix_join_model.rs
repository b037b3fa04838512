//! A post as it appears on a feed card: like and follow flags joined in.

use vstd::prelude::*;

verus! {

/// One feed row: a post id with the caller's like/follow state and the
/// comment count.
#[derive(Debug, Clone, PartialEq, Eq)]
pub struct LikesModel {
    pub post_id: i64,
    pub username: String,
    pub is_liked: bool,
    pub is_following: bool,
    pub num_comments: u32,
}

} // verus!
