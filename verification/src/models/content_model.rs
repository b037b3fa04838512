//! Post content models.

use vstd::prelude::*;

use crate::models::base::DbBmc;
use crate::text::str_eq;

verus! {

/// The kind of a post.
#[derive(Debug, Clone, PartialEq, Eq)]
pub enum PostType {
    Images,
    Workout,
}

impl PostType {
    /// The wire name of the post type.
    pub open spec fn spec_name(&self) -> Seq<char> {
        match self {
            PostType::Images => "images"@,
            PostType::Workout => "workout"@,
        }
    }

    pub fn name(&self) -> (r: &'static str)
        ensures
            r@ == self.spec_name(),
    {
        match self {
            PostType::Images => "images",
            PostType::Workout => "workout",
        }
    }

    /// Parses a wire name back into a post type: the exact inverse of
    /// [`PostType::name`] on the two valid names, `None` elsewhere.
    pub fn from_name(s: &str) -> (r: Option<PostType>)
        ensures
            s@ == "images"@ ==> r == Some(PostType::Images),
            s@ == "workout"@ ==> r == Some(PostType::Workout),
            s@ != "images"@ && s@ != "workout"@ ==> r is None,
    {
        proof {
            reveal_strlit("images");
            reveal_strlit("workout");
            assert("images"@.len() == 6);
            assert("workout"@.len() == 7);
            assert("images"@ != "workout"@);
        }
        if str_eq(s, "images") {
            Some(PostType::Images)
        } else if str_eq(s, "workout") {
            Some(PostType::Workout)
        } else {
            None
        }
    }
}

/// A stored post; `created_at` and `deactivated_at` are seconds since the
/// Unix epoch.
#[derive(Debug, Clone, PartialEq, Eq)]
pub struct ContentModel {
    pub id: i64,
    pub username: String,
    pub num_images: i16,
    pub post_type: PostType,
    pub description: Option<String>,
    pub created_at: i64,
    pub deactivated_at: Option<i64>,
}

impl DbBmc for ContentModel {
    fn table() -> &'static str {
        "post_management.posts"
    }
}

/// The fields of a post to be created.
#[derive(Debug, Clone, PartialEq, Eq)]
pub struct CreatePostModel {
    pub username: String,
    pub num_images: i16,
    pub description: Option<String>,
    pub post_type: PostType,
}

} // verus!
