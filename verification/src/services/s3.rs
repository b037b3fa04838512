//! Object-store naming: buckets and the keys posts are stored under.

use vstd::prelude::*;

use crate::models::content_model::PostType;
use crate::text::dec_str;
use crate::text::dec_str_i64;
use crate::text::push_dec_i64;
use crate::text::push_dec_u64;
use vstd::string::StringExecFns;

verus! {

/// The buckets the service stores objects in.
#[derive(Debug, Clone, Copy, PartialEq, Eq)]
pub enum FlexForumBucket {
    ImageBucket1,
    WorkoutBucket1,
}

impl FlexForumBucket {
    /// The bucket's name in the object store.
    pub open spec fn spec_name(&self) -> Seq<char> {
        match self {
            FlexForumBucket::ImageBucket1 => "flexforumimages1"@,
            FlexForumBucket::WorkoutBucket1 => "flexforumworkouts1"@,
        }
    }

    pub fn name(&self) -> (r: &'static str)
        ensures
            r@ == self.spec_name(),
    {
        match self {
            FlexForumBucket::ImageBucket1 => "flexforumimages1",
            FlexForumBucket::WorkoutBucket1 => "flexforumworkouts1",
        }
    }
}

/// The bucket a post of the given type is stored in.
pub fn bucket_of_post_type(post_type: &PostType) -> (r: FlexForumBucket)
    ensures
        r == (match post_type {
            PostType::Images => FlexForumBucket::ImageBucket1,
            PostType::Workout => FlexForumBucket::WorkoutBucket1,
        }),
{
    match post_type {
        PostType::Images => FlexForumBucket::ImageBucket1,
        PostType::Workout => FlexForumBucket::WorkoutBucket1,
    }
}

/// The key of one piece of a post's content:
/// `username/post_id/img_num`, both numbers in decimal.
pub open spec fn spec_user_post_bucket_key(username: Seq<char>, post_id: int, img_num: nat) -> Seq<
    char,
> {
    username + seq!['/'] + dec_str_i64(post_id) + seq!['/'] + dec_str(img_num)
}

/// Builds the object key a piece of post content is stored under.
pub fn user_post_bucket_key(username: &str, post_id: i64, img_num: usize) -> (r: String)
    ensures
        r@ == spec_user_post_bucket_key(username@, post_id as int, img_num as nat),
{
    let mut key = username.to_owned();
    proof {
        reveal_strlit("/");
    }
    key.append("/");
    push_dec_i64(&mut key, post_id);
    key.append("/");
    push_dec_u64(&mut key, img_num as u64);
    proof {
        assert(key@ =~= spec_user_post_bucket_key(username@, post_id as int, img_num as nat));
    }
    key
}

/// The keys already written when a multi-image upload fails part way:
/// content numbers start at 1, so after `uploaded` successful pieces the
/// keys `1 ..= uploaded` must be deleted to undo the post.
pub fn keys_to_delete(username: &str, post_id: i64, uploaded: usize) -> (r: Vec<String>)
    requires
        uploaded < usize::MAX,
    ensures
        r@.len() == uploaded,
        forall|i: int|
            0 <= i < uploaded ==> (#[trigger] r@[i])@ == spec_user_post_bucket_key(
                username@,
                post_id as int,
                (i + 1) as nat,
            ),
{
    let mut keys: Vec<String> = Vec::new();
    let mut i: usize = 0;
    while i < uploaded
        invariant
            0 <= i <= uploaded,
            uploaded < usize::MAX,
            keys@.len() == i,
            forall|j: int|
                0 <= j < i ==> (#[trigger] keys@[j])@ == spec_user_post_bucket_key(
                    username@,
                    post_id as int,
                    (j + 1) as nat,
                ),
        decreases uploaded - i,
    {
        keys.push(user_post_bucket_key(username, post_id, i + 1));
        i = i + 1;
    }
    keys
}

} // verus!
