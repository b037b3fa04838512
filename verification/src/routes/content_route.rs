//! The content route group: uploads, downloads, feeds and likes.

use vstd::prelude::*;

use crate::errors::RouteError;
use crate::models::content_model::CreatePostModel;
use crate::models::content_model::PostType;
use crate::validation::check_length;

verus! {

/// The content route group.
pub struct ContentRoute;

impl ContentRoute {
    /// Where the group is mounted.
    pub fn path() -> (r: &'static str)
        ensures
            r@ == "/content"@,
    {
        "/content"
    }
}

/// The content types an image upload may declare.
pub fn image_content_types() -> (r: Vec<&'static str>)
    ensures
        r@.len() == 2,
        r@[0]@ == "image/jpeg"@,
        r@[1]@ == "image/jpg"@,
{
    let mut v: Vec<&'static str> = Vec::new();
    v.push("image/jpeg");
    v.push("image/jpg");
    v
}

/// The content type a workout document is stored under.
pub fn json_content_type() -> (r: &'static str)
    ensures
        r@ == "application/json"@,
{
    "application/json"
}

/// How many images an image upload carries: the first is mandatory, the
/// second and third optional.
pub fn image_count(has_image2: bool, has_image3: bool) -> (r: i16)
    ensures
        r == 1 + (if has_image2 {
            1int
        } else {
            0int
        }) + (if has_image3 {
            1int
        } else {
            0int
        }),
{
    let mut counter: i16 = 1;
    if has_image2 {
        counter = counter + 1;
    }
    if has_image3 {
        counter = counter + 1;
    }
    counter
}

/// Assembles the storage model for a new post.
pub fn build_create_post(
    username: String,
    num_images: i16,
    description: Option<String>,
    post_type: PostType,
) -> (r: CreatePostModel)
    ensures
        r.username == username,
        r.num_images == num_images,
        r.description == description,
        r.post_type == post_type,
{
    CreatePostModel { username, num_images, description, post_type }
}

/// One exercise of a workout.
#[derive(Debug, Clone, PartialEq, Eq)]
pub struct Exercise {
    pub preset_id: i64,
    pub num_sets: i32,
    pub num_reps: i32,
    pub timer: Option<u32>,
}

/// A named list of exercises.
#[derive(Debug, Clone, PartialEq, Eq)]
pub struct Workout {
    pub workout_name: String,
    pub exercises: Vec<Exercise>,
}

/// A workout upload: the workout and an optional description.
#[derive(Debug, Clone, PartialEq, Eq)]
pub struct UploadWorkout {
    pub workout: Workout,
    pub description: Option<String>,
}

/// The rules a workout must meet: a name of 1 to 64 characters and 1 to
/// 20 exercises.
pub open spec fn workout_valid(w: &Workout) -> bool {
    &&& 1 <= w.workout_name@.len() <= 64
    &&& 1 <= w.exercises@.len() <= 20
}

/// The rules a workout upload must meet: a valid workout and a
/// description of at most 1000 characters.
pub open spec fn upload_workout_valid(u: &UploadWorkout) -> bool {
    &&& workout_valid(&u.workout)
    &&& (match u.description {
        Option::Some(d) => d@.len() <= 1000,
        Option::None => true,
    })
}

/// Accepts a workout exactly when its rules hold.
pub fn validate_workout(w: &Workout) -> (r: Result<(), RouteError>)
    ensures
        r is Ok <==> workout_valid(w),
        r matches Err(e) ==> e matches RouteError::Validation(_),
{
    if !check_length(w.workout_name.as_str(), 1, 64) {
        return Err(RouteError::Validation("Invalid workout name length".to_owned()));
    }
    let n = w.exercises.len();
    if n < 1 || n > 20 {
        return Err(RouteError::Validation("Invalid exercise count".to_owned()));
    }
    Ok(())
}

/// Accepts a workout upload exactly when its rules hold.
pub fn validate_upload_workout(u: &UploadWorkout) -> (r: Result<(), RouteError>)
    ensures
        r is Ok <==> upload_workout_valid(u),
        r matches Err(e) ==> e matches RouteError::Validation(_),
{
    match validate_workout(&u.workout) {
        Ok(()) => {},
        Err(e) => {
            return Err(e);
        },
    }
    match &u.description {
        Option::Some(d) => {
            if !check_length(d.as_str(), 0, 1000) {
                return Err(RouteError::Validation("Invalid description length".to_owned()));
            }
        },
        Option::None => {},
    }
    Ok(())
}

} // verus!
