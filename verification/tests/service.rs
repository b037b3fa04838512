//! Tests of the service helpers: keys, buckets, ranking, validation and
//! the error taxonomy.

use flex_forum::errors::{Error, LibMultipartError, RouteError};
use flex_forum::hash_scheme::{HashScheme, HashSchemeVisitor};
use flex_forum::indexer::IdIndexer;
use flex_forum::models::base::clamp_limit;
use flex_forum::models::user_model::which_taken;
use flex_forum::models::content_model::{ContentModel, PostType};
use flex_forum::routes::auth_route::AuthRoute;
use flex_forum::routes::content_route::{
    image_content_types, image_count, validate_upload_workout, validate_workout, ContentRoute,
    Exercise, UploadWorkout, Workout,
};
use flex_forum::routes::exercise_preset_route::ExercisePresetRoute;
use flex_forum::routes::hello_world::{hello_world, HelloWorldRoute};
use flex_forum::routes::users_route::UserRoute;
use flex_forum::services::multipart::validate_content_type;
use flex_forum::services::ndarray::NDArrayAppState;
use flex_forum::services::posts::sort_by_predicted;
use flex_forum::services::s3::{bucket_of_post_type, keys_to_delete, user_post_bucket_key, FlexForumBucket};

#[test]
fn bucket_keys_render_decimals() {
    assert_eq!(user_post_bucket_key("ann", 42, 3), "ann/42/3");
    assert_eq!(user_post_bucket_key("bob", 0, 0), "bob/0/0");
    assert_eq!(user_post_bucket_key("kim", -7, 10), "kim/-7/10");
    assert_eq!(
        user_post_bucket_key("max", i64::MIN, 1),
        format!("max/{}/1", i64::MIN)
    );
}

#[test]
fn buckets_follow_post_type() {
    assert_eq!(
        bucket_of_post_type(&PostType::Images),
        FlexForumBucket::ImageBucket1
    );
    assert_eq!(
        bucket_of_post_type(&PostType::Workout),
        FlexForumBucket::WorkoutBucket1
    );
    assert_eq!(FlexForumBucket::ImageBucket1.name(), "flexforumimages1");
    assert_eq!(FlexForumBucket::WorkoutBucket1.name(), "flexforumworkouts1");
}

#[test]
fn post_type_names_round_trip() {
    assert_eq!(PostType::Images.name(), "images");
    assert_eq!(PostType::from_name("workout"), Some(PostType::Workout));
    assert_eq!(PostType::from_name("images"), Some(PostType::Images));
    assert_eq!(PostType::from_name("video"), None);
}

#[test]
fn hash_scheme_names_round_trip() {
    assert_eq!(HashScheme::Argon2V01.name(), "argon2_v01");
    assert_eq!(
        HashScheme::from_name("argon2_v02"),
        Some(HashScheme::Argon2V02)
    );
    assert_eq!(HashScheme::from_name("argon2"), None);
}

#[test]
fn content_type_validation() {
    let allowed = image_content_types();
    let jpeg = "image/jpeg".to_string();
    let name = "image1".to_string();
    assert!(validate_content_type(Some(&jpeg), Some(&name), &allowed).is_ok());
    let png = "image/png".to_string();
    let r = validate_content_type(Some(&png), Some(&name), &allowed);
    match r {
        Err(RouteError::LibMultipartError(LibMultipartError::InvalidContentType(n))) => {
            assert_eq!(n, "image1");
        }
        other => panic!("unexpected: {other:?}"),
    }
    assert!(validate_content_type(None, None, &allowed).is_err());
}

#[test]
fn workout_validation_bounds() {
    let exercise = Exercise {
        preset_id: 1,
        num_sets: 3,
        num_reps: 10,
        timer: None,
    };
    let good = Workout {
        workout_name: "push day".to_string(),
        exercises: vec![exercise.clone()],
    };
    assert!(validate_workout(&good).is_ok());
    let empty = Workout {
        workout_name: "push day".to_string(),
        exercises: vec![],
    };
    assert!(validate_workout(&empty).is_err());
    let upload = UploadWorkout {
        workout: good,
        description: Some("d".repeat(1000)),
    };
    assert!(validate_upload_workout(&upload).is_ok());
    let upload = UploadWorkout {
        workout: Workout {
            workout_name: "push day".to_string(),
            exercises: vec![exercise],
        },
        description: Some("d".repeat(1001)),
    };
    assert!(validate_upload_workout(&upload).is_err());
}

#[test]
fn image_counts() {
    assert_eq!(image_count(false, false), 1);
    assert_eq!(image_count(true, false), 2);
    assert_eq!(image_count(true, true), 3);
}

#[test]
fn status_codes_follow_the_taxonomy() {
    assert_eq!(RouteError::LoginFail.status_code(), 401);
    assert_eq!(RouteError::AlreadyTaken("x".to_string()).status_code(), 409);
    assert_eq!(
        RouteError::Validation("bad".to_string()).status_code(),
        400
    );
    assert_eq!(RouteError::Unknown.status_code(), 500);
    assert_eq!(Error::LoginFail.status_code(), 401);
    assert_eq!(Error::InvalidAuth.status_code(), 403);
}

#[test]
fn indexer_assigns_contiguous_indices() {
    let mut ix = IdIndexer::new();
    assert_eq!(ix.len(), 0);
    assert!(!ix.contains(5));
    assert_eq!(ix.insert(5), 0);
    assert_eq!(ix.insert(9), 1);
    assert!(ix.contains(5));
    assert_eq!(ix.index_of(5), Some(0));
    assert_eq!(ix.index_of(9), Some(1));
    assert_eq!(ix.index_of(7), None);
}

#[test]
fn limits_are_clamped() {
    assert_eq!(clamp_limit(-5), 0);
    assert_eq!(clamp_limit(10), 10);
    assert_eq!(clamp_limit(100), 64);
}

#[test]
fn route_paths() {
    assert_eq!(AuthRoute::path(), "/users");
    assert_eq!(UserRoute::path(), "/users");
    assert_eq!(ContentRoute::path(), "/content");
    assert_eq!(ExercisePresetRoute::path(), "/exercise-presets");
    assert_eq!(HelloWorldRoute::path(), "/helloworld");
    assert_eq!(hello_world(), "hello world!!1!");
}

fn post(id: i64) -> ContentModel {
    ContentModel {
        id,
        username: "ann".to_string(),
        num_images: 1,
        post_type: PostType::Images,
        description: None,
        created_at: 0,
        deactivated_at: None,
    }
}

#[test]
fn feed_is_sorted_by_predicted_score() {
    // k = 1; user factor 1.0; post factors 0.1, 0.5, 0.9
    let m = NDArrayAppState::new_with_factors(
        vec![1],
        vec![10, 20, 30],
        vec![vec![10_000]],
        vec![vec![1_000], vec![5_000], vec![9_000]],
        vec![vec![vec![0, 0], vec![0, 0], vec![0, 0]]],
        500,
        1000,
        1,
        1,
        2,
    )
    .expect("valid parts");
    let mut posts = vec![post(10), post(30), post(20)];
    sort_by_predicted(&mut posts, &m, 3, 1).expect("all ids known");
    let ids: Vec<i64> = posts.iter().map(|p| p.id).collect();
    assert_eq!(ids, vec![30, 20, 10]);
    // truncation keeps the best
    let mut posts = vec![post(10), post(30), post(20)];
    sort_by_predicted(&mut posts, &m, 2, 1).expect("all ids known");
    let ids: Vec<i64> = posts.iter().map(|p| p.id).collect();
    assert_eq!(ids, vec![30, 20]);
    // an unknown id leaves the input untouched
    let mut posts = vec![post(10), post(99)];
    assert!(sort_by_predicted(&mut posts, &m, 2, 1).is_err());
    let ids: Vec<i64> = posts.iter().map(|p| p.id).collect();
    assert_eq!(ids, vec![10, 99]);
}

#[test]
fn error_messages() {
    assert_eq!(
        RouteError::AlreadyTaken("ann".to_string()).message(),
        "ann already taken"
    );
    assert_eq!(RouteError::ExpiredAuthToken.message(), "Auth token expired");
    assert_eq!(RouteError::Unauthorized.message(), "");
    assert_eq!(RouteError::Unknown.message(), "Internal error");
    assert_eq!(
        RouteError::Validation("too short".to_string()).message(),
        "too short"
    );
    assert_eq!(
        RouteError::LibMultipartError(LibMultipartError::InvalidContentType(
            "image1".to_string()
        ))
        .message(),
        "InvalidContentType(\"image1\")"
    );
}

#[test]
fn taken_identifier_decision() {
    let row = Some(("a@b.c".to_string(), "ann".to_string()));
    assert_eq!(
        which_taken(&row, "zoe", "a@b.c"),
        Some("a@b.c".to_string())
    );
    assert_eq!(which_taken(&row, "ann", "x@y.z"), Some("ann".to_string()));
    assert_eq!(which_taken(&row, "zoe", "x@y.z"), None);
    assert_eq!(which_taken(&None, "ann", "a@b.c"), None);
}

#[test]
fn scheme_visitor_folds_case() {
    assert_eq!(
        HashSchemeVisitor::visit_str("ARGON2_V01"),
        Some(HashScheme::Argon2V01)
    );
    assert_eq!(
        HashSchemeVisitor::visit_str("argon2_v02"),
        Some(HashScheme::Argon2V02)
    );
    assert_eq!(HashSchemeVisitor::visit_str("bcrypt"), None);
}

#[test]
fn failed_upload_cleanup_lists_written_keys() {
    let keys = keys_to_delete("ann", 42, 2);
    assert_eq!(keys, vec!["ann/42/1".to_string(), "ann/42/2".to_string()]);
    assert!(keys_to_delete("ann", 42, 0).is_empty());
}
