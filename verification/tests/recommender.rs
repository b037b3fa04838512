//! Tests of the recommender: construction, prediction, growth, training.

use flex_forum::errors::RecError;
use flex_forum::fixed::FACTOR_SCALE;
use flex_forum::models::interactions_matrix_model::InteractionsMatrixModel;
use flex_forum::services::ndarray::{load_models, NDArrayAppState};

const SCALE_F: f64 = 10_000.0;

fn row(values: &[i64]) -> Vec<i64> {
    values.to_vec()
}

/// A 2-user, 2-post model with k = 2, all factors 0.1, one observed like
/// at (user 1, post 10), channel 0.
fn small_model(alpha: i64, lambda: i64, epochs: usize) -> NDArrayAppState {
    let f = 1_000i64; // 0.1 at fixed point
    let u = vec![row(&[f, f]), row(&[f, f])];
    let v = vec![row(&[f, f]), row(&[f, f])];
    let mut a = vec![
        vec![vec![0i64, 0], vec![0, 0]],
        vec![vec![0i64, 0], vec![0, 0]],
    ];
    a[0][0][0] = FACTOR_SCALE; // liked = 1 at (u0, p0)
    NDArrayAppState::new_with_factors(
        vec![1, 2],
        vec![10, 20],
        u,
        v,
        a,
        alpha,
        lambda,
        epochs,
        2,
        2,
    )
    .expect("valid parts")
}

#[test]
fn predict_is_dot_product() {
    let m = small_model(500, 1000, 10);
    // dot([0.1, 0.1], [0.1, 0.1]) = 0.02 -> 200 at fixed point
    assert_eq!(m.predict(1, 10), Ok(200));
    assert_eq!(m.predict(2, 20), Ok(200));
    assert_eq!(m.predict(3, 10), Err(RecError::UnknownUser));
    assert_eq!(m.predict(1, 30), Err(RecError::UnknownPost));
}

#[test]
fn predict_is_idempotent() {
    let m = small_model(500, 1000, 10);
    let first = m.predict(1, 10);
    let second = m.predict(1, 10);
    assert_eq!(first, second);
}

#[test]
fn predict_all_keeps_order_and_scores() {
    let m = small_model(500, 1000, 10);
    let posts = vec![20i64, 10];
    let scores = m.predict_all(1, &posts).expect("all known");
    assert_eq!(scores.len(), 2);
    assert_eq!(scores[0].0, 20);
    assert_eq!(scores[1].0, 10);
    assert_eq!(scores[0].1, m.predict(1, 20).unwrap());
    assert_eq!(scores[1].1, m.predict(1, 10).unwrap());
    assert_eq!(m.predict_all(9, &posts), Err(RecError::UnknownUser));
    assert_eq!(m.predict_all(1, &vec![10, 99]), Err(RecError::UnknownPost));
}

#[test]
fn growth_keeps_shapes_and_prior_entries() {
    let mut m = small_model(500, 1000, 10);
    m.record_interaction(2, 20, 1, true).expect("known ids");
    let before = m.interactions_actual.clone();
    m.add_user(3).expect("fresh user");
    m.add_post(30).expect("fresh post");
    assert_eq!(m.user_embeddings.len(), 3);
    assert_eq!(m.post_embeddings.len(), 3);
    assert_eq!(m.interactions_actual.len(), 3);
    for slice in &m.interactions_actual {
        assert_eq!(slice.len(), 3);
        for cell in slice {
            assert_eq!(cell.len(), 2);
        }
    }
    // prior entries unchanged
    for i in 0..2 {
        for j in 0..2 {
            for c in 0..2 {
                assert_eq!(m.interactions_actual[i][j][c], before[i][j][c]);
            }
        }
    }
    // the fresh slices are all zero
    for j in 0..3 {
        for c in 0..2 {
            assert_eq!(m.interactions_actual[2][j][c], 0);
        }
    }
    for i in 0..3 {
        for c in 0..2 {
            assert_eq!(m.interactions_actual[i][2][c], 0);
        }
    }
}

#[test]
fn duplicate_growth_is_refused() {
    let mut m = small_model(500, 1000, 10);
    assert_eq!(m.add_user(1), Err(RecError::DuplicateUser));
    assert_eq!(m.add_post(10), Err(RecError::DuplicatePost));
}

#[test]
fn added_user_predicts_finite_scores() {
    let mut m = small_model(500, 1000, 10);
    assert_eq!(m.n_users(), 2);
    m.add_user(7).expect("fresh user");
    assert_eq!(m.n_users(), 3);
    assert_eq!(m.user_embeddings.len(), 3);
    assert_eq!(m.user_embeddings[2].len(), 2);
    let score = m.predict(7, 10).expect("known pair");
    // the fresh row holds unit-interval draws, so the score is bounded
    assert!(score.abs() <= 2 * FACTOR_SCALE);
}

fn total_squared_error(m: &NDArrayAppState, users: &[i64], posts: &[i64]) -> f64 {
    let mut sse = 0.0;
    for (ui, &uid) in users.iter().enumerate() {
        for (pi, &pid) in posts.iter().enumerate() {
            let pred = m.predict(uid, pid).unwrap() as f64 / SCALE_F;
            for c in 0..m.interactions_actual[ui][pi].len() {
                let a = m.interactions_actual[ui][pi][c] as f64 / SCALE_F;
                sse += (a - pred) * (a - pred);
            }
        }
    }
    sse
}

#[test]
fn training_error_is_non_increasing() {
    // one epoch per call, small alpha
    let mut m = small_model(100, 100, 1);
    let mut last = total_squared_error(&m, &[1, 2], &[10, 20]);
    for _ in 0..5 {
        m.train().expect("training stays in range");
        let next = total_squared_error(&m, &[1, 2], &[10, 20]);
        assert!(next <= last + 1e-6, "error rose from {last} to {next}");
        last = next;
    }
}

#[test]
fn liked_post_ranks_above_unliked() {
    let mut m = small_model(500, 1000, 10);
    m.train().expect("training stays in range");
    let liked = m.predict(1, 10).unwrap();
    let unliked = m.predict(1, 20).unwrap();
    assert!(liked > unliked, "liked {liked} should beat unliked {unliked}");
}

#[test]
fn training_blowup_is_reported_and_state_kept() {
    let lim = 1_000_000_000i64;
    let m = NDArrayAppState::new_with_factors(
        vec![1],
        vec![10],
        vec![row(&[lim])],
        vec![row(&[lim])],
        vec![vec![vec![0i64, 0]]],
        10_000,
        10_000,
        3,
        1,
        2,
    )
    .expect("valid parts");
    let mut m = m;
    let u_before = m.user_embeddings.clone();
    assert_eq!(m.train(), Err(RecError::NumericOverflow));
    assert_eq!(m.user_embeddings, u_before);
}

#[test]
fn new_with_factors_rejects_bad_parts() {
    let f = 1_000i64;
    // duplicate user id
    let r = NDArrayAppState::new_with_factors(
        vec![1, 1],
        vec![10, 20],
        vec![row(&[f, f]), row(&[f, f])],
        vec![row(&[f, f]), row(&[f, f])],
        vec![
            vec![vec![0i64, 0], vec![0, 0]],
            vec![vec![0i64, 0], vec![0, 0]],
        ],
        500,
        1000,
        10,
        2,
        2,
    );
    assert!(matches!(r, Err(RecError::DuplicateUser)));
    // mismatched row length
    let r = NDArrayAppState::new_with_factors(
        vec![1],
        vec![10],
        vec![row(&[f])],
        vec![row(&[f, f])],
        vec![vec![vec![0i64, 0]]],
        500,
        1000,
        10,
        2,
        2,
    );
    assert!(matches!(r, Err(RecError::ShapeMismatch)));
}

#[test]
fn record_interaction_sets_the_cell() {
    let mut m = small_model(500, 1000, 10);
    m.record_interaction(2, 10, 1, true).expect("known ids");
    assert_eq!(m.interactions_actual[1][0][1], FACTOR_SCALE);
    m.record_interaction(2, 10, 1, false).expect("known ids");
    assert_eq!(m.interactions_actual[1][0][1], 0);
    assert_eq!(
        m.record_interaction(9, 10, 0, true),
        Err(RecError::UnknownUser)
    );
    assert_eq!(
        m.record_interaction(1, 10, 5, true),
        Err(RecError::UnknownChannel)
    );
}

#[test]
fn load_models_assigns_first_occurrence_indices() {
    let rows = vec![
        InteractionsMatrixModel {
            user_id: 5,
            post_id: 100,
            is_liked: 1,
            is_following: 0,
            username: "ann".to_string(),
        },
        InteractionsMatrixModel {
            user_id: 6,
            post_id: 100,
            is_liked: 0,
            is_following: 1,
            username: "bob".to_string(),
        },
        InteractionsMatrixModel {
            user_id: 5,
            post_id: 200,
            is_liked: 0,
            is_following: 0,
            username: "ann".to_string(),
        },
    ];
    let m = load_models(&rows, 500, 1000, 10, 4, 2);
    assert_eq!(m.n_users(), 2);
    assert_eq!(m.n_posts(), 2);
    // user 5 -> index 0, user 6 -> index 1; post 100 -> 0, post 200 -> 1
    assert_eq!(m.interactions_actual[0][0][0], FACTOR_SCALE); // (5, 100) liked
    assert_eq!(m.interactions_actual[0][0][1], 0);
    assert_eq!(m.interactions_actual[1][0][1], FACTOR_SCALE); // (6, 100) followed
    assert_eq!(m.interactions_actual[0][1][0], 0); // (5, 200) nothing
    assert_eq!(m.user_embeddings.len(), 2);
    assert_eq!(m.user_embeddings[0].len(), 4);
    for row in &m.user_embeddings {
        for &e in row {
            assert!((0..FACTOR_SCALE).contains(&e));
        }
    }
    // a prediction for loaded ids works
    assert!(m.predict(5, 200).is_ok());
}

#[test]
fn scores_round_toward_zero() {
    // dot([-0.0001], [0.5]) = -0.00005, which truncates to 0
    let m = NDArrayAppState::new_with_factors(
        vec![1],
        vec![10],
        vec![row(&[-1])],
        vec![row(&[5_000])],
        vec![vec![vec![0, 0]]],
        500,
        1000,
        1,
        1,
        2,
    )
    .expect("valid parts");
    assert_eq!(m.predict(1, 10), Ok(0));
    // dot([-3], [0.5]) = -1.5 scaled units, truncating to -1
    let m = NDArrayAppState::new_with_factors(
        vec![1],
        vec![10],
        vec![row(&[-3])],
        vec![row(&[5_000])],
        vec![vec![vec![0, 0]]],
        500,
        1000,
        1,
        1,
        2,
    )
    .expect("valid parts");
    assert_eq!(m.predict(1, 10), Ok(-1));
}

#[test]
fn one_training_epoch_matches_hand_computation() {
    // k = 1, one user, one post, liked on channel 0 only.
    let mut m = NDArrayAppState::new_with_factors(
        vec![1],
        vec![10],
        vec![row(&[1_000])],
        vec![row(&[1_000])],
        vec![vec![vec![FACTOR_SCALE, 0]]],
        500,
        1000,
        1,
        1,
        2,
    )
    .expect("valid parts");
    m.train().expect("stays in range");
    // channel 0: err = 10000 - 100; the user factor moves to 1044, the
    // post factor (reading the updated user factor) to 1046.
    // channel 1: err = -109; both factors drop by 5.
    assert_eq!(m.user_embeddings, vec![vec![1_039]]);
    assert_eq!(m.post_embeddings, vec![vec![1_041]]);
}
