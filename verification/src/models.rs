//! Data models of the service.
//!
//! Each model carries plain values only.  Timestamps are held as seconds
//! since the Unix epoch, so contracts can compare them directly; the
//! unverified shell converts to and from its calendar types at the edge.

pub mod a_matrix_join_model;
pub mod base;
pub mod content_model;
pub mod exercise_preset_model;
pub mod following_model;
pub mod interactions_matrix_model;
pub mod likes_model;
pub mod profile_picture_model;
pub mod seen_posts_model;
pub mod user_model;
