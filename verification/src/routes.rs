//! The route layer's data models and decision logic.
//!
//! The web framework, cookies and database stay in the unverified shell;
//! what stands here is everything the handlers decide: validation,
//! normalization, credential checks and model assembly.

pub mod auth_route;
pub mod content_route;
pub mod exercise_preset_route;
pub mod hello_world;
pub mod login_signup_route;
pub mod users_route;
