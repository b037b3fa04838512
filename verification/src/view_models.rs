//! Request and response shapes of the earliest user routes.

pub mod login_view_models;
pub mod user_view_models;
