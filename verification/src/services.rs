//! The service layer: the recommender model and the computations behind
//! the request handlers.

pub mod auth;
pub mod hash_services;
pub mod multipart;
pub mod ndarray;
pub mod posts;
pub mod s3;
