//! Core library of a social-content service built around an in-process
//! matrix-factorization recommender.
//!
//! The recommender keeps two dense factor matrices (users and posts) and an
//! observed-interaction tensor, maps sparse external identifiers to dense
//! row indices, fits the factors by gradient descent over the observed
//! signals, and scores (user, post) pairs by dot product.  All scores and
//! factors are fixed-point numbers over a common scale, so every arithmetic
//! step has an exact mathematical meaning.
//!
//! Around the recommender stand the service's data models, its error
//! taxonomy, credential hashing, token handling and input validation.

pub mod ctx;
pub mod errors;
pub mod fixed;
pub mod hash_scheme;
pub mod hashers;
pub mod indexer;
pub mod jwt;
pub mod middleware;
pub mod models;
pub mod routes;
pub mod services;
pub mod text;
pub mod validation;
pub mod view_models;

use vstd::prelude::*;

verus! {

} // verus!
