//! The email-based login request shape.

use vstd::prelude::*;

use crate::errors::RouteError;
use crate::validation::check_length;

verus! {

/// A login request by email and password.
#[derive(Debug, Clone, PartialEq, Eq)]
pub struct LoginModel {
    pub email: String,
    pub password: String,
}

/// The rules this login body must meet.
pub open spec fn login_valid(m: &LoginModel) -> bool {
    &&& 1 <= m.email@.len() <= 32
    &&& 1 <= m.password@.len() <= 32
}

/// Accepts a login body exactly when its rules hold.
pub fn validate_login(m: &LoginModel) -> (r: Result<(), RouteError>)
    ensures
        r is Ok <==> login_valid(m),
        r matches Err(e) ==> e matches RouteError::Validation(_),
{
    if !check_length(m.email.as_str(), 1, 32) {
        return Err(RouteError::Validation("Invalid username length".to_owned()));
    }
    if !check_length(m.password.as_str(), 1, 32) {
        return Err(RouteError::Validation("Invalid password length".to_owned()));
    }
    Ok(())
}

} // verus!
