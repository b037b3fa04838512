//! An earlier login/signup route group that keeps its own request
//! shapes: signup leads with the name fields, and login uses wider
//! bounds than the current group.

use vstd::prelude::*;

use crate::errors::RouteError;
use crate::validation::check_length;
use crate::validation::check_username_matches;
use crate::validation::username_matches;

verus! {

/// The legacy login/signup route group.
pub struct LoginSignupRoute;

impl LoginSignupRoute {
    /// Where the group is mounted.
    pub fn path() -> (r: &'static str)
        ensures
            r@ == "/users"@,
    {
        "/users"
    }
}

/// The legacy signup request body.
#[derive(Debug, Clone, PartialEq, Eq)]
pub struct SignUpModel {
    pub first_name: String,
    pub last_name: String,
    pub email: String,
    pub username: String,
    pub password: String,
}

/// The legacy login request body.
#[derive(Debug, Clone, PartialEq, Eq)]
pub struct LoginModel {
    pub username: String,
    pub password: String,
}

/// The rules the legacy login body must meet.
pub open spec fn login_valid(m: &LoginModel) -> bool {
    &&& 1 <= m.username@.len() <= 32
    &&& username_matches(m.username@)
    &&& 1 <= m.password@.len() <= 32
}

/// Accepts a legacy login body exactly when its rules hold.
pub fn validate_login(m: &LoginModel) -> (r: Result<(), RouteError>)
    ensures
        r is Ok <==> login_valid(m),
        r matches Err(e) ==> e matches RouteError::Validation(_),
{
    if !check_length(m.username.as_str(), 1, 32) || !check_username_matches(m.username.as_str()) {
        return Err(RouteError::Validation("Invalid username length".to_owned()));
    }
    if !check_length(m.password.as_str(), 1, 32) {
        return Err(RouteError::Validation("Invalid password length".to_owned()));
    }
    Ok(())
}

} // verus!
