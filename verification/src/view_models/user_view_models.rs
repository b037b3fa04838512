//! The user creation and read shapes of the earliest user routes.

use vstd::prelude::*;

use crate::errors::RouteError;
use crate::validation::check_length;
use crate::validation::check_name_matches;
use crate::validation::email_valid_of;
use crate::validation::name_matches;
use crate::validation::validate_email;

verus! {

/// The request body for creating a user.
#[derive(Debug, Clone, PartialEq, Eq)]
pub struct CreateUserViewModel {
    pub first_name: String,
    pub last_name: String,
    pub email: String,
    pub username: String,
    pub password: String,
}

/// The rules a user creation body must meet.
pub open spec fn create_user_valid(m: &CreateUserViewModel) -> bool {
    &&& 1 <= m.first_name@.len() <= 32
    &&& name_matches(m.first_name@)
    &&& 1 <= m.last_name@.len() <= 32
    &&& name_matches(m.last_name@)
    &&& email_valid_of(m.email@)
    &&& 1 <= m.email@.len() <= 255
    &&& 1 <= m.username@.len() <= 32
    &&& 1 <= m.password@.len() <= 64
}

/// Accepts a user creation body exactly when every rule holds.
pub fn validate_create_user(m: &CreateUserViewModel) -> (r: Result<(), RouteError>)
    ensures
        r is Ok <==> create_user_valid(m),
        r matches Err(e) ==> e matches RouteError::Validation(_),
{
    if !check_length(m.first_name.as_str(), 1, 32) || !check_name_matches(m.first_name.as_str()) {
        return Err(RouteError::Validation("Invalid first name".to_owned()));
    }
    if !check_length(m.last_name.as_str(), 1, 32) || !check_name_matches(m.last_name.as_str()) {
        return Err(RouteError::Validation("Invalid last name".to_owned()));
    }
    if !validate_email(m.email.as_str()) || !check_length(m.email.as_str(), 1, 255) {
        return Err(RouteError::Validation("Invalid email".to_owned()));
    }
    if !check_length(m.username.as_str(), 1, 32) {
        return Err(RouteError::Validation("Invalid username".to_owned()));
    }
    if !check_length(m.password.as_str(), 1, 64) {
        return Err(RouteError::Validation("Invalid password".to_owned()));
    }
    Ok(())
}

/// The request body of the earliest user route, password included.
#[derive(Debug, Clone, PartialEq, Eq)]
pub struct UserViewModel {
    pub first_name: String,
    pub last_name: String,
    pub email: String,
    pub username: String,
    pub password: String,
}

} // verus!
