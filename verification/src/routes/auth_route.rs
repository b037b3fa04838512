//! Signup and login: the decisions behind the two auth handlers.

use vstd::prelude::*;

use crate::errors::Argon2ErrorKind;
use crate::errors::HashError;
use crate::errors::RouteError;
use crate::hash_scheme::HashScheme;
use crate::hashers::scheme_verify_spec;
use crate::hashers::verify_with_scheme;
use crate::models::user_model::CreateUserModel;
use crate::validation::check_length;
use crate::validation::check_name_matches;
use crate::validation::check_username_matches;
use crate::validation::email_valid_of;
use crate::validation::lower_of;
use crate::validation::name_matches;
use crate::validation::to_lowercase;
use crate::validation::trim;
use crate::validation::trimmed_of;
use crate::validation::username_matches;
use crate::validation::validate_email;

verus! {

/// The signup route group.
pub struct AuthRoute;

impl AuthRoute {
    /// Where the group is mounted.
    pub fn path() -> (r: &'static str)
        ensures
            r@ == "/users"@,
    {
        "/users"
    }
}

/// A signup request body.
#[derive(Debug, Clone, PartialEq, Eq)]
pub struct SignUpModel {
    pub username: String,
    pub email: String,
    pub first_name: String,
    pub last_name: String,
    pub password: String,
}

/// The rules a signup body must meet: field lengths, the name and
/// username character rules, and a valid email.
pub open spec fn sign_up_valid(m: &SignUpModel) -> bool {
    &&& 1 <= m.username@.len() <= 32
    &&& username_matches(m.username@)
    &&& email_valid_of(m.email@)
    &&& 1 <= m.email@.len() <= 255
    &&& 1 <= m.first_name@.len() <= 32
    &&& name_matches(m.first_name@)
    &&& 1 <= m.last_name@.len() <= 32
    &&& name_matches(m.last_name@)
    &&& 1 <= m.password@.len() <= 64
}

/// Accepts a signup body exactly when every rule holds.
pub fn validate_sign_up(m: &SignUpModel) -> (r: Result<(), RouteError>)
    ensures
        r is Ok <==> sign_up_valid(m),
        r matches Err(e) ==> e matches RouteError::Validation(_),
{
    if !check_length(m.username.as_str(), 1, 32) || !check_username_matches(m.username.as_str()) {
        return Err(RouteError::Validation("Invalid username".to_owned()));
    }
    if !validate_email(m.email.as_str()) || !check_length(m.email.as_str(), 1, 255) {
        return Err(RouteError::Validation("Invalid email".to_owned()));
    }
    if !check_length(m.first_name.as_str(), 1, 32) || !check_name_matches(m.first_name.as_str()) {
        return Err(RouteError::Validation("Invalid first name".to_owned()));
    }
    if !check_length(m.last_name.as_str(), 1, 32) || !check_name_matches(m.last_name.as_str()) {
        return Err(RouteError::Validation("Invalid last name".to_owned()));
    }
    if !check_length(m.password.as_str(), 1, 64) {
        return Err(RouteError::Validation("Invalid password length".to_owned()));
    }
    Ok(())
}

/// Normalizes a validated signup body: the username is trimmed and
/// lowercased, the password trimmed; other fields pass through.
pub fn normalize_sign_up(m: SignUpModel) -> (r: SignUpModel)
    ensures
        r.username@ == lower_of(trimmed_of(m.username@)),
        r.password@ == trimmed_of(m.password@),
        r.email == m.email,
        r.first_name == m.first_name,
        r.last_name == m.last_name,
{
    let trimmed = trim(m.username.as_str());
    let username = to_lowercase(trimmed.as_str());
    let password = trim(m.password.as_str());
    SignUpModel {
        username,
        email: m.email,
        first_name: m.first_name,
        last_name: m.last_name,
        password,
    }
}

/// Assembles the storage model for a new user from a signup body and the
/// hashed credential.
pub fn build_create_user(
    m: SignUpModel,
    pwd_hash: String,
    pwd_salt: String,
    hash_scheme: HashScheme,
) -> (r: CreateUserModel)
    ensures
        r.username == m.username,
        r.email == m.email,
        r.first_name == m.first_name,
        r.last_name == m.last_name,
        r.pwd_hash == pwd_hash,
        r.pwd_salt == pwd_salt,
        r.hash_scheme == hash_scheme,
{
    CreateUserModel {
        first_name: m.first_name,
        last_name: m.last_name,
        email: m.email,
        username: m.username,
        pwd_hash,
        pwd_salt,
        hash_scheme,
    }
}

/// A login request body.
#[derive(Debug, Clone, PartialEq, Eq)]
pub struct LoginModel {
    pub username: String,
    pub password: String,
}

/// The rules a login body must meet.
pub open spec fn login_valid(m: &LoginModel) -> bool {
    &&& 5 <= m.username@.len() <= 32
    &&& username_matches(m.username@)
    &&& 8 <= m.password@.len() <= 32
}

/// Accepts a login body exactly when every rule holds.
pub fn validate_login(m: &LoginModel) -> (r: Result<(), RouteError>)
    ensures
        r is Ok <==> login_valid(m),
        r matches Err(e) ==> e matches RouteError::Validation(_),
{
    if !check_length(m.username.as_str(), 5, 32) || !check_username_matches(m.username.as_str()) {
        return Err(RouteError::Validation("Invalid username length".to_owned()));
    }
    if !check_length(m.password.as_str(), 8, 32) {
        return Err(RouteError::Validation("Invalid password length".to_owned()));
    }
    Ok(())
}

/// The stored credential of one user, as the login flow reads it.
#[derive(Debug, Clone, PartialEq, Eq)]
pub struct HashModel {
    pub username: String,
    pub hash_scheme: HashScheme,
    pub pwd_hash: String,
    pub pwd_salt: String,
}

/// Checks a password against a stored credential, with the hashing
/// failures mapped as the login handler reports them: a wrong password is
/// an authentication failure, anything else a hashing error.
pub fn check_credentials(hash_model: &HashModel, password: &str) -> (r: Result<(), RouteError>)
    ensures
        r is Ok <==> scheme_verify_spec(
            hash_model.hash_scheme,
            password@,
            hash_model.pwd_salt@,
            hash_model.pwd_hash@,
        ) == Some(true),
        (r matches Err(e) && e == RouteError::InvalidAuth) <==> scheme_verify_spec(
            hash_model.hash_scheme,
            password@,
            hash_model.pwd_salt@,
            hash_model.pwd_hash@,
        ) == Some(false),
        (r matches Err(e) && e == RouteError::HashError) <==> scheme_verify_spec(
            hash_model.hash_scheme,
            password@,
            hash_model.pwd_salt@,
            hash_model.pwd_hash@,
        ) is None,
{
    let res = verify_with_scheme(
        &hash_model.hash_scheme,
        password,
        hash_model.pwd_salt.as_str(),
        hash_model.pwd_hash.as_str(),
    );
    match res {
        Ok(()) => Ok(()),
        Err(e) => match e {
            HashError::Argon2Error(Argon2ErrorKind::Password) => Err(RouteError::InvalidAuth),
            HashError::Argon2Error(Argon2ErrorKind::Other) => Err(RouteError::HashError),
            _ => {
                proof {
                    let sv = scheme_verify_spec(
                        hash_model.hash_scheme,
                        password@,
                        hash_model.pwd_salt@,
                        hash_model.pwd_hash@,
                    );
                    match sv {
                        Option::Some(b) => {
                            if b {
                                assert(sv == Some(true));
                            } else {
                                assert(sv == Some(false));
                            }
                        },
                        Option::None => {},
                    }
                    assert(false);
                }
                Err(RouteError::HashError)
            },
        },
    }
}

} // verus!
