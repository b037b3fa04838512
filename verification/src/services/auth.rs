//! Request-level authorization checks.

use vstd::prelude::*;

use crate::errors::RouteError;
use crate::jwt::JWT;
use crate::text::str_eq;

verus! {

/// A caller may only act on their own account: the path username must be
/// the token's username.
pub fn check_username(username: &str, jwt: &JWT) -> (r: Result<(), RouteError>)
    ensures
        r is Ok <==> username@ == jwt.spec_username(),
        r matches Err(e) ==> e == RouteError::Unauthorized,
{
    if !str_eq(username, jwt.username()) {
        return Err(RouteError::Unauthorized);
    }
    Ok(())
}

} // verus!
