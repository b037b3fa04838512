//! Context resolution: turning a cookie's token text into a caller
//! context, and deciding when a bad cookie is cleared.

use vstd::prelude::*;

use crate::ctx::Ctx;
use crate::errors::RouteError;
use crate::jwt::JWT;

verus! {

/// The name of the auth cookie.
pub const AUTH_TOKEN: &'static str = "auth_token";

/// Resolves the caller context from the auth cookie's value: a missing
/// cookie is its own error; otherwise the token text is parsed.
pub fn resolve_ctx(token_str: Option<String>) -> (r: Result<Ctx, RouteError>)
    ensures
        token_str is None ==> r == Err::<Ctx, RouteError>(RouteError::MissingAuthCookie),
        token_str matches Some(t) ==> (match JWT::spec_parse_token(t@) {
            Ok(parts) => r matches Ok(c) && c.spec_jwt().wf() && c.spec_jwt().spec_username()
                == parts.0 && c.spec_jwt().spec_expires() == parts.1
                && c.spec_jwt().spec_signature() == Some(parts.2),
            Err(e) => r == Err::<Ctx, RouteError>(e),
        }),
{
    match token_str {
        Option::Some(t) => match JWT::parse_token(t) {
            Ok(jwt) => Ok(Ctx::new(jwt)),
            Err(e) => Err(e),
        },
        Option::None => Err(RouteError::MissingAuthCookie),
    }
}

/// A failed resolution clears the cookie, except when there was no cookie
/// to clear.
pub fn should_remove_cookie(result: &Result<Ctx, RouteError>) -> (r: bool)
    ensures
        r == (result is Err && !(result matches Err(e) && e == RouteError::MissingAuthCookie)),
{
    match result {
        Ok(_) => false,
        Err(e) => match e {
            RouteError::MissingAuthCookie => false,
            _ => true,
        },
    }
}

} // verus!
