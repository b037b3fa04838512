//! The service-level hashing facade: one fixed argon2 configuration used
//! by the signup and login flows.

use vstd::prelude::*;

use crate::errors::Argon2ErrorKind;
use crate::errors::HashError;
use crate::errors::RouteError;
use crate::hash_scheme::HashScheme;
use crate::hashers::argon2_hash_of;
use crate::hashers::argon2_verify_of;

verus! {

/// Memory cost of the service configuration.
pub const SERVICE_M_COST: u32 = 5140;

/// Time cost of the service configuration.
pub const SERVICE_T_COST: u32 = 2;

/// Parallelism of the service configuration.
pub const SERVICE_P_COST: u32 = 1;

/// The hash the service configuration produces for a password and salt.
pub open spec fn service_hash_of(pwd: Seq<char>, salt: Seq<char>) -> Option<Seq<char>> {
    argon2_hash_of(
        SERVICE_M_COST as int,
        SERVICE_T_COST as int,
        SERVICE_P_COST as int,
        pwd,
        salt,
    )
}

/// The verdict the service configuration reaches for a password against a
/// stored salt and hash.
pub open spec fn service_verify_of(pwd: Seq<char>, salt: Seq<char>, hash: Seq<char>) -> Option<bool> {
    argon2_verify_of(
        SERVICE_M_COST as int,
        SERVICE_T_COST as int,
        SERVICE_P_COST as int,
        pwd,
        salt,
        hash,
    )
}

/// Hashes a password with a fresh random salt, returning the hash and the
/// salt.  A hashing failure is reported as an authentication failure, as
/// the signup flow treats it.
pub fn hash(password: &str, scheme: &HashScheme) -> (r: Result<(String, String), RouteError>)
    ensures
        r matches Ok(p) ==> service_hash_of(password@, p.1@) == Some(p.0@),
        r matches Err(e) ==> e == RouteError::InvalidAuth,
{
    let _ = scheme;
    let salt = crate::hashers::generate_salt();
    match crate::hashers::argon2_hash_with_salt(
        SERVICE_M_COST,
        SERVICE_T_COST,
        SERVICE_P_COST,
        password,
        salt.as_str(),
    ) {
        Ok(h) => Ok((h, salt)),
        Err(_) => Err(RouteError::InvalidAuth),
    }
}

/// Hashes a password with the given salt.
pub fn hash_with_salt(password: &str, salt: &str, scheme: &HashScheme) -> (r: Result<
    String,
    RouteError,
>)
    ensures
        r matches Ok(h) ==> service_hash_of(password@, salt@) == Some(h@),
        r is Err <==> service_hash_of(password@, salt@) is None,
        r matches Err(e) ==> e == RouteError::HashError,
{
    let _ = scheme;
    match crate::hashers::argon2_hash_with_salt(
        SERVICE_M_COST,
        SERVICE_T_COST,
        SERVICE_P_COST,
        password,
        salt,
    ) {
        Ok(h) => Ok(h),
        Err(_) => Err(RouteError::HashError),
    }
}

/// Validates a password against a stored salt and hash.  `Ok(true)` means
/// the password is correct, `Ok(false)` that it is not; a hash or salt
/// that cannot be parsed is a hashing error.
pub fn verify(password: &str, salt_str: &str, hash_str: &str) -> (r: Result<bool, RouteError>)
    ensures
        r == Ok::<bool, RouteError>(true) <==> service_verify_of(password@, salt_str@, hash_str@)
            == Some(true),
        r == Ok::<bool, RouteError>(false) <==> service_verify_of(password@, salt_str@, hash_str@)
            == Some(false),
        r is Err <==> service_verify_of(password@, salt_str@, hash_str@) is None,
        r matches Err(e) ==> e == RouteError::HashError,
{
    let res = crate::hashers::argon2_verify(
        SERVICE_M_COST,
        SERVICE_T_COST,
        SERVICE_P_COST,
        password,
        salt_str,
        hash_str,
    );
    match res {
        Ok(()) => Ok(true),
        Err(e) => match e {
            HashError::Argon2Error(Argon2ErrorKind::Password) => Ok(false),
            HashError::Argon2Error(Argon2ErrorKind::Other) => Err(RouteError::HashError),
            HashError::InvalidLength | HashError::MacError | HashError::VerificationFail => {
                proof {
                    let sv = service_verify_of(password@, salt_str@, hash_str@);
                    assert(!(res is Ok));
                    assert(!(res matches Err(x) && x == HashError::Argon2Error(
                        Argon2ErrorKind::Password,
                    )));
                    assert(sv != Some(true));
                    assert(sv != Some(false));
                    match sv {
                        Option::Some(b) => {
                            if b {
                                assert(sv == Some(true));
                            } else {
                                assert(sv == Some(false));
                            }
                        },
                        Option::None => {},
                    }
                    assert(sv is None);
                }
                Err(RouteError::HashError)
            },
        },
    }
}

} // verus!
