//! Credential hashing through argon2.
//!
//! The outside calls are confined to three trusted wrappers; what they
//! return is named by two uninterpreted functions, so every caller's
//! contract is exact relative to those names.

use vstd::prelude::*;

use crate::errors::Argon2ErrorKind;
use crate::errors::HashError;
use crate::hash_scheme::HashScheme;
use argon2::password_hash::rand_core::OsRng;
use argon2::password_hash::Salt;
use argon2::password_hash::SaltString;
use argon2::Algorithm;
use argon2::Argon2;
use argon2::Params;
use argon2::PasswordHash;
use argon2::PasswordHasher;
use argon2::PasswordVerifier;
use argon2::Version;

verus! {

/// The PHC hash string argon2id (version 0x13, 32-byte output) produces
/// for the given costs, password and B64 salt; `None` when argon2 rejects
/// the parameters or the salt.
pub uninterp spec fn argon2_hash_of(m: int, t: int, p: int, pwd: Seq<char>, salt: Seq<char>) -> Option<
    Seq<char>,
>;

/// The verdict argon2id reaches for the given costs, password, B64 salt
/// and PHC hash string: `Some(true)` when the password matches,
/// `Some(false)` when it does not, `None` when the hash or salt cannot be
/// parsed.
pub uninterp spec fn argon2_verify_of(
    m: int,
    t: int,
    p: int,
    pwd: Seq<char>,
    salt: Seq<char>,
    hash: Seq<char>,
) -> Option<bool>;

/// Relies on argon2's `Params::new`, `Argon2::new` (Argon2id, version
/// 0x13, 32-byte output) and `PasswordHasher::hash_password` with
/// `SaltString::from_b64` on the salt.  The result depends on the
/// arguments alone, so it is named by `argon2_hash_of`.
#[verifier::external_body]
pub(crate) fn argon2_hash_with_salt(m_cost: u32, t_cost: u32, p_cost: u32, password: &str, salt: &str) -> (r:
    Result<String, HashError>)
    ensures
        r matches Ok(h) ==> argon2_hash_of(
            m_cost as int,
            t_cost as int,
            p_cost as int,
            password@,
            salt@,
        ) == Some(h@),
        r is Err ==> argon2_hash_of(
            m_cost as int,
            t_cost as int,
            p_cost as int,
            password@,
            salt@,
        ) is None,
        r matches Err(e) ==> e == HashError::Argon2Error(Argon2ErrorKind::Other),
{
    let other = HashError::Argon2Error(Argon2ErrorKind::Other);
    let params = match Params::new(m_cost, t_cost, p_cost, Some(32)) { Ok(p) => p, Err(_) => return Err(other) };
    let a = Argon2::new(Algorithm::Argon2id, Version::V0x13, params);
    let s = match SaltString::from_b64(salt) { Ok(s) => s, Err(_) => return Err(other) };
    match PasswordHasher::hash_password(&a, password.as_bytes(), &s) {
        Ok(h) => Ok(h.to_string()),
        Err(_) => Err(other),
    }
}

/// Relies on argon2's `PasswordHash::new`, `Salt::from_b64` (replacing the
/// hash's salt, as the stored salt is authoritative) and
/// `PasswordVerifier::verify_password`.  The verdict depends on the
/// arguments alone, so it is named by `argon2_verify_of`.
#[verifier::external_body]
pub(crate) fn argon2_verify(
    m_cost: u32,
    t_cost: u32,
    p_cost: u32,
    password: &str,
    salt: &str,
    hash: &str,
) -> (r: Result<(), HashError>)
    ensures
        r is Ok <==> argon2_verify_of(
            m_cost as int,
            t_cost as int,
            p_cost as int,
            password@,
            salt@,
            hash@,
        ) == Some(true),
        (r matches Err(e) && e == HashError::Argon2Error(Argon2ErrorKind::Password))
            <==> argon2_verify_of(
            m_cost as int,
            t_cost as int,
            p_cost as int,
            password@,
            salt@,
            hash@,
        ) == Some(false),
        (r matches Err(e) && e == HashError::Argon2Error(Argon2ErrorKind::Other))
            <==> argon2_verify_of(
            m_cost as int,
            t_cost as int,
            p_cost as int,
            password@,
            salt@,
            hash@,
        ) is None,
{
    let other = HashError::Argon2Error(Argon2ErrorKind::Other);
    let params = match Params::new(m_cost, t_cost, p_cost, Some(32)) { Ok(p) => p, Err(_) => return Err(other) };
    let a = Argon2::new(Algorithm::Argon2id, Version::V0x13, params);
    let mut ph = match PasswordHash::new(hash) { Ok(h) => h, Err(_) => return Err(other) };
    ph.salt = match Salt::from_b64(salt) { Ok(s) => Some(s), Err(_) => return Err(other) };
    match PasswordVerifier::verify_password(&a, password.as_bytes(), &ph) {
        Ok(()) => Ok(()),
        Err(argon2::password_hash::Error::Password) => Err(HashError::Argon2Error(Argon2ErrorKind::Password)),
        Err(_) => Err(other),
    }
}

/// Relies on `SaltString::generate` over the system random source: a
/// fresh B64 salt.  Nothing is promised of its value; two calls may
/// differ.
#[verifier::external_body]
pub(crate) fn generate_salt() -> (r: String) {
    SaltString::generate(&mut OsRng).to_string()
}

/// A credential-hashing scheme: hashing with and without a caller-chosen
/// salt, and verification.  The two spec functions name each
/// implementation's hash and verdict.
pub trait Hasher {
    /// The hash this scheme produces for a password and salt.
    spec fn hash_with_salt_spec(&self, pwd: Seq<char>, salt: Seq<char>) -> Option<Seq<char>>;

    /// The verdict this scheme reaches for a password against a stored
    /// salt and hash.
    spec fn verify_spec(&self, pwd: Seq<char>, salt: Seq<char>, hash: Seq<char>) -> Option<bool>;

    /// Hashes a password with a fresh random salt, returning the hash and
    /// the salt it was produced with.
    fn hash(&self, password: &str) -> (r: Result<(String, String), HashError>)
        ensures
            r matches Ok(p) ==> self.hash_with_salt_spec(password@, p.1@) == Some(p.0@),
    ;

    /// Hashes a password with the given salt.
    fn hash_with_salt(&self, password: &str, salt: &str) -> (r: Result<String, HashError>)
        ensures
            r matches Ok(h) ==> self.hash_with_salt_spec(password@, salt@) == Some(h@),
            r is Err ==> self.hash_with_salt_spec(password@, salt@) is None,
    ;

    /// Validates a password against a stored salt and hash, `Ok` exactly
    /// when the scheme accepts it.
    fn verify(&self, password: &str, salt_str: &str, hash_str: &str) -> (r: Result<(), HashError>)
        ensures
            r is Ok <==> self.verify_spec(password@, salt_str@, hash_str@) == Some(true),
            (r matches Err(e) && e == HashError::Argon2Error(Argon2ErrorKind::Password))
                <==> self.verify_spec(password@, salt_str@, hash_str@) == Some(false),
            (r matches Err(e) && e == HashError::Argon2Error(Argon2ErrorKind::Other))
                <==> self.verify_spec(password@, salt_str@, hash_str@) is None,
    ;
}

/// The first argon2 scheme: high memory cost.
pub struct Argon2V01;

/// The second argon2 scheme: lighter parameters.
pub struct Argon2V02;

/// A reserved scheme marker for an HMAC-SHA256 credential hash; nothing
/// dispatches to it and it implements no `Hasher`.
pub struct HmacV01;

impl Hasher for Argon2V01 {
    open spec fn hash_with_salt_spec(&self, pwd: Seq<char>, salt: Seq<char>) -> Option<Seq<char>> {
        argon2_hash_of(10280, 2, 1, pwd, salt)
    }

    open spec fn verify_spec(&self, pwd: Seq<char>, salt: Seq<char>, hash: Seq<char>) -> Option<
        bool,
    > {
        argon2_verify_of(10280, 2, 1, pwd, salt, hash)
    }

    fn hash(&self, password: &str) -> (r: Result<(String, String), HashError>) {
        let salt = generate_salt();
        match self.hash_with_salt(password, salt.as_str()) {
            Ok(h) => Ok((h, salt)),
            Err(e) => Err(e),
        }
    }

    fn hash_with_salt(&self, password: &str, salt: &str) -> (r: Result<String, HashError>) {
        argon2_hash_with_salt(10280, 2, 1, password, salt)
    }

    fn verify(&self, password: &str, salt_str: &str, hash_str: &str) -> (r: Result<
        (),
        HashError,
    >) {
        argon2_verify(10280, 2, 1, password, salt_str, hash_str)
    }
}

impl Hasher for Argon2V02 {
    open spec fn hash_with_salt_spec(&self, pwd: Seq<char>, salt: Seq<char>) -> Option<Seq<char>> {
        argon2_hash_of(1028, 1, 1, pwd, salt)
    }

    open spec fn verify_spec(&self, pwd: Seq<char>, salt: Seq<char>, hash: Seq<char>) -> Option<
        bool,
    > {
        argon2_verify_of(1028, 1, 1, pwd, salt, hash)
    }

    fn hash(&self, password: &str) -> (r: Result<(String, String), HashError>) {
        let salt = generate_salt();
        match self.hash_with_salt(password, salt.as_str()) {
            Ok(h) => Ok((h, salt)),
            Err(e) => Err(e),
        }
    }

    fn hash_with_salt(&self, password: &str, salt: &str) -> (r: Result<String, HashError>) {
        argon2_hash_with_salt(1028, 1, 1, password, salt)
    }

    fn verify(&self, password: &str, salt_str: &str, hash_str: &str) -> (r: Result<
        (),
        HashError,
    >) {
        argon2_verify(1028, 1, 1, password, salt_str, hash_str)
    }
}

/// The verdict the named scheme reaches for a password against a stored
/// salt and hash.
pub open spec fn scheme_verify_spec(
    scheme: HashScheme,
    pwd: Seq<char>,
    salt: Seq<char>,
    hash: Seq<char>,
) -> Option<bool> {
    match scheme {
        HashScheme::Argon2V01 => argon2_verify_of(10280, 2, 1, pwd, salt, hash),
        HashScheme::Argon2V02 => argon2_verify_of(1028, 1, 1, pwd, salt, hash),
    }
}

/// Validates a password under whichever scheme the stored credential was
/// produced with.
pub fn verify_with_scheme(scheme: &HashScheme, password: &str, salt: &str, hash: &str) -> (r:
    Result<(), HashError>)
    ensures
        r is Ok <==> scheme_verify_spec(*scheme, password@, salt@, hash@) == Some(true),
        (r matches Err(e) && e == HashError::Argon2Error(Argon2ErrorKind::Password))
            <==> scheme_verify_spec(*scheme, password@, salt@, hash@) == Some(false),
        (r matches Err(e) && e == HashError::Argon2Error(Argon2ErrorKind::Other))
            <==> scheme_verify_spec(*scheme, password@, salt@, hash@) is None,
{
    match scheme {
        HashScheme::Argon2V01 => Argon2V01.verify(password, salt, hash),
        HashScheme::Argon2V02 => Argon2V02.verify(password, salt, hash),
    }
}

} // verus!
