//! Error taxonomy of the service.
//!
//! Every error carries plain data only, so contracts can speak about each
//! variant exactly.  HTTP status codes are reported as plain `u16` values;
//! the unverified shell turns them into its framework's status type.

use vstd::prelude::*;
use vstd::string::StringExecFns;

verus! {

/// Authentication errors of the early middleware layer.
#[derive(Debug, Clone, PartialEq, Eq)]
pub enum Error {
    MissingAuthCookie,
    LoginFail,
    InvalidAuth,
}

impl Error {
    /// The HTTP status code this error is reported with.
    pub open spec fn spec_status_code(&self) -> u16 {
        match self {
            Error::InvalidAuth => 403u16,
            Error::MissingAuthCookie => 403u16,
            Error::LoginFail => 401u16,
        }
    }

    pub fn status_code(&self) -> (code: u16)
        ensures
            code == self.spec_status_code(),
    {
        match self {
            Error::InvalidAuth => 403,
            Error::MissingAuthCookie => 403,
            Error::LoginFail => 401,
        }
    }
}

/// Token errors raised while parsing and validating auth tokens.
#[derive(Debug, Clone, PartialEq, Eq)]
pub enum JWTError {
    InvalidJWT,
    HashError,
    MissingJWTSignature,
    ExpiredJWT,
}

/// Multipart upload errors; the payload names the offending form field.
#[derive(Debug, Clone, PartialEq, Eq)]
pub enum LibMultipartError {
    InvalidContentType(String),
}

/// Which argon2 failure a hashing call reported.
#[derive(Debug, Clone, PartialEq, Eq)]
pub enum Argon2ErrorKind {
    /// The password did not match the hash.
    Password,
    /// Any other argon2 or password-hash failure.
    Other,
}

/// Errors of the credential-hashing component.
#[derive(Debug, Clone, PartialEq, Eq)]
pub enum HashError {
    Argon2Error(Argon2ErrorKind),
    InvalidLength,
    MacError,
    VerificationFail,
}

/// The route layer's error type: everything a request handler can fail with.
#[derive(Debug, Clone, PartialEq, Eq)]
pub enum RouteError {
    Unauthorized,
    MissingAuthCookie,
    MissingJWTSignature,
    LoginFail,
    InvalidAuth,
    Validation(String),
    AlreadyTaken(String),
    HashError,
    ExpiredAuthToken,
    ChronoParseError,
    LibMultipartError(LibMultipartError),
    IOError(String),
    Sqlx(String),
    AwsSdkError(String),
    JWTError(JWTError),
    /// Used to hide internal errors from users.
    Unknown,
}

impl RouteError {
    /// The HTTP status code this error is reported with.
    pub open spec fn spec_status_code(&self) -> u16 {
        match self {
            RouteError::ExpiredAuthToken => 401u16,
            RouteError::MissingJWTSignature => 401u16,
            RouteError::InvalidAuth => 401u16,
            RouteError::MissingAuthCookie => 401u16,
            RouteError::LoginFail => 401u16,
            RouteError::Unauthorized => 401u16,
            RouteError::JWTError(_) => 401u16,
            RouteError::AlreadyTaken(_) => 409u16,
            RouteError::Validation(_) => 400u16,
            RouteError::LibMultipartError(_) => 400u16,
            _ => 500u16,
        }
    }

    pub fn status_code(&self) -> (code: u16)
        ensures
            code == self.spec_status_code(),
    {
        match self {
            RouteError::ExpiredAuthToken
            | RouteError::MissingJWTSignature
            | RouteError::InvalidAuth
            | RouteError::MissingAuthCookie
            | RouteError::LoginFail
            | RouteError::Unauthorized
            | RouteError::JWTError(_) => 401,
            RouteError::AlreadyTaken(_) => 409,
            RouteError::Validation(_) | RouteError::LibMultipartError(_) => 400,
            RouteError::AwsSdkError(_)
            | RouteError::IOError(_)
            | RouteError::HashError
            | RouteError::ChronoParseError
            | RouteError::Unknown
            | RouteError::Sqlx(_) => 500,
        }
    }

    pub fn from_hash_error(value: HashError) -> (r: RouteError)
        ensures
            r == (match value {
                HashError::VerificationFail => RouteError::InvalidAuth,
                _ => RouteError::HashError,
            }),
    {
        match value {
            HashError::VerificationFail => RouteError::InvalidAuth,
            _ => RouteError::HashError,
        }
    }

    pub fn from_jwt_error(value: JWTError) -> (r: RouteError)
        ensures
            r == RouteError::JWTError(value),
    {
        RouteError::JWTError(value)
    }

    pub fn from_multipart_error(value: LibMultipartError) -> (r: RouteError)
        ensures
            r == RouteError::LibMultipartError(value),
    {
        RouteError::LibMultipartError(value)
    }
}

/// Errors of the recommender model.
#[derive(Debug, Clone, Copy, PartialEq, Eq)]
pub enum RecError {
    /// A prediction was requested for a user id never registered.
    UnknownUser,
    /// A prediction was requested for a post id never registered.
    UnknownPost,
    /// Growth was requested for a user id already registered.
    DuplicateUser,
    /// Growth was requested for a post id already registered.
    DuplicatePost,
    /// Supplied structures do not have consistent shapes.
    ShapeMismatch,
    /// A channel index at or beyond the number of observed signals.
    UnknownChannel,
    /// A training update left the representable factor band; the analogue
    /// of numeric blow-up, fatal at startup.
    NumericOverflow,
}

impl JWTError {
    /// The token error's report, as its debug name.
    pub open spec fn spec_message(&self) -> Seq<char> {
        match self {
            JWTError::InvalidJWT => "InvalidJWT"@,
            JWTError::HashError => "HashError"@,
            JWTError::MissingJWTSignature => "MissingJWTSignature"@,
            JWTError::ExpiredJWT => "ExpiredJWT"@,
        }
    }

    pub fn message(&self) -> (r: &'static str)
        ensures
            r@ == self.spec_message(),
    {
        match self {
            JWTError::InvalidJWT => "InvalidJWT",
            JWTError::HashError => "HashError",
            JWTError::MissingJWTSignature => "MissingJWTSignature",
            JWTError::ExpiredJWT => "ExpiredJWT",
        }
    }
}

impl RouteError {
    /// The user-facing report of this error.  Internal failures all read
    /// the same, so nothing inside leaks out.
    pub open spec fn spec_message(&self) -> Seq<char> {
        match self {
            RouteError::AlreadyTaken(s) => s@ + " already taken"@,
            RouteError::ExpiredAuthToken => "Auth token expired"@,
            RouteError::InvalidAuth => "Invalid auth token"@,
            RouteError::JWTError(j) => j.spec_message(),
            RouteError::LoginFail => "Login failed"@,
            RouteError::MissingAuthCookie => "Missing auth token"@,
            RouteError::MissingJWTSignature => "Missing JWT signature"@,
            RouteError::Validation(s) => s@,
            RouteError::LibMultipartError(LibMultipartError::InvalidContentType(n)) => (
            "InvalidContentType(\""@ + n@ + "\")"@),
            RouteError::Unauthorized => Seq::<char>::empty(),
            _ => "Internal error"@,
        }
    }

    pub fn message(&self) -> (r: String)
        ensures
            r@ == self.spec_message(),
    {
        match self {
            RouteError::AlreadyTaken(s) => s.clone().concat(" already taken"),
            RouteError::ExpiredAuthToken => "Auth token expired".to_owned(),
            RouteError::InvalidAuth => "Invalid auth token".to_owned(),
            RouteError::JWTError(j) => j.message().to_owned(),
            RouteError::LoginFail => "Login failed".to_owned(),
            RouteError::MissingAuthCookie => "Missing auth token".to_owned(),
            RouteError::MissingJWTSignature => "Missing JWT signature".to_owned(),
            RouteError::Validation(s) => s.clone(),
            RouteError::LibMultipartError(LibMultipartError::InvalidContentType(n)) => {
                let mut out = "InvalidContentType(\"".to_owned();
                out.append(n.as_str());
                out.append("\")");
                proof {
                    assert(out@ =~= "InvalidContentType(\""@ + n@ + "\")"@);
                }
                out
            },
            RouteError::Unauthorized => String::new(),
            RouteError::HashError
            | RouteError::ChronoParseError
            | RouteError::IOError(_)
            | RouteError::Sqlx(_)
            | RouteError::AwsSdkError(_)
            | RouteError::Unknown => "Internal error".to_owned(),
        }
    }
}

/// Errors of the storage-model layer; the payload is the driver's message.
#[derive(Debug, Clone, PartialEq, Eq)]
pub enum ModelError {
    Sqlx(String),
}

impl RouteError {
    pub fn from_model_error(value: ModelError) -> (r: RouteError)
        ensures
            r == RouteError::Unknown,
    {
        let _ = value;
        RouteError::Unknown
    }
}

} // verus!
