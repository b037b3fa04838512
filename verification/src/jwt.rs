//! Auth tokens: a username, an expiry instant and a signature over both.
//!
//! A token travels as `username.date.signature`.  The expiry is held as
//! Unix seconds; the calendar rendering of the date field is chrono's
//! work, named by two uninterpreted functions.  Signing and verification
//! go through a [`Hasher`].

use vstd::prelude::*;

use crate::errors::RouteError;
use crate::hashers::Hasher;
use vstd::string::StrSliceExecFns;
use vstd::string::StringExecFns;

verus! {

/// The calendar format of the token's date field.
pub const JWT_DATE_FORMAT: &'static str = "%Y/%m/%d_%H/%M/%S_%z";

/// How long a fresh token lives.
pub const JWT_LIFE_IN_MINUTES: i64 = 60;

/// Largest expiry magnitude a token may carry, comfortably inside the
/// range chrono can render as a calendar date.
pub const JWT_MAX_TS: i64 = 8_000_000_000_000;

/// The Unix timestamp chrono parses out of a date field in the token
/// format; `None` when chrono rejects the text.
pub uninterp spec fn jwt_date_of(s: Seq<char>) -> Option<i64>;

/// The date field chrono renders for a Unix timestamp in the token
/// format.
pub uninterp spec fn jwt_date_str_of(t: i64) -> Seq<char>;

/// Relies on chrono's `DateTime::parse_from_str` with the token date
/// format, and `DateTime::timestamp`: the parsed instant as Unix seconds,
/// a function of the text alone, named by `jwt_date_of`.
#[verifier::external_body]
fn parse_jwt_date(s: &str) -> (r: Option<i64>)
    ensures
        r == jwt_date_of(s@),
{
    match chrono::DateTime::parse_from_str(s, JWT_DATE_FORMAT) {
        Ok(d) => Some(d.timestamp()),
        Err(_) => None,
    }
}

/// Relies on chrono's `DateTime::from_timestamp` and `format`: the date
/// field for an instant, a function of the timestamp alone, named by
/// `jwt_date_str_of`.  The bound keeps the instant inside the range
/// chrono accepts.
#[verifier::external_body]
fn format_jwt_date(t: i64) -> (r: String)
    requires
        -JWT_MAX_TS <= t <= JWT_MAX_TS,
    ensures
        r@ == jwt_date_str_of(t),
{
    match chrono::DateTime::<chrono::Utc>::from_timestamp(t, 0) {
        Some(d) => d.format(JWT_DATE_FORMAT).to_string(),
        None => String::new(),
    }
}

/// Relies on chrono's `Utc::now` and `DateTime::timestamp`: the current
/// time as Unix seconds.  Nothing is promised of the value.
#[verifier::external_body]
fn now_ts() -> (r: i64) {
    chrono::Utc::now().timestamp()
}

/// The position of the first `.` in `s` at or after `from`; `s.len()`
/// when there is none.
pub open spec fn first_dot(s: Seq<char>, from: int) -> int
    decreases s.len() - from,
{
    if from < 0 || from >= s.len() {
        s.len() as int
    } else if s[from] == '.' {
        from
    } else {
        first_dot(s, from + 1)
    }
}

/// Finds the first `.` at or after `from`, exactly as `first_dot` states.
fn find_dot(s: &str, from: usize) -> (r: usize)
    requires
        from <= s@.len(),
    ensures
        r == first_dot(s@, from as int),
        from <= r <= s@.len(),
        r < s@.len() ==> s@[r as int] == '.',
{
    let n = s.unicode_len();
    let mut i: usize = from;
    while i < n
        invariant
            from <= i <= n,
            n == s@.len(),
            first_dot(s@, from as int) == first_dot(s@, i as int),
        decreases n - i,
    {
        if s.get_char(i) == '.' {
            return i;
        }
        i = i + 1;
    }
    i
}

/// An auth token: who it names, when it expires, and its signature.
#[derive(Debug, Clone)]
pub struct JWT {
    username: String,
    expires: i64,
    signature: Option<String>,
}

impl JWT {
    /// The token's username.
    pub closed spec fn spec_username(&self) -> Seq<char> {
        self.username@
    }

    /// The token's expiry as Unix seconds.
    pub closed spec fn spec_expires(&self) -> i64 {
        self.expires
    }

    /// The token's signature, if it has been signed.
    pub closed spec fn spec_signature(&self) -> Option<Seq<char>> {
        match self.signature {
            Option::Some(s) => Some(s@),
            Option::None => None,
        }
    }

    /// The expiry stays renderable as a calendar date.
    pub open spec fn wf(&self) -> bool {
        -JWT_MAX_TS <= self.spec_expires() <= JWT_MAX_TS
    }

    /// The text a signature covers: the username followed by the rendered
    /// date field.
    pub open spec fn spec_pwd(&self) -> Seq<char> {
        self.spec_username() + jwt_date_str_of(self.spec_expires())
    }

    pub fn username(&self) -> (r: &str)
        ensures
            r@ == self.spec_username(),
    {
        self.username.as_str()
    }

    pub fn expires(&self) -> (r: i64)
        ensures
            r == self.spec_expires(),
    {
        self.expires
    }

    pub fn signature(&self) -> (r: &Option<String>)
        ensures
            *r matches Some(s) ==> self.spec_signature() == Some(s@),
            *r is None <==> self.spec_signature() is None,
    {
        &self.signature
    }

    /// The rendered date field of this token.
    fn expires_to_string(&self) -> (r: String)
        requires
            self.wf(),
        ensures
            r@ == jwt_date_str_of(self.spec_expires()),
    {
        format_jwt_date(self.expires)
    }

    /// The text this token's signature covers.
    fn as_pwd(&self) -> (r: String)
        requires
            self.wf(),
        ensures
            r@ == self.spec_pwd(),
    {
        let mut pwd = self.username.clone();
        let date = self.expires_to_string();
        pwd.append(date.as_str());
        pwd
    }

    /// Signs the token: the signature becomes the hash of the covered
    /// text under the given salt.  Fails exactly when the hasher fails.
    pub fn sign<H: Hasher>(&mut self, salt: &str, hasher: &H) -> (r: Result<(), RouteError>)
        requires
            old(self).wf(),
        ensures
            final(self).wf(),
            final(self).spec_username() == old(self).spec_username(),
            final(self).spec_expires() == old(self).spec_expires(),
            r is Ok <==> hasher.hash_with_salt_spec(old(self).spec_pwd(), salt@) is Some,
            r is Ok ==> final(self).spec_signature() == Some(
                hasher.hash_with_salt_spec(old(self).spec_pwd(), salt@).unwrap(),
            ),
            r matches Err(e) ==> e == RouteError::HashError && *final(self) == *old(self),
    {
        let pwd = self.as_pwd();
        match hasher.hash_with_salt(pwd.as_str(), salt) {
            Ok(hash) => {
                self.signature = Some(hash);
                Ok(())
            },
            Err(_) => Err(RouteError::HashError),
        }
    }

    /// Builds and signs a token expiring `JWT_LIFE_IN_MINUTES` after the
    /// given instant.
    pub fn new_at<H: Hasher>(username: String, key: &str, hasher: &H, now: i64) -> (r: Result<
        JWT,
        RouteError,
    >)
        requires
            -JWT_MAX_TS <= now,
            now + JWT_LIFE_IN_MINUTES * 60 <= JWT_MAX_TS,
        ensures
            ({
                let expires = (now + JWT_LIFE_IN_MINUTES * 60) as i64;
                let pwd = username@ + jwt_date_str_of(expires);
                &&& (r is Ok <==> hasher.hash_with_salt_spec(pwd, key@) is Some)
                &&& (r matches Ok(j) ==> j.wf() && j.spec_username() == username@
                    && j.spec_expires() == expires && j.spec_signature() == Some(
                    hasher.hash_with_salt_spec(pwd, key@).unwrap(),
                ))
                &&& (r matches Err(e) ==> e == RouteError::HashError)
            }),
    {
        let expires = now + JWT_LIFE_IN_MINUTES * 60;
        let mut jwt = JWT { username, expires, signature: None };
        match jwt.sign(key, hasher) {
            Ok(()) => Ok(jwt),
            Err(e) => Err(e),
        }
    }

    /// Builds and signs a token expiring `JWT_LIFE_IN_MINUTES` from now.
    /// The clock is read once; everything after is a function of it.
    pub fn new<H: Hasher>(username: String, key: &str, hasher: &H) -> (r: Result<JWT, RouteError>)
        ensures
            r matches Ok(j) ==> j.wf() && j.spec_username() == username@ && (
            j.spec_signature() matches Some(s) && hasher.hash_with_salt_spec(j.spec_pwd(), key@)
                == Some(s)),
    {
        let now = now_ts();
        if now < -JWT_MAX_TS || now > JWT_MAX_TS - JWT_LIFE_IN_MINUTES * 60 {
            return Err(RouteError::Unknown);
        }
        JWT::new_at(username, key, hasher, now)
    }

    /// What parsing decides for a token text: the three fields, or which
    /// error rejects it.  Anything with fewer than two dots is invalid; a
    /// date chrono cannot parse, or one outside the renderable range, is
    /// a date error.  The signature is the third dot-separated field,
    /// further fields are ignored.
    pub open spec fn spec_parse_token(s: Seq<char>) -> Result<
        (Seq<char>, i64, Seq<char>),
        RouteError,
    > {
        let i = first_dot(s, 0);
        let j = first_dot(s, i + 1);
        let k = first_dot(s, j + 1);
        if j >= s.len() {
            Err(RouteError::InvalidAuth)
        } else {
            match jwt_date_of(s.subrange(i + 1, j)) {
                Option::None => Err(RouteError::ChronoParseError),
                Option::Some(t) => if -JWT_MAX_TS <= t <= JWT_MAX_TS {
                    Ok((s.subrange(0, i), t, s.subrange(j + 1, k)))
                } else {
                    Err(RouteError::ChronoParseError)
                },
            }
        }
    }

    /// Parses `username.date.signature` into a token, exactly as
    /// `spec_parse_token` states it.
    pub fn parse_token(token_str: String) -> (r: Result<JWT, RouteError>)
        ensures
            ({
                match Self::spec_parse_token(token_str@) {
                    Ok(parts) => {
                        &&& r matches Ok(jw)
                        &&& jw.wf()
                        &&& jw.spec_username() == parts.0
                        &&& jw.spec_expires() == parts.1
                        &&& jw.spec_signature() == Some(parts.2)
                    },
                    Err(e) => r == Err::<JWT, RouteError>(e),
                }
            }),
    {
        let s = token_str.as_str();
        let n = s.unicode_len();
        let i = find_dot(s, 0);
        if i >= n {
            return Err(RouteError::InvalidAuth);
        }
        let j = find_dot(s, i + 1);
        if j >= n {
            return Err(RouteError::InvalidAuth);
        }
        let k = find_dot(s, j + 1);
        let username = s.substring_char(0, i).to_owned();
        let date = s.substring_char(i + 1, j).to_owned();
        let sig = s.substring_char(j + 1, k).to_owned();
        let t = match parse_jwt_date(date.as_str()) {
            Option::Some(t) => t,
            Option::None => {
                return Err(RouteError::ChronoParseError);
            },
        };
        if t < -JWT_MAX_TS || t > JWT_MAX_TS {
            return Err(RouteError::ChronoParseError);
        }
        Ok(JWT { username, expires: t, signature: Some(sig) })
    }

    /// What validation at a known instant decides: expiry first, then the
    /// presence of a signature, then the hasher's verdict on it.
    pub open spec fn spec_validate_at<H: Hasher>(
        &self,
        hasher: &H,
        salt: Seq<char>,
        now: i64,
    ) -> Result<(), RouteError> {
        if self.spec_expires() <= now {
            Err(RouteError::ExpiredAuthToken)
        } else {
            match self.spec_signature() {
                Option::None => Err(RouteError::MissingJWTSignature),
                Option::Some(sig) => match hasher.verify_spec(self.spec_pwd(), salt, sig) {
                    Option::Some(true) => Ok(()),
                    Option::Some(false) => Err(RouteError::InvalidAuth),
                    Option::None => Err(RouteError::HashError),
                },
            }
        }
    }

    /// Validates the token against the clock instant `now`.
    pub fn validate_token_at<H: Hasher>(&self, salt: &str, hasher: &H, now: i64) -> (r: Result<
        (),
        RouteError,
    >)
        requires
            self.wf(),
        ensures
            r == self.spec_validate_at(hasher, salt@, now),
    {
        if self.expires <= now {
            return Err(RouteError::ExpiredAuthToken);
        }
        let sig = match &self.signature {
            Option::Some(sig) => sig,
            Option::None => {
                return Err(RouteError::MissingJWTSignature);
            },
        };
        let pwd = self.as_pwd();
        let res = hasher.verify(pwd.as_str(), salt, sig.as_str());
        match res {
            Ok(()) => Ok(()),
            Err(e) => match e {
                crate::errors::HashError::Argon2Error(crate::errors::Argon2ErrorKind::Password) => Err(
                    RouteError::InvalidAuth,
                ),
                crate::errors::HashError::Argon2Error(crate::errors::Argon2ErrorKind::Other) => Err(
                    RouteError::HashError,
                ),
                _ => {
                    proof {
                        let sv = hasher.verify_spec(self.spec_pwd(), salt@, sig@);
                        match sv {
                            Option::Some(b) => {
                                if b {
                                    assert(sv == Some(true));
                                } else {
                                    assert(sv == Some(false));
                                }
                            },
                            Option::None => {},
                        }
                        assert(false);
                    }
                    Err(RouteError::HashError)
                },
            },
        }
    }

    /// Validates the token against the current clock.  The clock is read
    /// once; the result is validation at that instant.
    pub fn validate_token<H: Hasher>(&self, salt: &String, hasher: &H) -> (r: Result<
        (),
        RouteError,
    >)
        requires
            self.wf(),
        ensures
            exists|now: i64| r == self.spec_validate_at(hasher, salt@, now),
    {
        let now = now_ts();
        let r = self.validate_token_at(salt.as_str(), hasher, now);
        proof {
            assert(r == self.spec_validate_at(hasher, salt@, now));
        }
        r
    }

    /// The wire form `username.date.signature`; an unsigned token renders
    /// an empty signature field.
    pub fn to_string(&self) -> (r: String)
        requires
            self.wf(),
        ensures
            r@ == self.spec_username() + seq!['.'] + jwt_date_str_of(self.spec_expires())
                + seq!['.'] + (match self.spec_signature() {
                Option::Some(s) => s,
                Option::None => Seq::<char>::empty(),
            }),
    {
        proof {
            reveal_strlit(".");
        }
        let mut out = self.username.clone();
        out.append(".");
        let date = self.expires_to_string();
        out.append(date.as_str());
        out.append(".");
        match &self.signature {
            Option::Some(s) => {
                out.append(s.as_str());
            },
            Option::None => {},
        }
        proof {
            assert(out@ =~= self.spec_username() + seq!['.'] + jwt_date_str_of(self.spec_expires())
                + seq!['.'] + (match self.spec_signature() {
                Option::Some(s) => s,
                Option::None => Seq::<char>::empty(),
            }));
        }
        out
    }
}

} // verus!
