//! User records.

use vstd::prelude::*;

use crate::hash_scheme::HashScheme;
use crate::models::base::DbBmc;

verus! {

/// A stored user; `created_at` and `deactivated_at` are seconds since the
/// Unix epoch.
#[derive(Debug, Clone, PartialEq, Eq)]
pub struct UserModel {
    pub id: i64,
    pub first_name: String,
    pub last_name: String,
    pub email: String,
    pub username: String,
    pub pwd_hash: String,
    pub pwd_salt: String,
    pub hash_scheme: HashScheme,
    pub created_at: i64,
    pub deactivated_at: Option<i64>,
}

impl DbBmc for UserModel {
    fn table() -> &'static str {
        "user_management.users"
    }
}

/// The fields of a user to be created.
#[derive(Debug, Clone, PartialEq, Eq)]
pub struct CreateUserModel {
    pub first_name: String,
    pub last_name: String,
    pub email: String,
    pub username: String,
    pub pwd_hash: String,
    pub pwd_salt: String,
    pub hash_scheme: HashScheme,
}

/// The public projection of a user.
#[derive(Debug, Clone, PartialEq, Eq)]
pub struct ReadUserModel {
    pub first_name: String,
    pub last_name: String,
    pub username: String,
}

/// Largest number of rows a username listing may return.
pub const MAX_LIMIT: i64 = 32;

/// Decides which identifier a uniqueness query found taken: the row an
/// existence query returned holds the stored email and username; the
/// email is reported first, then the username, and a row matching
/// neither reports nothing.
pub fn which_taken(row: &Option<(String, String)>, username: &str, email: &str) -> (r: Option<
    String,
>)
    ensures
        row is None ==> r is None,
        row matches Some(q) ==> (if q.0@ == email@ {
            r matches Some(s) && s@ == email@
        } else if q.1@ == username@ {
            r matches Some(s) && s@ == username@
        } else {
            r is None
        }),
{
    match row {
        Option::Some((q_email, q_name)) => {
            if crate::text::str_eq(q_email.as_str(), email) {
                Some(email.to_owned())
            } else if crate::text::str_eq(q_name.as_str(), username) {
                Some(username.to_owned())
            } else {
                None
            }
        },
        Option::None => None,
    }
}

} // verus!
