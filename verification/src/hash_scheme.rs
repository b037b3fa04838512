//! The catalogue of credential-hashing schemes.

use vstd::prelude::*;

use crate::text::str_eq;
use crate::validation::lower_of;
use crate::validation::to_lowercase;

verus! {

/// Which hashing scheme a stored credential was produced with.
#[derive(Debug, Clone, Copy, PartialEq, Eq)]
pub enum HashScheme {
    Argon2V01,
    Argon2V02,
}

impl HashScheme {
    /// The wire name of the scheme.
    pub open spec fn spec_name(&self) -> Seq<char> {
        match self {
            HashScheme::Argon2V01 => "argon2_v01"@,
            HashScheme::Argon2V02 => "argon2_v02"@,
        }
    }

    pub fn name(&self) -> (r: &'static str)
        ensures
            r@ == self.spec_name(),
    {
        match self {
            HashScheme::Argon2V01 => "argon2_v01",
            HashScheme::Argon2V02 => "argon2_v02",
        }
    }

    /// Parses a wire name back into a scheme: the exact inverse of
    /// [`HashScheme::name`] on the two valid names, `None` elsewhere.
    pub fn from_name(s: &str) -> (r: Option<HashScheme>)
        ensures
            s@ == "argon2_v01"@ ==> r == Some(HashScheme::Argon2V01),
            s@ == "argon2_v02"@ ==> r == Some(HashScheme::Argon2V02),
            s@ != "argon2_v01"@ && s@ != "argon2_v02"@ ==> r is None,
    {
        proof {
            reveal_strlit("argon2_v01");
            reveal_strlit("argon2_v02");
            assert("argon2_v01"@[9] == '1');
            assert("argon2_v02"@[9] == '2');
            assert("argon2_v01"@ != "argon2_v02"@);
        }
        if str_eq(s, "argon2_v01") {
            Some(HashScheme::Argon2V01)
        } else if str_eq(s, "argon2_v02") {
            Some(HashScheme::Argon2V02)
        } else {
            None
        }
    }
}

/// The deserialization front end for [`HashScheme`]: scheme names are
/// accepted case-insensitively.
pub struct HashSchemeVisitor;

impl HashSchemeVisitor {
    /// Parses a wire name, folding case first.
    pub fn visit_str(s: &str) -> (r: Option<HashScheme>)
        ensures
            lower_of(s@) == "argon2_v01"@ ==> r == Some(HashScheme::Argon2V01),
            lower_of(s@) == "argon2_v02"@ ==> r == Some(HashScheme::Argon2V02),
            lower_of(s@) != "argon2_v01"@ && lower_of(s@) != "argon2_v02"@ ==> r is None,
    {
        let lowered = to_lowercase(s);
        HashScheme::from_name(lowered.as_str())
    }
}

} // verus!
