//! The per-request context: the validated token of the caller.

use vstd::prelude::*;

use crate::jwt::JWT;

verus! {

/// What a handler knows about its caller.
#[derive(Debug, Clone)]
pub struct Ctx {
    jwt: JWT,
}

impl Ctx {
    /// The caller's token.
    pub closed spec fn spec_jwt(&self) -> JWT {
        self.jwt
    }

    pub fn new(jwt: JWT) -> (r: Self)
        ensures
            r.spec_jwt() == jwt,
    {
        Ctx { jwt }
    }

    pub fn jwt(&self) -> (r: &JWT)
        ensures
            *r == self.spec_jwt(),
    {
        &self.jwt
    }
}

} // verus!
