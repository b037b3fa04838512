//! The liveness route.

use vstd::prelude::*;

use vstd::string::StringExecFns;

verus! {

/// The liveness route group.
pub struct HelloWorldRoute;

impl HelloWorldRoute {
    /// Where the group is mounted.
    pub fn path() -> (r: &'static str)
        ensures
            r@ == "/helloworld"@,
    {
        "/helloworld"
    }
}

/// The liveness greeting.
pub fn hello_world() -> (r: String)
    ensures
        r@ == "hello world!!1!"@,
{
    String::from_str("hello world!!1!")
}

} // verus!
