//! Common ground of the storage models: the table a model is stored in.

use vstd::prelude::*;

verus! {

/// A model backed by one database table.
pub trait DbBmc {
    /// The qualified name of the backing table.
    fn table() -> &'static str;
}

/// Largest number of rows a listing query may return.
pub const MAX_LIMIT: i64 = 64;

/// Clamps a caller-supplied listing limit into `[0, MAX_LIMIT]`.
pub fn clamp_limit(limit: i64) -> (r: i64)
    ensures
        r == (if limit < 0 {
            0i64
        } else if limit > MAX_LIMIT {
            MAX_LIMIT
        } else {
            limit
        }),
{
    if limit < 0 {
        0
    } else if limit > MAX_LIMIT {
        MAX_LIMIT
    } else {
        limit
    }
}

} // verus!
