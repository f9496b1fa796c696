//! What the server answers on its routes.

use vstd::prelude::*;

verus! {

/// The body answered on `/`.
pub fn root() -> (r: &'static str)
    ensures
        r@ == "Hello, World!"@,
{
    "Hello, World!"
}

/// The body answered on `/health` while the server runs.
pub fn health_check() -> (r: &'static str)
    ensures
        r@ == "OK"@,
{
    "OK"
}

} // verus!
