//! The plain-text responders that the router serves itself: the root
//! liveness reply and the catch-all reply that echoes an unmatched path.

use vstd::prelude::*;
use vstd::string::StringExecFns;

verus! {

/// The liveness reply of the root route.
pub fn root() -> (r: &'static str)
    ensures
        r@ == "It works"@,
{
    "It works"
}

/// The catch-all reply: names the path no route matched.
pub fn not_found(uri: &str) -> (r: String)
    ensures
        r@ == "Not found: "@ + uri@,
{
    String::from_str("Not found: ").concat(uri)
}

} // verus!
