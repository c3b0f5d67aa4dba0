//! Bearer-token authorization: mutating routes require an Authorization
//! header holding the server's shared secret.

use vstd::prelude::*;
use vstd::string::StringExecFns;

verus! {

/// The view of an optional header value.
pub open spec fn header_view(header: Option<&str>) -> Option<Seq<char>> {
    match header {
        Some(h) => Some(h@),
        None => None,
    }
}

/// A request is authorized exactly when it carries an Authorization
/// header reading `Bearer ` followed by the server's token.
pub open spec fn bearer_match(header: Option<Seq<char>>, token: Seq<char>) -> bool {
    match header {
        Some(h) => h == "Bearer "@ + token,
        None => false,
    }
}

/// Decides whether the Authorization header value authorizes a mutating
/// request against the server-held token.
pub fn authorize(header: Option<&str>, token: &str) -> (r: bool)
    ensures
        r == bearer_match(header_view(header), token@),
{
    match header {
        None => false,
        Some(h) => {
            let expected = String::from_str("Bearer ").concat(token);
            let given = h.to_owned();
            given.eq(&expected)
        },
    }
}

} // verus!
