//! The credential predicate: anonymous access only.
use vstd::prelude::*;

use crate::text::str_eq;

verus! {

/// Accepts the anonymous user with any password and rejects everyone else.
pub fn validate(username: &str, _password: &str) -> (r: bool)
    ensures
        r == (username@ == "anonymous"@),
{
    str_eq(username, "anonymous")
}

} // verus!
