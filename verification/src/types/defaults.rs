//! Values that stand in for what a record leaves out.

use vstd::prelude::*;

verus! {

/// The scheme of a bearer token, as text.
pub open spec fn bearer() -> Seq<char> {
    "Bearer"@
}

/// The scheme a token is presented under when none was given.
#[inline]
pub fn token_type() -> (scheme: String)
    ensures
        scheme@ == bearer(),
{
    String::from_str("Bearer")
}

} // verus!
