//! Functions that move owned strings in and out, demonstrating ownership
//! transfer.

use vstd::prelude::*;

verus! {

/// Produces a fresh owned string and hands it to the caller.
pub fn gives_ownership() -> (r: String)
    ensures
        r@ == "yours"@,
{
    "yours".to_owned()
}

/// Takes ownership of a string and returns the same string.
pub fn takes_and_gives_back(a_string: String) -> (r: String)
    ensures
        r == a_string,
{
    a_string
}

/// Returns an owned string together with an integer.
pub fn multiple_returns() -> (r: (String, i32))
    ensures
        r.0@ == "hello"@,
        r.1 == 6,
{
    ("hello".to_owned(), 6)
}

} // verus!
