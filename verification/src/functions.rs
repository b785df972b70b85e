//! Constant-returning functions that demonstrate return values.

use vstd::prelude::*;

verus! {

/// Returns the constant five.
pub fn five() -> (r: i32)
    ensures
        r == 5,
{
    5
}

/// Returns the constant six.
pub fn six() -> (r: i32)
    ensures
        r == 6,
{
    return 6;
}

} // verus!
