//! Functions that borrow strings, demonstrating shared and mutable
//! references.

use vstd::prelude::*;
use vstd::string::StringExecFns;
use vstd::utf8::encode_utf8;

verus! {

/// Returns the length in bytes of the borrowed string's UTF-8 encoding.
pub fn calculate_length(s: &String) -> (r: usize)
    ensures
        r == encode_utf8(s@).len() as usize,
        encode_utf8(s@).len() <= usize::MAX ==> r == encode_utf8(s@).len(),
{
    s.as_str().len()
}

/// Appends ", world" to the borrowed string in place.
pub fn change(some_string: &mut String)
    ensures
        final(some_string)@ == old(some_string)@ + ", world"@,
{
    some_string.append(", world");
}

/// Builds a string locally and returns it by value, so no reference to a
/// dropped local ever escapes.
pub fn dangle() -> (r: String)
    ensures
        r@ == "hello"@,
{
    "hello".to_owned()
}

} // verus!
