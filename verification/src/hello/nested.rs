//! The canonical greeting.

use vstd::prelude::*;

verus! {

broadcast use vstd::string::group_string_axioms;

/// The greeting text, as a sequence of characters.
pub open spec fn greeting() -> Seq<char> {
    "Hello, world!"@
}

/// Returns the greeting as an owned string.
pub fn output() -> (text: String)
    ensures
        text@ == greeting(),
{
    "Hello, world!".to_string()
}

/// Public entry point for the greeting; always equal to [`output`].
pub fn extern_output() -> (text: String)
    ensures
        text@ == greeting(),
{
    output()
}

} // verus!
