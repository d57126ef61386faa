//! Small functions of the shapes that the rewrite is meant for: a free
//! function with one typed parameter, and a method with a receiver and a
//! parameter that is a mutable reference.

use vstd::prelude::*;
use vstd::utf8::encode_utf8;
use crate::generics::insert_str;

verus! {

/// Takes a string and does nothing with it.
pub fn use_string(_x: String) {
}

/// Hands its string on to `use_string`.
pub fn generic_function(string_input: String) {
    use_string(string_input);
}

pub struct Foo;

impl Foo {
    /// Puts a fixed text in front of `input` and returns the new length in
    /// bytes.
    pub fn foo_method(self, input: &mut String) -> (len: usize)
        ensures
            final(input)@ == "some string operation"@ + old(input)@,
            len == encode_utf8(final(input)@).len() as usize,
    {
        insert_str(input, 0, "some string operation");
        input.as_str().len()
    }
}

} // verus!
