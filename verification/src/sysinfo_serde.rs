//! A borrowing wrapper for values that leave the library for serialization.
//!
//! The wire format itself is an outside collaborator's business; this type
//! only carries a borrowed value to it, and its contract pins the wrapped
//! value, so a caller knows the serializer sees exactly what was handed in.

use vstd::prelude::*;

verus! {

/// A wrapper that carries a borrowed value to a serializer.
pub struct Ser<'a, T>(&'a T);

impl<'a, T> Ser<'a, T> {
    /// The value the wrapper carries.
    pub closed spec fn value(self) -> T {
        *self.0
    }

    /// Wraps a borrowed value.
    pub fn new(value: &'a T) -> (r: Self)
        ensures
            r.value() == *value,
    {
        Ser(value)
    }

    /// Hands the wrapped value back.
    pub fn get(&self) -> (r: &'a T)
        ensures
            *r == self.value(),
    {
        self.0
    }
}

} // verus!
