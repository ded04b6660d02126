//! Borrow-polymorphic argument acceptance.
//!
//! An assertion that takes an expected value accepts it as an owned value,
//! a shared reference or a mutable reference, without separate overloads.
//! The operation narrows the argument to a single reference before
//! comparing or formatting, so the verdict and the report depend only on
//! the value the argument stands for, never on the form it was passed in.

use vstd::prelude::*;

verus! {

/// An argument convertible by reference to the canonical comparison type `V`.
pub trait ExpectedArg<V> {
    /// The canonical value this argument stands for.
    spec fn arg_value(&self) -> V;

    /// Narrow the argument to one reference to the canonical value.
    fn narrowed(&self) -> (r: &V)
        ensures
            *r == self.arg_value(),
    ;
}

impl<V> ExpectedArg<V> for V {
    open spec fn arg_value(&self) -> V {
        *self
    }

    fn narrowed(&self) -> (r: &V) {
        self
    }
}

impl<'a, V> ExpectedArg<V> for &'a V {
    open spec fn arg_value(&self) -> V {
        **self
    }

    fn narrowed(&self) -> (r: &V) {
        *self
    }
}

impl<'a, V> ExpectedArg<V> for &'a mut V {
    open spec fn arg_value(&self) -> V {
        **self
    }

    fn narrowed(&self) -> (r: &V) {
        &**self
    }
}

} // verus!
