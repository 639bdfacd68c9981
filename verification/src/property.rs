//! A named mutable value with plain get/set access.
//!
//! Mutation goes through `&mut`, so the borrow rules serialize access
//! and no runtime lock is needed.

use vstd::prelude::*;

verus! {

/// A value exposed for editing.
#[derive(Clone, Copy, Debug)]
pub struct Property<T> {
    pub property: T,
}

impl<T> Property<T> {
    /// Wraps a starting value.
    pub fn new(value: T) -> (r: Property<T>)
        ensures
            r.property == value,
    {
        Property { property: value }
    }
}

impl<T: Copy> Property<T> {
    /// The current value.
    pub fn get(&self) -> (r: T)
        ensures
            r == self.property,
    {
        self.property
    }

    /// Replaces the value.
    pub fn set(&mut self, value: T)
        ensures
            final(self).property == value,
    {
        self.property = value;
    }
}

} // verus!
