//! Run-once primitives.

use vstd::prelude::*;
use vstd::pervasive::unreached;

verus! {

/// Ensures a piece of work is done exactly once.
#[derive(Clone, Copy, PartialEq, Eq, Structural, Debug)]
pub struct DoOnce(pub bool);

impl DoOnce {
    /// A tracker whose work has not been done yet.
    pub fn new() -> (r: DoOnce)
        ensures
            !r.0,
    {
        DoOnce(false)
    }

    /// Runs the closure if the work has not been done yet; afterwards
    /// the work counts as done, so every later call is a no-op that
    /// drops its closure uncalled.
    pub fn do_once<F: FnOnce() -> ()>(&mut self, func: F)
        requires
            !old(self).0 ==> call_requires(func, ()),
        ensures
            final(self).0,
            !old(self).0 ==> call_ensures(func, (), ()),
            old(self).0 ==> *final(self) == *old(self),
    {
        if !self.0 {
            func();
            self.0 = true;
        }
    }

    /// Whether the work has been done.
    pub fn done(&self) -> (r: bool)
        ensures
            r == self.0,
    {
        self.0
    }
}

/// A value set exactly once and then only read. Until it is set it
/// holds nothing; setting it twice is ruled out by contract.
#[derive(Clone, Debug)]
pub struct InitOnce<T> {
    pub inner: Option<T>,
}

impl<T> InitOnce<T> {
    /// An empty cell.
    pub fn uninitialized() -> (r: InitOnce<T>)
        ensures
            r.inner is None,
    {
        InitOnce { inner: None }
    }

    /// The value, if one was set.
    pub fn try_get(&self) -> (r: Option<&T>)
        ensures
            r is Some <==> self.inner is Some,
            r matches Some(v) ==> self.inner == Some(*v),
    {
        self.inner.as_ref()
    }

    /// The value; callers must know the cell was initialized.
    pub fn get(&self) -> (r: &T)
        requires
            self.inner is Some,
        ensures
            self.inner == Some(*r),
    {
        match &self.inner {
            Some(v) => v,
            None => unreached(),
        }
    }

    /// Sets the value of a cell that has none yet.
    pub fn initialize(&mut self, value: T)
        requires
            old(self).inner is None,
        ensures
            final(self).inner == Some(value),
    {
        self.inner = Some(value);
    }
}

} // verus!
