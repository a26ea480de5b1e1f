//! Running a cleanup action when a scope ends.

use vstd::prelude::*;

verus! {

/// Holds a cleanup action to run when the scope ends.
pub struct ScopeGuard<F: FnOnce()> {
    cleanup: Option<F>,
}

impl<F: FnOnce()> ScopeGuard<F> {
    /// The pending cleanup action.
    pub closed spec fn pending(&self) -> Option<F> {
        self.cleanup
    }

    /// A guard that will run `cleanup`.
    pub fn new(cleanup: F) -> (g: Self)
        ensures
            g.pending() == Some(cleanup),
    {
        ScopeGuard { cleanup: Some(cleanup) }
    }

    /// End the scope: run the cleanup action, once.
    pub fn finish(self)
        requires
            self.pending() matches Some(f) ==> f.requires(()),
        ensures
            self.pending() matches Some(f) ==> f.ensures((), ()),
    {
        match self.cleanup {
            Some(f) => f(),
            None => {},
        }
    }
}

} // verus!
