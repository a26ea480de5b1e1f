//! Async support: executors, the decisions of socket futures, and
//! one-shot channels.

pub mod executor;
pub mod net;
pub mod oneshot;

pub use executor::{ArcWake, AutoStopHandle, Executor, RevocableTask};

use vstd::prelude::*;

verus! {

/// A future that yields once: its first poll is pending and asks for the
/// task to be woken again; its second poll is ready.
pub struct YieldNow {
    yielded: bool,
}

/// What one poll of a future decides: whether it is ready, and whether
/// the task must be woken to be polled again.
#[derive(Copy, Clone, Debug, PartialEq, Eq, Structural)]
pub struct PollStep {
    /// The future finished.
    pub ready: bool,
    /// Wake the task now (it is to be polled again).
    pub wake: bool,
}

impl YieldNow {
    /// The future has already yielded once.
    pub closed spec fn has_yielded(&self) -> bool {
        self.yielded
    }

    /// Poll the future.
    pub fn poll(&mut self) -> (step: PollStep)
        ensures
            step == (if old(self).has_yielded() {
                PollStep { ready: true, wake: false }
            } else {
                PollStep { ready: false, wake: true }
            }),
            final(self).has_yielded(),
    {
        if self.yielded {
            return PollStep { ready: true, wake: false };
        }
        self.yielded = true;
        PollStep { ready: false, wake: true }
    }
}

/// Yield the current async task once, letting other tasks run.
pub fn yield_now() -> (f: YieldNow)
    ensures
        !f.has_yielded(),
{
    YieldNow { yielded: false }
}

} // verus!
