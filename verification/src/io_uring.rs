//! Flags of io_uring custom commands.

use vstd::prelude::*;

verus! {

/// Flags passed by the io_uring core to a `uring_cmd` handler.
#[derive(Copy, Clone, Debug, PartialEq, Eq, Structural)]
pub struct IssueFlags(u32);

impl View for IssueFlags {
    type V = u32;

    /// The raw flags value.
    closed spec fn view(&self) -> u32 {
        self.0
    }
}

impl IssueFlags {
    /// Create from a raw flags value.
    pub fn from_raw(flags: u32) -> (f: Self)
        ensures
            f@ == flags,
    {
        IssueFlags(flags)
    }

    /// The raw flags value.
    pub fn raw(self) -> (flags: u32)
        ensures
            flags == self@,
    {
        self.0
    }
}

} // verus!
