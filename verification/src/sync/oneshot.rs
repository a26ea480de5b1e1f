//! The receiving side of a completion-based one-shot channel: what the
//! receiver reads once the completion has been signalled.

use vstd::prelude::*;

verus! {

/// The value read after the completion was signalled: the value if the
/// sender sent one, `None` if it was dropped without sending.
pub fn read_value<T>(sent: bool, value: Option<T>) -> (r: Option<T>)
    requires
        sent ==> value.is_some(),
    ensures
        sent ==> r == value,
        !sent ==> r.is_none(),
{
    if sent {
        value
    } else {
        None
    }
}

/// What a receive with a timeout returns, given the jiffies that were left
/// when the wait ended: nothing if the wait timed out (none left),
/// otherwise the value read as by [`read_value`].
pub fn recv_timeout_value<T>(remaining: u64, sent: bool, value: Option<T>) -> (r: Option<T>)
    requires
        sent ==> value.is_some(),
    ensures
        remaining == 0 ==> r.is_none(),
        remaining > 0 && sent ==> r == value,
        remaining > 0 && !sent ==> r.is_none(),
{
    if remaining > 0 {
        read_value(sent, value)
    } else {
        None
    }
}

} // verus!
