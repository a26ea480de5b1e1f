//! The decisions of socket futures: what a poll of a non-blocking socket
//! operation yields, how the waker is stored, and when the wait-queue
//! callback wakes the task.

use vstd::prelude::*;
use crate::error::{Error, EAGAIN, ENOMEM};
use crate::sync::nowaitlock::{NoWaitLock, UNLOCKED};

verus! {

/// The outcome of polling a future.
pub enum PollOutcome<T> {
    /// The operation finished with this result.
    Ready(Result<T, Error>),
    /// The operation would block; the task is woken when the socket is
    /// ready.
    Pending,
}

/// The poll outcome for a socket whose callback state could not be
/// allocated: `ENOMEM` at once.
pub fn missing_callback_state<T>() -> (p: PollOutcome<T>)
    ensures
        p matches PollOutcome::Ready(Err(e)) && e@ == -ENOMEM,
{
    PollOutcome::Ready(Err(Error::enomem()))
}

/// What a poll yields for the result of the non-blocking operation:
/// success is ready, `EAGAIN` is pending, any other error is ready with
/// that error (a non-negative value becomes `EINVAL`, as `from_errno`
/// does).
pub fn socket_poll_outcome<T>(op: Result<T, Error>) -> (p: PollOutcome<T>)
    ensures
        match op {
            Ok(v) => p == PollOutcome::<T>::Ready(Ok(v)),
            Err(e) => if e@ == -EAGAIN {
                p is Pending
            } else {
                p matches PollOutcome::Ready(Err(e2)) && (e@ < 0 ==> e2@ == e@) && (e@ >= 0 ==> e2@
                    == -crate::error::EINVAL)
            },
        },
{
    match op {
        Ok(v) => PollOutcome::Ready(Ok(v)),
        Err(e) => {
            let errno = e.to_errno();
            if errno == -EAGAIN {
                PollOutcome::Pending
            } else {
                PollOutcome::Ready(Err(Error::from_errno(errno)))
            }
        },
    }
}

/// Store the waker for the wait-queue callback, if the lock around it can
/// be taken; if it cannot, a wake is in progress and the task will be
/// polled again anyway. Returns whether the waker was stored.
pub fn store_waker<W>(slot: &mut NoWaitLock<Option<W>>, waker: W) -> (stored: bool)
    ensures
        stored == (old(slot).state() == UNLOCKED),
        stored ==> final(slot).state() == UNLOCKED && final(slot).value() == Some(waker),
        !stored ==> final(slot).value() == old(slot).value() && final(slot).is_locked(),
        final(slot).id() == old(slot).id(),
{
    match slot.try_lock() {
        Some(guard) => {
            let _ = slot.replace(&guard, Some(waker));
            guard.release(slot);
            true
        },
        None => false,
    }
}

/// The wait-queue callback: when the event matches the interest mask and
/// the waker can be reached without waiting, it is handed out to be woken
/// and the callback returns 1; otherwise it returns 0.
pub fn wake_decision<W: Copy>(
    slot: &mut NoWaitLock<Option<W>>,
    event_mask: u32,
    interest: u32,
) -> (r: (Option<W>, i32))
    ensures
        final(slot).value() == old(slot).value(),
        event_mask & interest == 0 ==> r == (None::<W>, 0i32) && final(slot).state() == old(slot).state(),
        event_mask & interest != 0 && old(slot).state() == UNLOCKED ==> final(slot).state() == UNLOCKED && (
        match old(slot).value() {
            Some(w) => r == (Some(w), 1i32),
            None => r == (None::<W>, 0i32),
        }),
        event_mask & interest != 0 && old(slot).state() != UNLOCKED ==> r == (None::<W>, 0i32)
            && final(slot).is_locked(),
        final(slot).id() == old(slot).id(),
{
    if event_mask & interest == 0 {
        return (None, 0);
    }
    match slot.try_lock() {
        Some(guard) => {
            let w = *slot.get(&guard);
            guard.release(slot);
            match w {
                Some(w) => (Some(w), 1),
                None => (None, 0),
            }
        },
        None => (None, 0),
    }
}

/// Whether a socket future's wait-queue entry is on the socket's wait
/// queue: it is added on the first poll and removed when the future goes
/// away.
pub struct WaitRegistration {
    queued: bool,
}

impl WaitRegistration {
    /// The entry is on the wait queue.
    pub closed spec fn is_queued(&self) -> bool {
        self.queued
    }

    /// A future that has not been polled: its entry is on no queue.
    pub fn new() -> (r: Self)
        ensures
            !r.is_queued(),
    {
        WaitRegistration { queued: false }
    }

    /// At a poll: whether the entry must be added to the wait queue now,
    /// which is only on the first poll. Afterwards it is queued.
    pub fn add_on_poll(&mut self) -> (add: bool)
        ensures
            add == !old(self).is_queued(),
            final(self).is_queued(),
    {
        let add = !self.queued;
        self.queued = true;
        add
    }

    /// When the future goes away: whether the entry must be removed from
    /// the wait queue, which is exactly when it was added.
    pub fn remove_on_drop(&self) -> (remove: bool)
        ensures
            remove == self.is_queued(),
    {
        self.queued
    }
}

} // verus!
