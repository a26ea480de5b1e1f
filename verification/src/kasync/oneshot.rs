//! One-shot channels: the shared state between the sending and the
//! receiving half, and what each of their operations does to it.
//!
//! The state word records whether a value was sent or the sender went away
//! without sending; a reference count of the live halves (2 at first)
//! decides which half frees the shared state.

use vstd::prelude::*;

verus! {

/// No value yet and the sender is alive.
pub const STATE_EMPTY: u8 = 0;
/// The value was sent.
pub const STATE_SENT: u8 = 1;
/// The sender went away without sending.
pub const STATE_CLOSED: u8 = 2;

/// What a sender's operation asks the caller to do afterwards.
#[derive(Copy, Clone, Debug, PartialEq, Eq, Structural)]
pub struct SenderStep {
    /// Wake the receiver's stored waker.
    pub wake: bool,
    /// This was the last half: free the shared state.
    pub free: bool,
}

/// The shared state of a one-shot channel.
pub struct Channel<T> {
    state: u8,
    value: Option<T>,
    waker_set: bool,
    refcount: u8,
}

impl<T> Channel<T> {
    /// The state word.
    pub closed spec fn state(&self) -> u8 {
        self.state
    }

    /// The value waiting for the receiver.
    pub closed spec fn value(&self) -> Option<T> {
        self.value
    }

    /// The receiver has stored a waker.
    pub closed spec fn waker_set(&self) -> bool {
        self.waker_set
    }

    /// Number of live halves.
    pub closed spec fn refs(&self) -> nat {
        self.refcount as nat
    }

    /// The sender is alive (it has neither sent nor gone away).
    pub open spec fn sender_alive(&self) -> bool {
        self.state() == STATE_EMPTY
    }

    /// The receiver is alive.
    pub open spec fn receiver_alive(&self) -> bool {
        self.refs() == (if self.sender_alive() { 2nat } else { 1nat })
    }

    /// The reference count counts the live halves, and a value waits only
    /// after a send.
    pub open spec fn wf(&self) -> bool {
        &&& self.state() <= STATE_CLOSED
        &&& self.refs() <= 2
        &&& self.sender_alive() ==> self.refs() >= 1
        &&& self.value().is_some() ==> self.state() == STATE_SENT
    }

    /// The channel after the sender sent `v`.
    pub closed spec fn sent(self, v: T) -> Self {
        Channel { state: STATE_SENT, value: Some(v), waker_set: false, refcount: (self.refcount - 1) as u8 }
    }

    /// The channel after the sender went away without sending.
    pub closed spec fn sender_dropped(self) -> Self {
        Channel { state: STATE_CLOSED, value: self.value, waker_set: false, refcount: (self.refcount - 1) as u8 }
    }

    /// What a poll by the receiver returns: `Some(result)` once the sender
    /// is done, `None` while it is pending.
    pub open spec fn poll_result(self) -> Option<Option<T>> {
        if self.state() == STATE_SENT {
            Some(self.value())
        } else if self.state() == STATE_CLOSED {
            Some(None)
        } else {
            None
        }
    }

    /// A new channel: both halves alive, nothing sent.
    pub fn new() -> (c: Self)
        ensures
            c.wf(),
            c.sender_alive(),
            c.receiver_alive(),
            c.value().is_none(),
            !c.waker_set(),
    {
        Channel { state: STATE_EMPTY, value: None, waker_set: false, refcount: 2 }
    }

    /// The sender sends `value` and goes away: the receiver is woken if it
    /// is waiting, and the state is freed if the receiver is already gone.
    pub fn send(&mut self, value: T) -> (step: SenderStep)
        requires
            old(self).wf(),
            old(self).sender_alive(),
        ensures
            final(self).wf(),
            final(self).state() == STATE_SENT,
            final(self).value() == Some(value),
            *final(self) == old(self).sent(value),
            !final(self).waker_set(),
            final(self).refs() == old(self).refs() - 1,
            final(self).receiver_alive() == old(self).receiver_alive(),
            step.wake == old(self).waker_set(),
            step.free == (old(self).refs() == 1),
    {
        self.value = Some(value);
        self.state = STATE_SENT;
        let wake = self.waker_set;
        self.waker_set = false;
        let free = self.refcount == 1;
        self.refcount = self.refcount - 1;
        SenderStep { wake, free }
    }

    /// The sender goes away without sending: the receiver is woken if it is
    /// waiting, and the state is freed if the receiver is already gone.
    pub fn drop_sender(&mut self) -> (step: SenderStep)
        requires
            old(self).wf(),
            old(self).sender_alive(),
        ensures
            final(self).wf(),
            final(self).state() == STATE_CLOSED,
            final(self).value().is_none(),
            *final(self) == old(self).sender_dropped(),
            !final(self).waker_set(),
            final(self).refs() == old(self).refs() - 1,
            final(self).receiver_alive() == old(self).receiver_alive(),
            step.wake == old(self).waker_set(),
            step.free == (old(self).refs() == 1),
    {
        self.state = STATE_CLOSED;
        let wake = self.waker_set;
        self.waker_set = false;
        let free = self.refcount == 1;
        self.refcount = self.refcount - 1;
        SenderStep { wake, free }
    }

    /// The receiver polls: the sent value, `Some(None)` once the sender went
    /// away without sending, or `None` (pending, with the waker stored)
    /// while nothing has happened yet.
    pub fn poll(&mut self) -> (r: Option<Option<T>>)
        requires
            old(self).wf(),
            old(self).receiver_alive(),
        ensures
            final(self).wf(),
            final(self).receiver_alive(),
            final(self).state() == old(self).state(),
            r == old(self).poll_result(),
            old(self).state() == STATE_SENT ==> r == Some(old(self).value()) && final(self).value().is_none(),
            old(self).state() == STATE_CLOSED ==> r == Some(None::<T>),
            old(self).state() == STATE_EMPTY ==> r.is_none() && final(self).waker_set()
                && final(self).value() == old(self).value(),
    {
        if self.state == STATE_SENT {
            let mut v: Option<T> = None;
            std::mem::swap(&mut v, &mut self.value);
            Some(v)
        } else if self.state == STATE_CLOSED {
            Some(None)
        } else {
            self.waker_set = true;
            None
        }
    }

    /// The receiver goes away; the state is freed if the sender is already
    /// gone.
    pub fn drop_receiver(&mut self) -> (free: bool)
        requires
            old(self).wf(),
            old(self).receiver_alive(),
        ensures
            final(self).wf(),
            !final(self).receiver_alive() || final(self).refs() == 0,
            final(self).refs() == old(self).refs() - 1,
            final(self).state() == old(self).state(),
            free == (old(self).refs() == 1),
    {
        let free = self.refcount == 1;
        self.refcount = self.refcount - 1;
        free
    }
}

/// The receiver gets exactly what happened to the sender: on a channel
/// where both halves are alive, a send of `v` makes the receiver's poll
/// return `Some(v)`, the sender going away unsent makes it return `None`,
/// and before either the poll is pending.
pub proof fn lemma_receive_matches_send<T>(c: Channel<T>, v: T)
    requires
        c.wf(),
        c.sender_alive(),
        c.receiver_alive(),
    ensures
        c.poll_result().is_none(),
        c.sent(v).poll_result() == Some(Some(v)),
        c.sender_dropped().poll_result() == Some(None::<T>),
        c.sent(v).receiver_alive(),
        c.sender_dropped().receiver_alive(),
{
}

} // verus!
