//! A non-blocking try-only lock with contention reporting.
//!
//! [`NoWaitLock`] provides only `try_lock`, never blocking. Releasing the
//! lock with [`NoWaitLockGuard::unlock`] reports whether another attempt to
//! take it failed while it was held, so the holder can make up for a missed
//! wake-up.
//!
//! The lock word moves between three states; each operation below is one
//! atomic step on it.

use vstd::prelude::*;

verus! {

/// Nobody holds the lock.
pub const UNLOCKED: u8 = 0;
/// The lock is held and nobody else has tried to take it.
pub const LOCKED: u8 = 1;
/// The lock is held and at least one attempt to take it has failed.
pub const LOCKED_CONTENDED: u8 = 2;

/// The lock word after one `try_lock` on lock word `s`.
pub open spec fn state_after_try_lock(s: u8) -> u8 {
    if s == UNLOCKED {
        LOCKED
    } else if s == LOCKED {
        LOCKED_CONTENDED
    } else {
        s
    }
}

/// The lock word after `k` `try_lock` attempts starting from `s`.
pub open spec fn state_after_attempts(s: u8, k: nat) -> u8
    decreases k,
{
    if k == 0 {
        s
    } else {
        state_after_try_lock(state_after_attempts(s, (k - 1) as nat))
    }
}

/// A non-blocking mutual-exclusion lock around a value of type `T`.
pub struct NoWaitLock<T> {
    state: u8,
    data: T,
    id: Ghost<int>,
}

/// Proof that the lock was taken, handed out by a successful `try_lock` and
/// given back by `unlock`.
pub struct NoWaitLockGuard {
    owner: Ghost<int>,
}

impl<T> NoWaitLock<T> {
    /// The lock word.
    pub closed spec fn state(&self) -> u8 {
        self.state
    }

    /// The protected value.
    pub closed spec fn value(&self) -> T {
        self.data
    }

    /// The identity of this lock: the guard it hands out carries it, and
    /// only a guard that carries it can reach the value or release the lock.
    pub closed spec fn id(&self) -> int {
        self.id@
    }

    /// The lock is held.
    pub open spec fn is_locked(&self) -> bool {
        self.state() != UNLOCKED
    }

    /// The lock word is always one of its three states.
    #[verifier::type_invariant]
    spec fn three_states(&self) -> bool {
        self.state <= LOCKED_CONTENDED
    }

    /// Create a new unlocked `NoWaitLock`.
    pub fn new(val: T) -> (l: Self)
        ensures
            l.state() == UNLOCKED,
            l.value() == val,
    {
        NoWaitLock { state: UNLOCKED, data: val, id: Ghost(arbitrary()) }
    }

    /// Try to acquire the lock without blocking.
    ///
    /// Returns `None` if the lock is already held; the failed attempt is
    /// then recorded, so that the holder's `unlock` returns `true`.
    pub fn try_lock(&mut self) -> (g: Option<NoWaitLockGuard>)
        ensures
            g.is_some() == (old(self).state() == UNLOCKED),
            final(self).state() == state_after_try_lock(old(self).state()),
            final(self).value() == old(self).value(),
            final(self).id() == old(self).id(),
            g matches Some(guard) ==> guard.owner() == old(self).id(),
            final(self).state() <= LOCKED_CONTENDED,
    {
        proof {
            use_type_invariant(&*self);
        }
        if self.state == UNLOCKED {
            self.state = LOCKED;
            Some(NoWaitLockGuard { owner: Ghost(self.id@) })
        } else {
            if self.state == LOCKED {
                self.state = LOCKED_CONTENDED;
            }
            None
        }
    }

    /// Shared access to the protected value while holding the lock.
    pub fn get(&self, guard: &NoWaitLockGuard) -> (v: &T)
        requires
            self.is_locked(),
            guard.owner() == self.id(),
        ensures
            *v == self.value(),
    {
        &self.data
    }

    /// Replace the protected value while holding the lock, returning the
    /// previous one.
    pub fn replace(&mut self, guard: &NoWaitLockGuard, val: T) -> (prev: T)
        requires
            old(self).is_locked(),
            guard.owner() == old(self).id(),
        ensures
            prev == old(self).value(),
            final(self).value() == val,
            final(self).state() == old(self).state(),
            final(self).id() == old(self).id(),
    {
        proof {
            use_type_invariant(&*self);
        }
        let mut prev = val;
        core::mem::swap(&mut self.data, &mut prev);
        prev
    }
}

impl NoWaitLockGuard {
    /// The identity of the lock that handed out this guard.
    pub closed spec fn owner(&self) -> int {
        self.owner@
    }

    /// Release the lock and return whether contention was detected: `true`
    /// if some `try_lock` failed while the lock was held.
    pub fn unlock<T>(self, lock: &mut NoWaitLock<T>) -> (contended: bool)
        requires
            old(lock).is_locked(),
            self.owner() == old(lock).id(),
        ensures
            final(lock).state() == UNLOCKED,
            contended == (old(lock).state() == LOCKED_CONTENDED),
            final(lock).value() == old(lock).value(),
            final(lock).id() == old(lock).id(),
    {
        let prev = lock.state;
        lock.state = UNLOCKED;
        prev == LOCKED_CONTENDED
    }
}

impl NoWaitLockGuard {
    /// Release the lock without asking about contention (what dropping the
    /// guard does).
    pub fn release<T>(self, lock: &mut NoWaitLock<T>)
        requires
            old(lock).is_locked(),
            self.owner() == old(lock).id(),
        ensures
            final(lock).state() == UNLOCKED,
            final(lock).value() == old(lock).value(),
            final(lock).id() == old(lock).id(),
    {
        lock.state = UNLOCKED;
    }
}

/// The lock reports contention exactly when it should: after the lock is
/// taken (word `LOCKED`), any `k` further attempts fail and leave it held,
/// and the release that follows reports contention iff `k > 0`.
pub proof fn lemma_contention_reported(k: nat)
    ensures
        state_after_attempts(LOCKED, k) != UNLOCKED,
        (state_after_attempts(LOCKED, k) == LOCKED_CONTENDED) == (k > 0),
    decreases k,
{
    if k > 0 {
        lemma_contention_reported((k - 1) as nat);
    }
}

/// Mutual exclusion: from any state but unlocked, every attempt fails, so at
/// most one guard is out at a time.
pub proof fn lemma_held_lock_refuses(s: u8, k: nat)
    requires
        s == LOCKED || s == LOCKED_CONTENDED,
    ensures
        state_after_attempts(s, k) == LOCKED || state_after_attempts(s, k) == LOCKED_CONTENDED,
    decreases k,
{
    if k > 0 {
        lemma_held_lock_refuses(s, (k - 1) as nat);
    }
}

} // verus!
