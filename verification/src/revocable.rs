//! Asynchronously revocable wrapper.
//!
//! [`AsyncRevocable<T>`] wraps a value and hands out guards granting access
//! to it while supporting revocation. Once revoked, no new guards are
//! handed out, and the value is dropped as soon as no guard is left: at
//! once when `revoke` finds no guard, otherwise when the last guard is
//! released.
//!
//! The usage word packs both facts: its low 31 bits count the guards and
//! bit 31 records revocation. Each operation is one atomic step on it.

use vstd::prelude::*;

verus! {

/// The bit of the usage word that records revocation.
pub const REVOKED_BIT: u32 = 0x8000_0000;

/// The usage word records revocation.
pub open spec fn word_revoked(w: u32) -> bool {
    w >= REVOKED_BIT
}

/// The number of guards the usage word counts (its low 31 bits).
pub open spec fn word_guards(w: u32) -> nat {
    (w % REVOKED_BIT) as nat
}

/// What an [`AsyncRevocable`] is, seen from outside: whether it has been
/// revoked, how many guards are out, and whether it still holds its value.
pub struct RevocableState {
    pub revoked: bool,
    pub guards: nat,
    pub present: bool,
}

/// An operation on an [`AsyncRevocable`].
pub enum RevocableOp {
    /// `try_access`.
    TryAccess,
    /// Giving a guard back (`AsyncRevocableGuard::release`).
    Release,
    /// `revoke`.
    Revoke,
}

/// The state of a freshly created wrapper.
pub open spec fn revocable_initial() -> RevocableState {
    RevocableState { revoked: false, guards: 0, present: true }
}

/// The operation may be performed in state `s`: a guard can only be given
/// back while one is out, and a granted access must not overflow the
/// guard count.
pub open spec fn revocable_op_allowed(s: RevocableState, op: RevocableOp) -> bool {
    match op {
        RevocableOp::TryAccess => s.revoked || s.guards < REVOKED_BIT - 1,
        RevocableOp::Release => s.guards > 0,
        RevocableOp::Revoke => true,
    }
}

/// The state after `op`: an access counts a guard unless revoked; a
/// release uncounts one and drops the value if it was the last guard of a
/// revoked wrapper; a revoke marks the wrapper revoked and drops the value
/// if no guard is out.
pub open spec fn revocable_step(s: RevocableState, op: RevocableOp) -> RevocableState {
    match op {
        RevocableOp::TryAccess => if s.revoked {
            s
        } else {
            RevocableState { revoked: false, guards: s.guards + 1, present: s.present }
        },
        RevocableOp::Release => RevocableState {
            revoked: s.revoked,
            guards: (s.guards - 1) as nat,
            present: s.present && !(s.revoked && s.guards == 1),
        },
        RevocableOp::Revoke => RevocableState {
            revoked: true,
            guards: s.guards,
            present: s.present && s.guards > 0,
        },
    }
}

/// The state after the operations `ops`, in order, from `s`.
pub open spec fn revocable_run(s: RevocableState, ops: Seq<RevocableOp>) -> RevocableState
    decreases ops.len(),
{
    if ops.len() == 0 {
        s
    } else {
        revocable_step(revocable_run(s, ops.drop_last()), ops.last())
    }
}

/// Every operation of `ops` is allowed in the state it is performed in.
pub open spec fn revocable_run_allowed(s: RevocableState, ops: Seq<RevocableOp>) -> bool
    decreases ops.len(),
{
    ops.len() == 0 || (revocable_run_allowed(s, ops.drop_last()) && revocable_op_allowed(
        revocable_run(s, ops.drop_last()),
        ops.last(),
    ))
}

/// How many of the operations `ops` from `s` drop the value.
pub open spec fn revocable_drops(s: RevocableState, ops: Seq<RevocableOp>) -> nat
    decreases ops.len(),
{
    if ops.len() == 0 {
        0
    } else {
        let before = revocable_run(s, ops.drop_last());
        let after = revocable_step(before, ops.last());
        revocable_drops(s, ops.drop_last()) + if before.present && !after.present {
            1nat
        } else {
            0nat
        }
    }
}

/// An asynchronously revocable wrapper around `T`.
pub struct AsyncRevocable<T> {
    usage_count: u32,
    data: Option<T>,
    id: Ghost<int>,
}

/// A guard granting access to the value of an [`AsyncRevocable`]; give it
/// back with [`AsyncRevocableGuard::release`].
pub struct AsyncRevocableGuard {
    owner: Ghost<int>,
}

impl<T> AsyncRevocable<T> {
    /// The wrapper has been revoked.
    pub closed spec fn revoked(&self) -> bool {
        word_revoked(self.usage_count)
    }

    /// The number of guards currently out.
    pub closed spec fn guards(&self) -> nat {
        word_guards(self.usage_count)
    }

    /// The wrapped value, or `None` once it has been dropped.
    pub closed spec fn value(&self) -> Option<T> {
        self.data
    }

    /// What the wrapper is, seen from outside.
    pub open spec fn state(&self) -> RevocableState {
        RevocableState { revoked: self.revoked(), guards: self.guards(), present: self.value().is_some() }
    }

    /// The identity of this wrapper: the guards it hands out carry it, and
    /// only a guard that carries it can reach or give back its value.
    pub closed spec fn id(&self) -> int {
        self.id@
    }

    /// The value is present exactly until the wrapper is revoked and no
    /// guard is left.
    pub open spec fn wf(&self) -> bool {
        self.value().is_none() <==> (self.revoked() && self.guards() == 0)
    }

    /// Create a new `AsyncRevocable` wrapping `data`.
    pub fn new(data: T) -> (r: Self)
        ensures
            r.wf(),
            !r.revoked(),
            r.guards() == 0,
            r.value() == Some(data),
            r.state() == revocable_initial(),
    {
        AsyncRevocable { usage_count: 0, data: Some(data), id: Ghost(arbitrary()) }
    }

    /// Try to obtain a guard granting access to the inner value.
    ///
    /// Returns `None` if the value has been revoked; otherwise counts one
    /// more guard.
    pub fn try_access(&mut self) -> (g: Option<AsyncRevocableGuard>)
        requires
            old(self).wf(),
            !old(self).revoked() ==> old(self).guards() < REVOKED_BIT - 1,
        ensures
            final(self).wf(),
            g.is_some() == !old(self).revoked(),
            final(self).revoked() == old(self).revoked(),
            final(self).guards() == (if old(self).revoked() {
                old(self).guards()
            } else {
                old(self).guards() + 1
            }),
            final(self).value() == old(self).value(),
            final(self).id() == old(self).id(),
            g matches Some(guard) ==> guard.owner() == old(self).id(),
            final(self).state() == revocable_step(old(self).state(), RevocableOp::TryAccess),
    {
        let val = self.usage_count;
        if val & REVOKED_BIT != 0 {
            proof {
                assert(val & REVOKED_BIT != 0 <==> val >= REVOKED_BIT) by (bit_vector);
            }
            return None;
        }
        proof {
            assert(val & REVOKED_BIT != 0 <==> val >= REVOKED_BIT) by (bit_vector);
        }
        self.usage_count = val + 1;
        Some(AsyncRevocableGuard { owner: Ghost(self.id@) })
    }

    /// Revoke the wrapper, preventing new access.
    ///
    /// Returns `true` if no guards were active (the value is dropped at
    /// once); `false` if guards are still active (the last one to be
    /// released drops it) or the wrapper was already revoked.
    pub fn revoke(&mut self) -> (dropped_now: bool)
        requires
            old(self).wf(),
        ensures
            final(self).wf(),
            final(self).revoked(),
            final(self).guards() == old(self).guards(),
            dropped_now == (!old(self).revoked() && old(self).guards() == 0),
            old(self).revoked() || old(self).guards() > 0 ==> final(self).value() == old(self).value(),
            final(self).value().is_none() == (final(self).guards() == 0),
            final(self).id() == old(self).id(),
            final(self).state() == revocable_step(old(self).state(), RevocableOp::Revoke),
    {
        let prev = self.usage_count;
        self.usage_count = prev | REVOKED_BIT;
        proof {
            assert(prev & REVOKED_BIT != 0 <==> prev >= REVOKED_BIT) by (bit_vector);
            assert((prev | REVOKED_BIT) >= REVOKED_BIT) by (bit_vector);
            assert((prev | REVOKED_BIT) % REVOKED_BIT == prev % REVOKED_BIT) by (bit_vector);
        }
        if prev & REVOKED_BIT != 0 {
            return false;
        }
        if prev == 0 {
            self.data = None;
            return true;
        }
        false
    }

    /// Whether this wrapper has been revoked.
    pub fn is_revoked(&self) -> (r: bool)
        ensures
            r == self.revoked(),
    {
        proof {
            let w = self.usage_count;
            assert(w & REVOKED_BIT != 0 <==> w >= REVOKED_BIT) by (bit_vector);
        }
        self.usage_count & REVOKED_BIT != 0
    }

    /// The wrapped value, reached through an active guard.
    pub fn get(&self, guard: &AsyncRevocableGuard) -> (v: &T)
        requires
            self.wf(),
            self.guards() > 0,
            guard.owner() == self.id(),
        ensures
            self.value() == Some(*v),
    {
        self.data.as_ref().unwrap()
    }
}

impl AsyncRevocableGuard {
    /// The identity of the wrapper that handed out this guard.
    pub closed spec fn owner(&self) -> int {
        self.owner@
    }

    /// Give the guard back. If it was the last guard of a revoked wrapper,
    /// the value is dropped now.
    pub fn release<T>(self, rev: &mut AsyncRevocable<T>)
        requires
            old(rev).wf(),
            old(rev).guards() > 0,
            self.owner() == old(rev).id(),
        ensures
            final(rev).wf(),
            final(rev).revoked() == old(rev).revoked(),
            final(rev).guards() == old(rev).guards() - 1,
            final(rev).value().is_none() == (old(rev).revoked() && old(rev).guards() == 1),
            final(rev).value().is_some() ==> final(rev).value() == old(rev).value(),
            final(rev).id() == old(rev).id(),
            final(rev).state() == revocable_step(old(rev).state(), RevocableOp::Release),
    {
        let prev = rev.usage_count;
        proof {
            assert(prev % REVOKED_BIT > 0 ==> prev > 0) by (bit_vector);
        }
        rev.usage_count = prev - 1;
        proof {
            let n = (prev - 1) as u32;
            assert(prev % REVOKED_BIT > 0 ==> (n >= REVOKED_BIT <==> prev >= REVOKED_BIT)) by (bit_vector)
                requires n == (prev - 1) as u32, prev > 0;
            assert(prev % REVOKED_BIT > 0 ==> n % REVOKED_BIT == prev % REVOKED_BIT - 1) by (bit_vector)
                requires n == (prev - 1) as u32, prev > 0;
            assert(prev == REVOKED_BIT | 1 <==> (prev >= REVOKED_BIT && prev % REVOKED_BIT == 1)) by (bit_vector);
        }
        if prev == REVOKED_BIT | 1 {
            rev.data = None;
        }
    }
}

/// The revocation laws, over any allowed sequence of operations on a new
/// wrapper: it is revoked exactly when `revoke` ran at least once, and
/// stays revoked; the value is dropped at most once, and it is gone exactly
/// when the wrapper is revoked and no guard is out. So a `revoke` finding
/// guards out leaves the dropping to the last release, and a second
/// `revoke` drops nothing.
pub proof fn lemma_revocation(ops: Seq<RevocableOp>)
    requires
        revocable_run_allowed(revocable_initial(), ops),
    ensures
        revocable_run(revocable_initial(), ops).revoked == ops.contains(RevocableOp::Revoke),
        revocable_drops(revocable_initial(), ops) <= 1,
        (revocable_drops(revocable_initial(), ops) == 1) == !revocable_run(revocable_initial(), ops).present,
        !revocable_run(revocable_initial(), ops).present <==> (revocable_run(revocable_initial(), ops).revoked
            && revocable_run(revocable_initial(), ops).guards == 0),
    decreases ops.len(),
{
    if ops.len() > 0 {
        let rest = ops.drop_last();
        lemma_revocation(rest);
        let last = ops.last();
        if rest.contains(RevocableOp::Revoke) {
            let i = choose|i: int| 0 <= i < rest.len() && rest[i] == RevocableOp::Revoke;
            assert(ops[i] == RevocableOp::Revoke);
        }
        if last == RevocableOp::Revoke {
            assert(ops[ops.len() - 1] == RevocableOp::Revoke);
        }
        if ops.contains(RevocableOp::Revoke) && last != RevocableOp::Revoke {
            let i = choose|i: int| 0 <= i < ops.len() && ops[i] == RevocableOp::Revoke;
            assert(rest[i] == RevocableOp::Revoke);
        }
    }
}

} // verus!
