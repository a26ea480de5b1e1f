//! Reference counting with the kernel `refcount_t` operations.
//!
//! The counter is modelled as a plain integer owned by the `Refcount`: each
//! operation is one atomic step of the kernel counter, and the wrapping
//! arithmetic is that of the atomic fetch-add / fetch-sub it stands for.

use vstd::prelude::*;

verus! {

/// The count after one increment (wrapping, as an atomic fetch-add does).
pub open spec fn inc_count(v: i32) -> i32 {
    if v == i32::MAX {
        i32::MIN
    } else {
        (v + 1) as i32
    }
}

/// The count after one decrement (wrapping, as an atomic fetch-sub does).
pub open spec fn dec_count(v: i32) -> i32 {
    if v == i32::MIN {
        i32::MAX
    } else {
        (v - 1) as i32
    }
}

/// Reference counter.
pub struct Refcount {
    refs: i32,
}

impl View for Refcount {
    type V = i32;

    /// The current count.
    closed spec fn view(&self) -> i32 {
        self.refs
    }
}

impl Refcount {
    /// Construct a new `Refcount` with the given initial value.
    pub fn new(value: i32) -> (r: Self)
        ensures
            r@ == value,
    {
        Refcount { refs: value }
    }

    /// Set the reference count value.
    pub fn set(&mut self, value: i32)
        ensures
            final(self)@ == value,
    {
        self.refs = value;
    }

    /// Read the current reference count value.
    pub fn get(&self) -> (v: i32)
        ensures
            v == self@,
    {
        self.refs
    }

    /// Increment the reference count. The caller must already hold a
    /// reference, so the count is positive.
    pub fn inc(&mut self)
        requires
            old(self)@ > 0,
        ensures
            final(self)@ == inc_count(old(self)@),
    {
        self.refs = self.refs.wrapping_add(1);
    }

    /// Decrement the reference count, returning `true` if this dropped the
    /// last reference (the count was 1 and is now 0).
    pub fn dec_and_test(&mut self) -> (last: bool)
        ensures
            final(self)@ == dec_count(old(self)@),
            last == (old(self)@ == 1),
    {
        let old_refs = self.refs;
        self.refs = self.refs.wrapping_sub(1);
        old_refs == 1
    }
}

/// Taking a reference and dropping it again leaves the count as it was,
/// and that drop is never the last one while a reference is still held.
pub proof fn lemma_inc_then_dec(v: i32)
    requires
        v > 0,
    ensures
        dec_count(inc_count(v)) == v,
        inc_count(v) != 1,
{
}

/// Starting from `n` held references, `n` drops bring the count to zero,
/// and only the last of them reports the last reference: the drop that
/// reports `true` is the `n`-th one.
pub proof fn lemma_drops_reach_zero(n: i32, k: nat)
    requires
        n > 0,
        k <= n,
    ensures
        dec_n(n, k) == n - k,
        k < n ==> (dec_n(n, k) == 1 <==> k == n - 1),
    decreases k,
{
    if k > 0 {
        lemma_drops_reach_zero(n, (k - 1) as nat);
    }
}

/// The count after `k` decrements starting at `v`.
pub open spec fn dec_n(v: i32, k: nat) -> i32
    decreases k,
{
    if k == 0 {
        v
    } else {
        dec_count(dec_n(v, (k - 1) as nat))
    }
}

} // verus!
