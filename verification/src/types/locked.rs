//! Lock guards generic over the kind of lock.

use vstd::prelude::*;

verus! {

/// Objects that can be locked with lock kind `L`.
pub trait Lockable<L> {
    /// Acquire the lock.
    fn raw_lock(&self);

    /// Release the lock, which the caller holds.
    fn unlock(&self);
}

/// A guard over a locked object: it either took the lock itself (and
/// releases it) or stands for a lock someone else holds (and leaves it).
pub struct Locked<'a, T: Lockable<L>, L> {
    inner: &'a T,
    owns_lock: bool,
    _lock: core::marker::PhantomData<L>,
}

impl<'a, T: Lockable<L>, L> Locked<'a, T, L> {
    /// The guarded object.
    pub closed spec fn object(&self) -> T {
        *self.inner
    }

    /// The guard took the lock and must release it.
    pub closed spec fn owns(&self) -> bool {
        self.owns_lock
    }

    /// Acquire the lock and return a guard that releases it.
    pub fn new(inner: &'a T) -> (g: Self)
        ensures
            g.object() == *inner,
            g.owns(),
    {
        inner.raw_lock();
        Locked { inner, owns_lock: true, _lock: core::marker::PhantomData }
    }

    /// A guard for an object whose lock is already held by someone else;
    /// it does not release the lock.
    pub fn borrowed(inner: &'a T) -> (g: Self)
        ensures
            g.object() == *inner,
            !g.owns(),
    {
        Locked { inner, owns_lock: false, _lock: core::marker::PhantomData }
    }

    /// The guarded object.
    pub fn get(&self) -> (r: &'a T)
        ensures
            *r == self.object(),
    {
        self.inner
    }

    /// End the guard, releasing the lock if the guard took it.
    pub fn release(self) -> (released: bool)
        ensures
            released == self.owns(),
    {
        if self.owns_lock {
            self.inner.unlock();
            true
        } else {
            false
        }
    }
}

} // verus!
