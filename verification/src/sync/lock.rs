//! Kernel lock backends: how the result of a non-blocking lock attempt is
//! read.

use vstd::prelude::*;

verus! {

/// Backend wrapping the kernel's `struct mutex`.
pub struct MutexBackend;

/// Backend wrapping the kernel's `spinlock_t`.
pub struct SpinLockBackend;

impl MutexBackend {
    /// Reading `mutex_trylock`'s return value: 1 on success, 0 on failure;
    /// any non-zero value means the lock was taken.
    pub fn try_lock_result(ret: i32) -> (r: Option<()>)
        ensures
            r.is_some() == (ret != 0),
    {
        if ret != 0 {
            Some(())
        } else {
            None
        }
    }
}

impl SpinLockBackend {
    /// Reading `spin_trylock`'s return value: non-zero on success.
    pub fn try_lock_result(ret: i32) -> (r: Option<()>)
        ensures
            r.is_some() == (ret != 0),
    {
        if ret != 0 {
            Some(())
        } else {
            None
        }
    }
}

} // verus!
