//! Synchronisation primitives: reference counts and the try-only lock.

pub mod arc;
pub mod lock;
pub mod nowaitlock;
pub mod oneshot;
pub mod refcount;

pub use arc::{Arc, ArcBorrow, UniqueArc};
pub use lock::{MutexBackend, SpinLockBackend};
pub use nowaitlock::{NoWaitLock, NoWaitLockGuard};
pub use refcount::Refcount;
