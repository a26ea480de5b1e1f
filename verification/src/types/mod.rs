//! Plain data types shared across the library.

pub mod aref;
pub mod cstring;
pub mod le;
pub mod locked;
pub mod scope_guard;

pub use aref::{ARef, AlwaysRefCounted};
pub use cstring::CString;
pub use le::{FromBytes, LE, LeInt};
pub use locked::{Lockable, Locked};
pub use scope_guard::ScopeGuard;
