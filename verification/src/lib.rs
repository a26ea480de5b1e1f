//! Verified core of a Linux kernel support library: error codes, time
//! values, socket addresses, reference counts, little-endian parsing and
//! the small state machines behind locks and revocable resources.

pub mod error;
pub mod time;
pub mod net;
pub mod sync;
pub mod revocable;
pub mod fs;
pub mod types;
pub mod kalloc;
pub mod io_uring;
pub mod iov;
pub mod kunit;
pub mod user;
pub mod printk;
pub mod unsafe_list;
pub mod kasync;
pub mod module;

use vstd::prelude::*;

verus! {

/// Compile-time check that two values have the same type.
pub fn assert_same_type<T>(a: T, b: T) {
}

} // verus!
