//! Filesystem support: directory entries, inode set-up, super-block
//! parameters, and the page arithmetic behind folio and block-device reads.

pub mod dentry;
pub mod dir;
pub mod folio;
pub mod inode;
pub mod mapper;
pub mod registration;
pub mod sb;
pub mod vtable;

pub use dir::{DirEntryType, Whence};
pub use folio::PageCache;
pub use inode::{INodeParams, INodeType, ReadSem, Time};
pub use sb::SuperParams;

use vstd::prelude::*;

verus! {

/// Page size in bytes.
pub const PAGE_SIZE: usize = 4096;

/// Filesystem statistics, a subset of `struct kstatfs`.
pub struct Stat {
    /// Filesystem magic number.
    pub magic: usize,
    /// Maximum filename length.
    pub namelen: isize,
    /// Block size.
    pub bsize: isize,
    /// Total number of files (inodes).
    pub files: u64,
    /// Total number of blocks.
    pub blocks: u64,
}

} // verus!
