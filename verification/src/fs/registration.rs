//! Filesystem registration: whether an inode cache is made, and what the
//! result of `register_filesystem` becomes.

use vstd::prelude::*;
use crate::error::{Error, EINVAL};

verus! {

/// Whether a filesystem gets its own inode slab cache: only when its inodes
/// carry per-inode data of non-zero size.
pub fn inode_cache_needed(data_size: usize) -> (b: bool)
    ensures
        b == (data_size != 0),
{
    data_size != 0
}

/// What registration makes of `register_filesystem`'s return value: 0 is
/// success; a negative errno becomes the error carrying it. The kernel
/// returns no positive value; one would be refused as `-EINVAL`.
pub fn register_outcome(ret: i32) -> (r: Result<(), Error>)
    ensures
        ret == 0 ==> r.is_ok(),
        ret < 0 ==> (r matches Err(e) && e@ == ret),
        ret > 0 ==> (r matches Err(e) && e@ == -EINVAL),
{
    if ret != 0 {
        Err(Error::from_errno(ret))
    } else {
        Ok(())
    }
}

} // verus!
