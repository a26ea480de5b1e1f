//! Super-block parameters and the decisions made when setting up a
//! super-block and looking up its inodes.

use vstd::prelude::*;
use crate::error::{Error, ENOMEM};

verus! {

/// The `I_NEW` inode state flag, set on inodes freshly allocated by
/// `iget_locked`.
pub const I_NEW: u32 = 1;

/// The `SB_RDONLY` super-block flag.
pub const SB_RDONLY: u64 = 1;

/// How a filesystem's superblocks are keyed.
#[derive(Copy, Clone, Debug, PartialEq, Eq, Structural)]
pub enum Type {
    /// Memory-backed, anonymous mount (`get_tree_nodev`).
    Independent,
    /// Block-device-backed mount (`get_tree_bdev`).
    BlockDev,
}

/// Parameters for initializing a super_block.
#[derive(Copy, Clone, Debug, PartialEq, Eq, Structural)]
pub struct SuperParams {
    /// Maximum file size.
    pub maxbytes: i64,
    /// Block size as log2 (e.g., 12 for 4096).
    pub blocksize_bits: u8,
    /// Filesystem magic number.
    pub magic: u64,
    /// Timestamp granularity in nanoseconds.
    pub time_gran: u32,
}

/// The values `init_simple` writes into a super-block.
#[derive(Copy, Clone, Debug, PartialEq, Eq, Structural)]
pub struct SuperInit {
    /// `s_maxbytes`.
    pub maxbytes: i64,
    /// `s_blocksize`, the block size in bytes.
    pub blocksize: u64,
    /// `s_blocksize_bits`.
    pub blocksize_bits: u8,
    /// `s_magic`.
    pub magic: u64,
    /// `s_time_gran`.
    pub time_gran: u32,
}

/// The values written into a super-block by `init_simple`: the block size
/// is two to the power `blocksize_bits`.
pub fn super_init_values(params: &SuperParams) -> (init: SuperInit)
    requires
        params.blocksize_bits < 64,
    ensures
        init.blocksize == vstd::arithmetic::power2::pow2(params.blocksize_bits as nat),
        init.maxbytes == params.maxbytes,
        init.blocksize_bits == params.blocksize_bits,
        init.magic == params.magic,
        init.time_gran == params.time_gran,
{
    let bits = params.blocksize_bits as u64;
    let blocksize: u64 = 1u64 << bits;
    proof {
        vstd::bits::lemma_u64_pow2_no_overflow(bits as nat);
        vstd::bits::lemma_u64_shl_is_mul(1u64, bits);
    }
    SuperInit {
        maxbytes: params.maxbytes,
        blocksize,
        blocksize_bits: params.blocksize_bits,
        magic: params.magic,
        time_gran: params.time_gran,
    }
}

/// What `iget` makes of the inode `iget_locked` returned (its address and
/// state word): a null inode is `ENOMEM`; otherwise `true` if the inode is
/// fresh (`I_NEW` set, it must be initialized) and `false` if it was
/// already cached.
pub fn iget_outcome(inode_addr: usize, state: u32) -> (r: Result<bool, Error>)
    ensures
        inode_addr == 0 ==> (r matches Err(e) && e@ == -ENOMEM),
        inode_addr != 0 ==> r == Ok::<bool, Error>(state % 2 == 1),
{
    if inode_addr == 0 {
        return Err(Error::enomem());
    }
    assert((state & I_NEW != 0) == (state % 2 == 1)) by (bit_vector);
    Ok(state & I_NEW != 0)
}

/// What `set_root` makes of the dentry `d_make_root` returned: a null
/// dentry is `ENOMEM`.
pub fn set_root_outcome(dentry_addr: usize) -> (r: Result<(), Error>)
    ensures
        dentry_addr == 0 ==> (r matches Err(e) && e@ == -ENOMEM),
        dentry_addr != 0 ==> r.is_ok(),
{
    if dentry_addr == 0 {
        Err(Error::enomem())
    } else {
        Ok(())
    }
}

/// Whether a super-block with flags `s_flags` is mounted read-only.
pub fn flags_rdonly(s_flags: u64) -> (ro: bool)
    ensures
        ro == (s_flags % 2 == 1),
{
    assert((s_flags & SB_RDONLY != 0) == (s_flags % 2 == 1)) by (bit_vector);
    s_flags & SB_RDONLY != 0
}

} // verus!
