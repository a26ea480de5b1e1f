//! The decisions the filesystem callback trampolines make: which optional
//! super-block callbacks are installed, and what is reported back to the
//! kernel from the results of the filesystem's methods.

use vstd::prelude::*;
use crate::error::{Error, ENOSYS, EOPNOTSUPP};
use super::Stat;

verus! {

/// The `struct kstatfs` fields filled from a [`Stat`].
#[derive(Copy, Clone, Debug, PartialEq, Eq, Structural)]
pub struct KStatFs {
    pub f_type: i64,
    pub f_bsize: i64,
    pub f_blocks: u64,
    pub f_files: u64,
    pub f_namelen: i64,
}

/// What `statfs` reports to the kernel.
#[derive(Copy, Clone, Debug, PartialEq, Eq, Structural)]
pub enum StatfsReply {
    /// Fill the statistics buffer and return 0.
    Fill(KStatFs),
    /// Fall back to the kernel's `simple_statfs`.
    Fallback,
    /// Return this error value.
    Fail(i32),
}

/// Whether the inode allocation and destruction callbacks are installed:
/// only when inodes carry per-inode data of non-zero size.
pub fn inode_callbacks_needed(data_size: usize) -> (b: bool)
    ensures
        b == (data_size != 0),
{
    data_size != 0
}

/// What `statfs` reports for the filesystem's answer: statistics fill the
/// buffer; `-ENOSYS` falls back to `simple_statfs`; any other error is
/// returned as is.
pub open spec fn statfs_reply_spec(r: Result<Stat, Error>) -> StatfsReply {
    match r {
        Ok(s) => StatfsReply::Fill(KStatFs {
            f_type: s.magic as i64,
            f_bsize: s.bsize as i64,
            f_blocks: s.blocks,
            f_files: s.files,
            f_namelen: s.namelen as i64,
        }),
        Err(e) => if e@ == -ENOSYS {
            StatfsReply::Fallback
        } else {
            StatfsReply::Fail(e@)
        },
    }
}

/// What `statfs` reports for the filesystem's answer (see
/// [`statfs_reply_spec`]).
pub fn statfs_reply(r: Result<Stat, Error>) -> (reply: StatfsReply)
    ensures
        reply == statfs_reply_spec(r),
        match r {
            Ok(s) => reply == StatfsReply::Fill(KStatFs {
                f_type: s.magic as i64,
                f_bsize: s.bsize as i64,
                f_blocks: s.blocks,
                f_files: s.files,
                f_namelen: s.namelen as i64,
            }),
            Err(e) => if e@ == -ENOSYS {
                reply == StatfsReply::Fallback
            } else {
                reply == StatfsReply::Fail(e@)
            },
        },
{
    match r {
        Ok(s) => StatfsReply::Fill(
            KStatFs {
                f_type: s.magic as i64,
                f_bsize: s.bsize as i64,
                f_blocks: s.blocks,
                f_files: s.files,
                f_namelen: s.namelen as i64,
            },
        ),
        Err(e) => {
            let errno = e.to_errno();
            if errno == -ENOSYS {
                StatfsReply::Fallback
            } else {
                StatfsReply::Fail(errno)
            }
        },
    }
}

/// What the extended-attribute `get` callback returns: the byte count
/// (as a C `int`) or the error value.
pub fn xattr_reply(r: Result<usize, Error>) -> (code: i32)
    ensures
        match r {
            Ok(n) => code == n as i32,
            Err(e) => code == e@,
        },
{
    match r {
        Ok(n) => n as i32,
        Err(e) => e.to_errno(),
    }
}

/// What the `read_folio` callback returns, and whether the folio read
/// ends successfully (exactly when the code is 0).
pub fn read_folio_reply(r: Result<(), Error>) -> (reply: (i32, bool))
    ensures
        reply.0 == crate::error::result_code(r),
        reply.1 == (reply.0 == 0),
{
    let ret = match r {
        Ok(()) => 0,
        Err(e) => e.to_errno(),
    };
    (ret, ret == 0)
}

/// The error a filesystem's `read_xattr` reports when it does not
/// implement it: `EOPNOTSUPP`.
pub fn default_read_xattr() -> (r: Result<usize, Error>)
    ensures
        r matches Err(e) && e@ == -EOPNOTSUPP,
{
    Err(Error::eopnotsupp())
}

/// The error a filesystem's `statfs` reports when it does not implement
/// it: `ENOSYS`, which makes the callback fall back to `simple_statfs`.
pub fn default_statfs() -> (r: Result<Stat, Error>)
    ensures
        r matches Err(e) && e@ == -ENOSYS,
        statfs_reply_spec(r) == StatfsReply::Fallback,
{
    Err(Error::enosys())
}

/// Where the `fill_super` callback stands: the filesystem's `fill_super`
/// runs first, then its `init_root`.
#[derive(Copy, Clone, Debug, PartialEq, Eq, Structural)]
pub enum FillSuperStep {
    /// The filesystem's `fill_super` is running.
    FillSuper,
    /// The per-superblock data is stored and `init_root` is running.
    InitRoot,
    /// The callback has returned.
    Done,
}

/// What the `fill_super` callback does after one of the filesystem's
/// methods returned.
#[derive(Copy, Clone, Debug, PartialEq, Eq, Structural)]
pub enum FillSuperAction {
    /// Store the data `fill_super` produced in the superblock, then call
    /// `init_root`.
    StoreDataThenInitRoot,
    /// Install the root dentry and return this value (0) to the kernel.
    SetRootAndReturn(i32),
    /// Return this error value to the kernel.
    Return(i32),
}

/// One step of the `fill_super` callback, from the result of the method
/// the current stage ran: an error ends the callback with its value; a
/// successful `fill_super` leads to storing its data and `init_root`; a
/// successful `init_root` installs the root and returns 0.
pub fn fill_super_step(stage: &mut FillSuperStep, result: Result<(), Error>) -> (a: FillSuperAction)
    requires
        *old(stage) != FillSuperStep::Done,
    ensures
        result matches Err(e) ==> a == FillSuperAction::Return(e@) && *final(stage) == FillSuperStep::Done,
        result is Ok && *old(stage) == FillSuperStep::FillSuper ==> a == FillSuperAction::StoreDataThenInitRoot
            && *final(stage) == FillSuperStep::InitRoot,
        result is Ok && *old(stage) == FillSuperStep::InitRoot ==> a == FillSuperAction::SetRootAndReturn(0)
            && *final(stage) == FillSuperStep::Done,
{
    match result {
        Err(e) => {
            *stage = FillSuperStep::Done;
            FillSuperAction::Return(e.to_errno())
        },
        Ok(()) => match *stage {
            FillSuperStep::FillSuper => {
                *stage = FillSuperStep::InitRoot;
                FillSuperAction::StoreDataThenInitRoot
            },
            _ => {
                *stage = FillSuperStep::Done;
                FillSuperAction::SetRootAndReturn(0)
            },
        },
    }
}

} // verus!
