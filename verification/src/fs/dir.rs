//! Directory entry types, seek origins, and the position bookkeeping of
//! directory emission.

use vstd::prelude::*;
use crate::fs::inode::{S_IFBLK, S_IFCHR, S_IFDIR, S_IFIFO, S_IFLNK, S_IFREG, S_IFSOCK};

verus! {

/// Type of a directory entry (the kernel's `DT_*` values).
#[derive(Copy, Clone, Debug, PartialEq, Eq, Structural)]
pub enum DirEntryType {
    /// Unknown type.
    Unknown,
    /// Named pipe (FIFO).
    Fifo,
    /// Character device.
    Chr,
    /// Directory.
    Dir,
    /// Block device.
    Blk,
    /// Regular file.
    Reg,
    /// Symbolic link.
    Lnk,
    /// Unix domain socket.
    Sock,
    /// Whiteout (union filesystems).
    Wht,
}

/// The `DT_*` value of a directory entry type.
pub open spec fn dt_value(t: DirEntryType) -> u8 {
    match t {
        DirEntryType::Unknown => 0,
        DirEntryType::Fifo => 1,
        DirEntryType::Chr => 2,
        DirEntryType::Dir => 4,
        DirEntryType::Blk => 6,
        DirEntryType::Reg => 8,
        DirEntryType::Lnk => 10,
        DirEntryType::Sock => 12,
        DirEntryType::Wht => 14,
    }
}

impl DirEntryType {
    /// The `DT_*` value handed to `dir_emit`.
    pub fn raw(self) -> (v: u8)
        ensures
            v == dt_value(self),
    {
        match self {
            DirEntryType::Unknown => 0,
            DirEntryType::Fifo => 1,
            DirEntryType::Chr => 2,
            DirEntryType::Dir => 4,
            DirEntryType::Blk => 6,
            DirEntryType::Reg => 8,
            DirEntryType::Lnk => 10,
            DirEntryType::Sock => 12,
            DirEntryType::Wht => 14,
        }
    }
}

/// Seek origin.
#[derive(Copy, Clone, Debug, PartialEq, Eq, Structural)]
pub enum Whence {
    /// Seek from beginning of file (`SEEK_SET`).
    Start,
    /// Seek from current position (`SEEK_CUR`).
    Current,
    /// Seek from end of file (`SEEK_END`).
    End,
}

/// The kernel `whence` value of a seek origin.
pub open spec fn whence_value(w: Whence) -> i32 {
    match w {
        Whence::Start => 0,
        Whence::Current => 1,
        Whence::End => 2,
    }
}

impl Whence {
    /// Convert from a raw kernel `whence` value; `None` for anything but
    /// 0, 1 and 2.
    pub fn from_raw(v: i32) -> (w: Option<Self>)
        ensures
            w.is_some() == (0 <= v <= 2),
            w matches Some(x) ==> whence_value(x) == v,
    {
        match v {
            0 => Some(Whence::Start),
            1 => Some(Whence::Current),
            2 => Some(Whence::End),
            _ => None,
        }
    }

    /// The raw kernel `whence` value.
    pub fn raw(self) -> (v: i32)
        ensures
            v == whence_value(self),
    {
        match self {
            Whence::Start => 0,
            Whence::Current => 1,
            Whence::End => 2,
        }
    }
}

/// The directory stream position after an emission: advanced by `pos_inc`
/// when the entry was accepted, unchanged when the buffer was full.
pub fn emit_next_pos(pos: i64, pos_inc: i64, accepted: bool) -> (next: i64)
    requires
        accepted ==> i64::MIN <= pos + pos_inc <= i64::MAX,
    ensures
        next == (if accepted { pos + pos_inc } else { pos as int }),
{
    if accepted {
        pos + pos_inc
    } else {
        pos
    }
}

/// Distinct seek origins have distinct raw values, so `from_raw` of `raw()`
/// gives back the origin it came from.
pub proof fn lemma_whence_round_trip(a: Whence, b: Whence)
    ensures
        whence_value(a) == whence_value(b) ==> a == b,
        0 <= whence_value(a) <= 2,
{
}

/// The `DT_*` values are the kernel's: unknown 0, FIFO 1, character device
/// 2, directory 4, block device 6, regular file 8, symlink 10, socket 12,
/// whiteout 14. Each file type's value is its `S_IF*` type bits shifted
/// right by 12, and distinct entry types have distinct values.
pub proof fn lemma_dt_values(a: DirEntryType, b: DirEntryType)
    ensures
        dt_value(DirEntryType::Unknown) == 0u8,
        dt_value(DirEntryType::Fifo) == 1u8,
        dt_value(DirEntryType::Chr) == 2u8,
        dt_value(DirEntryType::Dir) == 4u8,
        dt_value(DirEntryType::Blk) == 6u8,
        dt_value(DirEntryType::Reg) == 8u8,
        dt_value(DirEntryType::Lnk) == 10u8,
        dt_value(DirEntryType::Sock) == 12u8,
        dt_value(DirEntryType::Wht) == 14u8,
        dt_value(DirEntryType::Fifo) == S_IFIFO >> 12u16,
        dt_value(DirEntryType::Chr) == S_IFCHR >> 12u16,
        dt_value(DirEntryType::Dir) == S_IFDIR >> 12u16,
        dt_value(DirEntryType::Blk) == S_IFBLK >> 12u16,
        dt_value(DirEntryType::Reg) == S_IFREG >> 12u16,
        dt_value(DirEntryType::Lnk) == S_IFLNK >> 12u16,
        dt_value(DirEntryType::Sock) == S_IFSOCK >> 12u16,
        dt_value(a) == dt_value(b) ==> a == b,
{
    assert(S_IFIFO >> 12u16 == 1u16) by (bit_vector);
    assert(S_IFCHR >> 12u16 == 2u16) by (bit_vector);
    assert(S_IFDIR >> 12u16 == 4u16) by (bit_vector);
    assert(S_IFBLK >> 12u16 == 6u16) by (bit_vector);
    assert(S_IFREG >> 12u16 == 8u16) by (bit_vector);
    assert(S_IFLNK >> 12u16 == 10u16) by (bit_vector);
    assert(S_IFSOCK >> 12u16 == 12u16) by (bit_vector);
}

/// The seek origins carry the kernel's values: `SEEK_SET` 0, `SEEK_CUR` 1,
/// `SEEK_END` 2.
pub proof fn lemma_whence_values()
    ensures
        whence_value(Whence::Start) == 0i32,
        whence_value(Whence::Current) == 1i32,
        whence_value(Whence::End) == 2i32,
{
}

} // verus!
