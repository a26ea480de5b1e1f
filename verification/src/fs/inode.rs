//! Inode parameters and the set-up of a freshly allocated inode: which mode
//! bits, sizes, timestamps, device number and operation tables it gets.

use vstd::prelude::*;

verus! {

/// Directory.
pub const S_IFDIR: u16 = 0o040000;
/// Regular file.
pub const S_IFREG: u16 = 0o100000;
/// Symbolic link.
pub const S_IFLNK: u16 = 0o120000;
/// Character device.
pub const S_IFCHR: u16 = 0o020000;
/// Block device.
pub const S_IFBLK: u16 = 0o060000;
/// Named pipe.
pub const S_IFIFO: u16 = 0o010000;
/// Socket.
pub const S_IFSOCK: u16 = 0o140000;

/// Bits of a device number that hold the minor number.
pub const MINORBITS: u32 = 20;
/// Mask of the minor number in a device number.
pub const MINORMASK: u32 = 0xfffff;

/// Marker type for the inode's read semaphore (`i_rwsem` in shared mode).
pub struct ReadSem;

/// The type of an inode.
pub enum INodeType {
    /// Directory.
    Dir,
    /// Regular file.
    Reg,
    /// Symbolic link: `None` for a page-based link (target in the page
    /// cache), `Some(target)` for an inline link (target in `i_link`).
    Lnk(Option<&'static [u8]>),
    /// Character device (major, minor).
    Chr(u32, u32),
    /// Block device (major, minor).
    Blk(u32, u32),
    /// Named pipe (FIFO).
    Fifo,
    /// Unix domain socket.
    Sock,
}

/// Time specification for inode timestamps.
#[derive(Copy, Clone, Debug, PartialEq, Eq, Structural)]
pub struct Time {
    /// Seconds since the Unix epoch.
    pub secs: u64,
    /// Nanoseconds within the second.
    pub nsecs: u32,
}

/// Parameters for initializing a new inode.
pub struct INodeParams<T> {
    /// Access mode (lower 9 bits: rwxrwxrwx).
    pub mode: u16,
    /// Inode type.
    pub typ: INodeType,
    /// Content size in bytes.
    pub size: i64,
    /// Number of 512-byte blocks.
    pub blocks: u64,
    /// Hard link count.
    pub nlink: u32,
    /// Owner user ID.
    pub uid: u32,
    /// Owner group ID.
    pub gid: u32,
    /// Creation time.
    pub ctime: Time,
    /// Modification time.
    pub mtime: Time,
    /// Access time.
    pub atime: Time,
    /// Per-inode user data.
    pub value: T,
}

/// Where an operation table comes from.
#[derive(Copy, Clone, Debug, PartialEq, Eq, Structural)]
pub enum OpsSource {
    /// The table set on the new inode by the filesystem.
    Custom,
    /// The filesystem's default table for this inode type.
    Default,
}

/// Which inode operations a symbolic link gets.
#[derive(Copy, Clone, Debug, PartialEq, Eq, Structural)]
pub enum LinkOps {
    /// The table set on the new inode by the filesystem.
    Custom,
    /// The kernel's operations for inline symlinks.
    SimpleSymlink,
    /// The kernel's operations for page-cache symlinks.
    PageSymlink,
}

/// How the operation tables and special fields of a new inode are set.
#[allow(inconsistent_fields)]
#[derive(Copy, Clone, Debug, PartialEq, Eq, Structural)]
pub enum INodeOpsPlan {
    /// A directory: inode and file operations.
    Dir { iops: OpsSource, fops: OpsSource },
    /// A regular file: inode, file and address-space operations, with large
    /// folios enabled on its mapping.
    Reg { iops: OpsSource, fops: OpsSource, aops: OpsSource },
    /// A symbolic link; a page-based link is kept out of high memory, an
    /// inline link gets its target in `i_link`.
    Lnk { iops: LinkOps, no_highmem: bool, inline_target: bool },
    /// A special inode (device, FIFO or socket) with its type bits and
    /// device number.
    Special { kind: u16, dev: u32 },
}

/// The values written into a freshly allocated inode.
#[derive(Copy, Clone, Debug, PartialEq, Eq, Structural)]
pub struct INodeInit {
    /// `i_mode`: the permission bits of `mode` and the type bits.
    pub mode: u16,
    /// `i_size`.
    pub size: i64,
    /// `i_blocks`.
    pub blocks: u64,
    /// `i_atime` seconds and nanoseconds.
    pub atime_sec: i64,
    pub atime_nsec: u32,
    /// `i_mtime` seconds and nanoseconds.
    pub mtime_sec: i64,
    pub mtime_nsec: u32,
    /// `i_ctime` seconds and nanoseconds.
    pub ctime_sec: i64,
    pub ctime_nsec: u32,
    /// Link count and owner.
    pub nlink: u32,
    pub uid: u32,
    pub gid: u32,
    /// Operation tables and special fields.
    pub ops: INodeOpsPlan,
}

/// The `S_IF*` type bits of an inode type.
pub open spec fn type_bits(t: INodeType) -> u16 {
    match t {
        INodeType::Dir => S_IFDIR,
        INodeType::Reg => S_IFREG,
        INodeType::Lnk(_) => S_IFLNK,
        INodeType::Chr(_, _) => S_IFCHR,
        INodeType::Blk(_, _) => S_IFBLK,
        INodeType::Fifo => S_IFIFO,
        INodeType::Sock => S_IFSOCK,
    }
}

/// `MKDEV(major, minor & MINORMASK)`: the major number in the bits above
/// `MINORBITS` (truncated to 32 bits), the minor number below.
pub open spec fn mkdev_spec(major: u32, minor: u32) -> int {
    (major as int % 4096) * 0x100000 + (minor as int % 0x100000)
}

/// A device number from a major and a minor number, as `MKDEV` with the
/// minor number masked.
pub fn mkdev(major: u32, minor: u32) -> (dev: u32)
    ensures
        dev == mkdev_spec(major, minor),
{
    let dev: u32 = (major << MINORBITS) | (minor & MINORMASK);
    assert(dev == (major % 4096) * 0x100000 + (minor % 0x100000)) by (bit_vector)
        requires
            dev == (major << 20u32) | (minor & 0xfffffu32),
    ;
    dev
}

/// The table source given whether the filesystem set its own table.
pub open spec fn source(custom: bool) -> OpsSource {
    if custom {
        OpsSource::Custom
    } else {
        OpsSource::Default
    }
}

/// How the operation tables of an inode of type `t` are chosen, given which
/// tables the filesystem set itself.
pub open spec fn ops_plan_spec(t: INodeType, custom_iops: bool, custom_fops: bool, custom_aops: bool) -> INodeOpsPlan {
    match t {
        INodeType::Dir => INodeOpsPlan::Dir { iops: source(custom_iops), fops: source(custom_fops) },
        INodeType::Reg => INodeOpsPlan::Reg {
            iops: source(custom_iops),
            fops: source(custom_fops),
            aops: source(custom_aops),
        },
        INodeType::Lnk(target) => INodeOpsPlan::Lnk {
            iops: if custom_iops {
                LinkOps::Custom
            } else if target.is_some() {
                LinkOps::SimpleSymlink
            } else {
                LinkOps::PageSymlink
            },
            no_highmem: target.is_none(),
            inline_target: target.is_some(),
        },
        INodeType::Chr(major, minor) => INodeOpsPlan::Special {
            kind: S_IFCHR,
            dev: mkdev_spec(major, minor) as u32,
        },
        INodeType::Blk(major, minor) => INodeOpsPlan::Special {
            kind: S_IFBLK,
            dev: mkdev_spec(major, minor) as u32,
        },
        INodeType::Fifo => INodeOpsPlan::Special { kind: S_IFIFO, dev: 0 },
        INodeType::Sock => INodeOpsPlan::Special { kind: S_IFSOCK, dev: 0 },
    }
}

fn ops_source(custom: bool) -> (s: OpsSource)
    ensures
        s == source(custom),
{
    if custom {
        OpsSource::Custom
    } else {
        OpsSource::Default
    }
}

/// The values a new inode is initialized with from `params`, given which
/// operation tables the filesystem set on it itself (`NewINode::init`).
/// Timestamps in seconds are reinterpreted as the kernel's signed type.
pub fn inode_init_plan<T>(
    params: &INodeParams<T>,
    custom_iops: bool,
    custom_fops: bool,
    custom_aops: bool,
) -> (init: INodeInit)
    ensures
        init.mode == (params.mode & 0o777u16) | type_bits(params.typ),
        init.size == params.size,
        init.blocks == params.blocks,
        init.atime_sec == params.atime.secs as i64,
        init.atime_nsec == params.atime.nsecs,
        init.mtime_sec == params.mtime.secs as i64,
        init.mtime_nsec == params.mtime.nsecs,
        init.ctime_sec == params.ctime.secs as i64,
        init.ctime_nsec == params.ctime.nsecs,
        init.nlink == params.nlink,
        init.uid == params.uid,
        init.gid == params.gid,
        init.ops == ops_plan_spec(params.typ, custom_iops, custom_fops, custom_aops),
        init.ops matches INodeOpsPlan::Special { kind, .. } ==> kind == init.mode & 0o170000u16,
{
    proof {
        lemma_mode_keeps_type(params.mode, params.typ);
        lemma_special_kind_is_type(params.typ, custom_iops, custom_fops, custom_aops);
    }
    let (type_bits, ops) = match params.typ {
        INodeType::Dir => (S_IFDIR, INodeOpsPlan::Dir { iops: ops_source(custom_iops), fops: ops_source(custom_fops) }),
        INodeType::Reg => (
            S_IFREG,
            INodeOpsPlan::Reg { iops: ops_source(custom_iops), fops: ops_source(custom_fops), aops: ops_source(custom_aops) },
        ),
        INodeType::Lnk(target) => {
            let iops = if custom_iops {
                LinkOps::Custom
            } else if target.is_some() {
                LinkOps::SimpleSymlink
            } else {
                LinkOps::PageSymlink
            };
            (S_IFLNK, INodeOpsPlan::Lnk { iops, no_highmem: target.is_none(), inline_target: target.is_some() })
        },
        INodeType::Chr(major, minor) => (S_IFCHR, INodeOpsPlan::Special { kind: S_IFCHR, dev: mkdev(major, minor) }),
        INodeType::Blk(major, minor) => (S_IFBLK, INodeOpsPlan::Special { kind: S_IFBLK, dev: mkdev(major, minor) }),
        INodeType::Fifo => (S_IFIFO, INodeOpsPlan::Special { kind: S_IFIFO, dev: 0 }),
        INodeType::Sock => (S_IFSOCK, INodeOpsPlan::Special { kind: S_IFSOCK, dev: 0 }),
    };
    INodeInit {
        mode: (params.mode & 0o777) | type_bits,
        size: params.size,
        blocks: params.blocks,
        atime_sec: params.atime.secs as i64,
        atime_nsec: params.atime.nsecs,
        mtime_sec: params.mtime.secs as i64,
        mtime_nsec: params.mtime.nsecs,
        ctime_sec: params.ctime.secs as i64,
        ctime_nsec: params.ctime.nsecs,
        nlink: params.nlink,
        uid: params.uid,
        gid: params.gid,
        ops,
    }
}

/// The mode of a new inode keeps exactly the permission bits it was given
/// and identifies its type: the type bits read back from the mode are the
/// ones of the inode's type, for every inode type.
pub proof fn lemma_mode_keeps_type(mode: u16, t: INodeType)
    ensures
        ((mode & 0o777u16) | type_bits(t)) & 0o170000u16 == type_bits(t),
        ((mode & 0o777u16) | type_bits(t)) & 0o777u16 == mode & 0o777u16,
{
    let b = type_bits(t);
    assert(b & 0o777u16 == 0 && b & 0o170000u16 == b) by {
        assert(S_IFDIR & 0o777u16 == 0 && S_IFDIR & 0o170000u16 == S_IFDIR) by (bit_vector);
        assert(S_IFREG & 0o777u16 == 0 && S_IFREG & 0o170000u16 == S_IFREG) by (bit_vector);
        assert(S_IFLNK & 0o777u16 == 0 && S_IFLNK & 0o170000u16 == S_IFLNK) by (bit_vector);
        assert(S_IFCHR & 0o777u16 == 0 && S_IFCHR & 0o170000u16 == S_IFCHR) by (bit_vector);
        assert(S_IFBLK & 0o777u16 == 0 && S_IFBLK & 0o170000u16 == S_IFBLK) by (bit_vector);
        assert(S_IFIFO & 0o777u16 == 0 && S_IFIFO & 0o170000u16 == S_IFIFO) by (bit_vector);
        assert(S_IFSOCK & 0o777u16 == 0 && S_IFSOCK & 0o170000u16 == S_IFSOCK) by (bit_vector);
    }
    assert(((mode & 0o777u16) | b) & 0o170000u16 == b && ((mode & 0o777u16) | b) & 0o777u16 == mode & 0o777u16)
        by (bit_vector)
        requires
            b & 0o777u16 == 0 && b & 0o170000u16 == b,
    ;
}

/// The file-type bits are the kernel's `S_IF*` values: directory
/// `0o040000`, regular file `0o100000`, symlink `0o120000`, character
/// device `0o020000`, block device `0o060000`, FIFO `0o010000` and socket
/// `0o140000`; so distinct inode kinds carry distinct type bits.
pub proof fn lemma_type_bits_values(major: u32, minor: u32, target: Option<&'static [u8]>)
    ensures
        type_bits(INodeType::Dir) == 0o040000u16,
        type_bits(INodeType::Reg) == 0o100000u16,
        type_bits(INodeType::Lnk(target)) == 0o120000u16,
        type_bits(INodeType::Chr(major, minor)) == 0o020000u16,
        type_bits(INodeType::Blk(major, minor)) == 0o060000u16,
        type_bits(INodeType::Fifo) == 0o010000u16,
        type_bits(INodeType::Sock) == 0o140000u16,
{
}

/// A special inode (device, FIFO, socket) is handed to
/// `init_special_inode` with the type bits of its own type, so a block
/// device is set up as a block device and a character device as a
/// character device; and only special inode types get a special set-up.
pub proof fn lemma_special_kind_is_type(t: INodeType, custom_iops: bool, custom_fops: bool, custom_aops: bool)
    ensures
        ops_plan_spec(t, custom_iops, custom_fops, custom_aops) matches INodeOpsPlan::Special { kind, .. }
            ==> kind == type_bits(t),
        (ops_plan_spec(t, custom_iops, custom_fops, custom_aops) is Special) == (t is Chr || t is Blk
            || t is Fifo || t is Sock),
{
}

/// The device number of a device inode holds its major and minor numbers:
/// for a major number below 4096 and a minor number below `2^20`, the
/// major number reads back from the bits above bit 20 and the minor
/// number from the bits below; FIFOs and sockets get device number 0.
pub proof fn lemma_special_dev_numbers(major: u32, minor: u32, ci: bool, cf: bool, ca: bool)
    requires
        major < 4096,
        minor < 0x100000,
    ensures
        (ops_plan_spec(INodeType::Chr(major, minor), ci, cf, ca) is Special),
        ops_plan_spec(INodeType::Chr(major, minor), ci, cf, ca)->dev >> 20u32 == major,
        ops_plan_spec(INodeType::Chr(major, minor), ci, cf, ca)->dev & 0xfffffu32 == minor,
        (ops_plan_spec(INodeType::Blk(major, minor), ci, cf, ca) is Special),
        ops_plan_spec(INodeType::Blk(major, minor), ci, cf, ca)->dev >> 20u32 == major,
        ops_plan_spec(INodeType::Blk(major, minor), ci, cf, ca)->dev & 0xfffffu32 == minor,
        ops_plan_spec(INodeType::Fifo, ci, cf, ca) == (INodeOpsPlan::Special { kind: 0o010000u16, dev: 0 }),
        ops_plan_spec(INodeType::Sock, ci, cf, ca) == (INodeOpsPlan::Special { kind: 0o140000u16, dev: 0 }),
{
    let d: u32 = (major * 0x100000 + minor) as u32;
    assert(mkdev_spec(major, minor) == major * 0x100000 + minor);
    assert(d >> 20u32 == major && d & 0xfffffu32 == minor) by (bit_vector)
        requires
            major < 4096,
            minor < 0x100000,
            d == major * 0x100000 + minor,
    ;
}

/// Each operation table is the filesystem's own exactly when the
/// filesystem set that table, and the kernel's default otherwise: for a
/// directory the inode and file tables, for a regular file also the
/// address-space table; a symlink without its own inode table gets the
/// kernel's inline-symlink operations exactly when its target is inline,
/// and only a page-based link is kept out of high memory.
pub proof fn lemma_ops_sources(target: Option<&'static [u8]>, ci: bool, cf: bool, ca: bool)
    ensures
        (ops_plan_spec(INodeType::Dir, ci, cf, ca) is Dir),
        (ops_plan_spec(INodeType::Dir, ci, cf, ca)->Dir_iops == OpsSource::Custom) == ci,
        (ops_plan_spec(INodeType::Dir, ci, cf, ca)->Dir_fops == OpsSource::Custom) == cf,
        (ops_plan_spec(INodeType::Reg, ci, cf, ca) is Reg),
        (ops_plan_spec(INodeType::Reg, ci, cf, ca)->Reg_iops == OpsSource::Custom) == ci,
        (ops_plan_spec(INodeType::Reg, ci, cf, ca)->Reg_fops == OpsSource::Custom) == cf,
        (ops_plan_spec(INodeType::Reg, ci, cf, ca)->aops == OpsSource::Custom) == ca,
        (ops_plan_spec(INodeType::Lnk(target), ci, cf, ca) is Lnk),
        (ops_plan_spec(INodeType::Lnk(target), ci, cf, ca)->Lnk_iops == LinkOps::Custom) == ci,
        !ci ==> ((ops_plan_spec(INodeType::Lnk(target), ci, cf, ca)->Lnk_iops == LinkOps::SimpleSymlink)
            == target.is_some()),
        ops_plan_spec(INodeType::Lnk(target), ci, cf, ca)->no_highmem == target.is_none(),
        ops_plan_spec(INodeType::Lnk(target), ci, cf, ca)->inline_target == target.is_some(),
{
}

} // verus!
