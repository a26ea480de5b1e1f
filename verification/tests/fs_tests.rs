use rko_core::error::Error;
use rko_core::fs::dir::{emit_next_pos, DirEntryType, Whence};
use rko_core::fs::folio::{folio_page_chunks, PageChunk};
use rko_core::fs::inode::{
    inode_init_plan, mkdev, INodeOpsPlan, INodeParams, INodeType, LinkOps, OpsSource, Time,
    S_IFCHR, S_IFDIR, S_IFLNK, S_IFREG,
};
use rko_core::fs::mapper::{mapped_folio_check, mapped_folio_position, mapper_page_chunks, BlockChunk};
use rko_core::fs::registration::{inode_cache_needed, register_outcome};
use rko_core::fs::sb::{flags_rdonly, iget_outcome, set_root_outcome, super_init_values, SuperParams};
use rko_core::fs::vtable::{
    default_read_xattr, default_statfs, fill_super_step, inode_callbacks_needed, read_folio_reply,
    statfs_reply, xattr_reply, FillSuperAction, FillSuperStep, KStatFs, StatfsReply,
};
use rko_core::fs::Stat;

#[test]
fn whence_from_raw() {
    assert_eq!(Whence::from_raw(0), Some(Whence::Start));
    assert_eq!(Whence::from_raw(1), Some(Whence::Current));
    assert_eq!(Whence::from_raw(2), Some(Whence::End));
    assert_eq!(Whence::from_raw(3), None);
    assert_eq!(Whence::from_raw(-1), None);
    assert_eq!(Whence::from_raw(Whence::End.raw()), Some(Whence::End));
}

#[test]
fn dir_entry_type_values() {
    assert_eq!(DirEntryType::Unknown.raw(), 0);
    assert_eq!(DirEntryType::Dir.raw(), 4);
    assert_eq!(DirEntryType::Reg.raw(), 8);
    assert_eq!(DirEntryType::Lnk.raw(), 10);
    assert_eq!(DirEntryType::Wht.raw(), 14);
}

#[test]
fn emit_position() {
    assert_eq!(emit_next_pos(3, 1, true), 4);
    assert_eq!(emit_next_pos(3, 1, false), 3);
}

#[test]
fn folio_chunks_split_at_page_boundaries() {
    let c = folio_page_chunks(4000, 200, 16384).unwrap();
    assert_eq!(
        c,
        vec![PageChunk { offset: 4000, len: 96 }, PageChunk { offset: 4096, len: 104 }]
    );
    let whole = folio_page_chunks(0, 8192, 8192).unwrap();
    assert_eq!(
        whole,
        vec![PageChunk { offset: 0, len: 4096 }, PageChunk { offset: 4096, len: 4096 }]
    );
    assert!(folio_page_chunks(10, 0, 100).unwrap().is_empty());
}

#[test]
fn folio_chunks_errors() {
    assert_eq!(folio_page_chunks(100, 4000, 4096).unwrap_err().to_errno(), -22);
    assert_eq!(folio_page_chunks(usize::MAX, 2, usize::MAX).unwrap_err().to_errno(), -34);
}

#[test]
fn mapper_positions() {
    let p = mapped_folio_position(8200).unwrap();
    assert_eq!(p.page_index, 2);
    assert_eq!(p.offset_in_page, 8);
    assert_eq!(p.len, 4088);
    assert_eq!(mapped_folio_position(-1).unwrap_err().to_errno(), -22);
}

#[test]
fn mapper_folio_check() {
    assert_eq!(mapped_folio_check(0x5000), Ok(0x5000));
    assert_eq!(mapped_folio_check(0).unwrap_err().to_errno(), -5);
    assert_eq!(mapped_folio_check(usize::MAX - 4).unwrap_err().to_errno(), -5);
}

#[test]
fn mapper_chunks() {
    assert_eq!(
        mapper_page_chunks(4090, 10).unwrap(),
        vec![BlockChunk { offset: 4090, len: 6 }, BlockChunk { offset: 4096, len: 4 }]
    );
    assert!(mapper_page_chunks(5, 0).unwrap().is_empty());
    assert!(mapper_page_chunks(-5, -1).unwrap().is_empty());
    assert_eq!(mapper_page_chunks(-5, 10).unwrap_err().to_errno(), -22);
}

fn params(typ: INodeType) -> INodeParams<u32> {
    INodeParams {
        mode: 0o7755,
        typ,
        size: 100,
        blocks: 1,
        nlink: 2,
        uid: 1000,
        gid: 100,
        ctime: Time { secs: 1, nsecs: 2 },
        mtime: Time { secs: 3, nsecs: 4 },
        atime: Time { secs: u64::MAX, nsecs: 6 },
        value: 0,
    }
}

#[test]
fn inode_plan_dir_and_reg() {
    let d = inode_init_plan(&params(INodeType::Dir), false, true, false);
    assert_eq!(d.mode, 0o755 | S_IFDIR);
    assert_eq!(d.ops, INodeOpsPlan::Dir { iops: OpsSource::Default, fops: OpsSource::Custom });
    assert_eq!(d.atime_sec, -1);
    assert_eq!(d.mtime_sec, 3);
    assert_eq!(d.ctime_nsec, 2);
    let r = inode_init_plan(&params(INodeType::Reg), true, false, true);
    assert_eq!(r.mode, 0o755 | S_IFREG);
    assert_eq!(
        r.ops,
        INodeOpsPlan::Reg { iops: OpsSource::Custom, fops: OpsSource::Default, aops: OpsSource::Custom }
    );
    assert_eq!((r.size, r.blocks, r.nlink, r.uid, r.gid), (100, 1, 2, 1000, 100));
}

#[test]
fn inode_plan_links_and_devices() {
    let inline = inode_init_plan(&params(INodeType::Lnk(Some(b"target"))), false, false, false);
    assert_eq!(inline.mode, 0o755 | S_IFLNK);
    assert_eq!(
        inline.ops,
        INodeOpsPlan::Lnk { iops: LinkOps::SimpleSymlink, no_highmem: false, inline_target: true }
    );
    let paged = inode_init_plan(&params(INodeType::Lnk(None)), false, false, false);
    assert_eq!(
        paged.ops,
        INodeOpsPlan::Lnk { iops: LinkOps::PageSymlink, no_highmem: true, inline_target: false }
    );
    let chr = inode_init_plan(&params(INodeType::Chr(1, 3)), false, false, false);
    assert_eq!(chr.mode, 0o755 | S_IFCHR);
    assert_eq!(chr.ops, INodeOpsPlan::Special { kind: S_IFCHR, dev: (1 << 20) | 3 });
}

#[test]
fn mkdev_masks_minor() {
    assert_eq!(mkdev(8, 1), 0x800001);
    assert_eq!(mkdev(0, 0x1fffff), 0xfffff);
    assert_eq!(mkdev(0x1001, 0), 0x100000);
}

#[test]
fn super_block_values() {
    let i = super_init_values(&SuperParams { maxbytes: 1 << 40, blocksize_bits: 12, magic: 0xef53, time_gran: 1 });
    assert_eq!(i.blocksize, 4096);
    assert_eq!(i.magic, 0xef53);
    assert!(flags_rdonly(1));
    assert!(!flags_rdonly(2));
}

#[test]
fn iget_and_root() {
    assert_eq!(iget_outcome(0x1000, 1), Ok(true));
    assert_eq!(iget_outcome(0x1000, 8), Ok(false));
    assert_eq!(iget_outcome(0, 1).unwrap_err().to_errno(), -12);
    assert_eq!(set_root_outcome(0).unwrap_err().to_errno(), -12);
    assert_eq!(set_root_outcome(0x2000), Ok(()));
}

#[test]
fn vtable_replies() {
    assert!(inode_callbacks_needed(8));
    assert!(!inode_callbacks_needed(0));
    let s = Stat { magic: 0x1234, namelen: 255, bsize: 4096, files: 10, blocks: 20 };
    assert_eq!(
        statfs_reply(Ok(s)),
        StatfsReply::Fill(KStatFs { f_type: 0x1234, f_bsize: 4096, f_blocks: 20, f_files: 10, f_namelen: 255 })
    );
    assert_eq!(statfs_reply(Err(Error::enosys())), StatfsReply::Fallback);
    assert_eq!(statfs_reply(Err(Error::eio())), StatfsReply::Fail(-5));
    assert_eq!(statfs_reply(default_statfs()), StatfsReply::Fallback);
    assert_eq!(xattr_reply(Ok(12)), 12);
    assert_eq!(xattr_reply(default_read_xattr()), -95);
    assert_eq!(read_folio_reply(Ok(())), (0, true));
    assert_eq!(read_folio_reply(Err(Error::eio())), (-5, false));
}

#[test]
fn registration_outcomes() {
    assert!(inode_cache_needed(4));
    assert!(!inode_cache_needed(0));
    assert_eq!(register_outcome(0), Ok(()));
    assert_eq!(register_outcome(-16).unwrap_err().to_errno(), -16);
    assert_eq!(register_outcome(5).unwrap_err().to_errno(), -22);
}

#[test]
fn fill_super_steps() {
    let mut st = FillSuperStep::FillSuper;
    assert_eq!(fill_super_step(&mut st, Ok(())), FillSuperAction::StoreDataThenInitRoot);
    assert_eq!(st, FillSuperStep::InitRoot);
    assert_eq!(fill_super_step(&mut st, Ok(())), FillSuperAction::SetRootAndReturn(0));
    assert_eq!(st, FillSuperStep::Done);
    let mut st = FillSuperStep::FillSuper;
    assert_eq!(fill_super_step(&mut st, Err(Error::enomem())), FillSuperAction::Return(-12));
    assert_eq!(st, FillSuperStep::Done);
    let mut st = FillSuperStep::InitRoot;
    assert_eq!(fill_super_step(&mut st, Err(Error::from_errno(-5))), FillSuperAction::Return(-5));
    assert_eq!(st, FillSuperStep::Done);
}
