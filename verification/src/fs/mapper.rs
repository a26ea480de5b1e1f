//! Block-device reads through the page cache: where a byte offset falls,
//! how a read of a range proceeds page by page, and how the result of the
//! page-cache lookup is judged.

use vstd::prelude::*;
use crate::error::{Error, EINVAL, EIO, is_err_addr, err_addr_errno};
use super::PAGE_SIZE;
use super::folio::page_plan;

verus! {

/// Where a byte offset of the block device falls in the page cache.
#[derive(Clone, Copy, Debug, PartialEq, Eq, Structural)]
pub struct FolioPosition {
    /// Index of the page holding the offset.
    pub page_index: u64,
    /// Offset of the byte within that page.
    pub offset_in_page: usize,
    /// Bytes from the offset to the end of the page.
    pub len: usize,
}

/// A piece of a block-device read that lies within one page.
#[derive(Clone, Copy, Debug, PartialEq, Eq, Structural)]
pub struct BlockChunk {
    /// Byte offset on the device.
    pub offset: i64,
    /// Length in bytes.
    pub len: usize,
}

/// The pieces as (offset, length) pairs.
pub open spec fn block_chunk_pairs(chunks: Seq<BlockChunk>) -> Seq<(nat, nat)> {
    chunks.map_values(|c: BlockChunk| (c.offset as nat, c.len as nat))
}

/// Locate byte `offset` of the block device: its page, its offset in that
/// page, and the bytes left to the page's end. A negative offset is
/// `EINVAL`.
pub fn mapped_folio_position(offset: i64) -> (r: Result<FolioPosition, Error>)
    ensures
        offset < 0 ==> (r matches Err(e) && e@ == -EINVAL),
        offset >= 0 ==> (r matches Ok(p) && {
            &&& p.page_index == (offset as int) / (PAGE_SIZE as int)
            &&& p.offset_in_page == (offset as int) % (PAGE_SIZE as int)
            &&& p.len == PAGE_SIZE - (offset as int) % (PAGE_SIZE as int)
        }),
{
    if offset < 0 {
        return Err(Error::einval());
    }
    let off: u64 = offset as u64;
    let page_index = off / 4096;
    let offset_in_page = (off % 4096) as usize;
    Ok(FolioPosition { page_index, offset_in_page, len: PAGE_SIZE - offset_in_page })
}

/// Judge the folio address returned by the page-cache lookup: an error
/// address gives the errno it carries, a null address gives `EIO`, any
/// other address is the folio.
pub fn mapped_folio_check(folio_addr: usize) -> (r: Result<usize, Error>)
    ensures
        is_err_addr(folio_addr) ==> (r matches Err(e) && e@ == err_addr_errno(folio_addr)),
        !is_err_addr(folio_addr) && folio_addr == 0 ==> (r matches Err(e) && e@ == -EIO),
        !is_err_addr(folio_addr) && folio_addr != 0 ==> r == Ok::<usize, Error>(folio_addr),
{
    if folio_addr > usize::MAX - 4095 {
        let d: usize = usize::MAX - folio_addr;
        let errno: i32 = -(d as i32) - 1;
        return Err(Error::from_errno(errno));
    }
    if folio_addr == 0 {
        return Err(Error::eio());
    }
    Ok(folio_addr)
}

/// The pieces in which `for_each_page` reads `[offset, offset + len)`: one
/// per page, each running to the end of its page or of the range. An empty
/// or negative length reads nothing; a negative offset fails on the first
/// lookup.
pub fn mapper_page_chunks(offset: i64, len: i64) -> (r: Result<Vec<BlockChunk>, Error>)
    requires
        offset + len <= i64::MAX,
    ensures
        len <= 0 ==> (r matches Ok(chunks) && chunks@.len() == 0),
        len > 0 && offset < 0 ==> (r matches Err(e) && e@ == -EINVAL),
        len > 0 && offset >= 0 ==> (r matches Ok(chunks) && block_chunk_pairs(chunks@) == page_plan(
            offset as nat,
            (offset + len) as nat,
        )),
{
    let mut chunks: Vec<BlockChunk> = Vec::new();
    if len <= 0 {
        return Ok(chunks);
    }
    if offset < 0 {
        return Err(Error::einval());
    }
    let end: i64 = offset + len;
    let mut next: i64 = offset;
    while next < end
        invariant
            0 <= offset <= next <= end,
            block_chunk_pairs(chunks@) + page_plan(next as nat, end as nat) == page_plan(
                offset as nat,
                end as nat,
            ),
        decreases end - next,
    {
        let in_page: i64 = next % 4096;
        let to_page_end: i64 = 4096 - in_page;
        let remain: i64 = end - next;
        let avail: i64 = if remain < to_page_end {
            remain
        } else {
            to_page_end
        };
        let ghost before = chunks@;
        chunks.push(BlockChunk { offset: next, len: avail as usize });
        proof {
            assert(avail == super::folio::chunk_len(next as nat, end as nat));
            assert(page_plan(next as nat, end as nat) == seq![(next as nat, avail as nat)] + page_plan(
                (next + avail) as nat,
                end as nat,
            ));
            assert(block_chunk_pairs(chunks@) == block_chunk_pairs(before) + seq![(next as nat, avail as nat)]);
            assert(block_chunk_pairs(before) + page_plan(next as nat, end as nat) == block_chunk_pairs(chunks@)
                + page_plan((next + avail) as nat, end as nat));
        }
        next = next + avail;
    }
    proof {
        assert(page_plan(next as nat, end as nat) == Seq::<(nat, nat)>::empty());
        assert(block_chunk_pairs(chunks@) + Seq::<(nat, nat)>::empty() == block_chunk_pairs(chunks@));
    }
    Ok(chunks)
}

} // verus!
