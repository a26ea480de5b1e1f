//! Folio page arithmetic: how a byte range of a folio is cut into pieces
//! that each lie within one page, as each page is mapped on its own.

use vstd::prelude::*;
use crate::error::{Error, EINVAL, ERANGE};
use super::PAGE_SIZE;

verus! {

/// State marker: a folio belonging to the page cache of filesystem `T`.
pub struct PageCache<T> {
    _fs: core::marker::PhantomData<T>,
}

/// A piece of a byte range that lies within a single page.
#[derive(Clone, Copy, Debug, PartialEq, Eq, Structural)]
pub struct PageChunk {
    /// Byte offset of the piece.
    pub offset: usize,
    /// Length of the piece in bytes.
    pub len: usize,
}

/// The length of the piece starting at `start` of a range ending at `end`:
/// up to the end of the range or of the page, whichever comes first.
pub open spec fn chunk_len(start: nat, end: nat) -> nat {
    let to_page_end = PAGE_SIZE - start % (PAGE_SIZE as nat);
    if end - start < to_page_end {
        (end - start) as nat
    } else {
        to_page_end as nat
    }
}

/// The pieces of `[start, end)`, page by page.
pub open spec fn page_plan(start: nat, end: nat) -> Seq<(nat, nat)>
    decreases end - start,
{
    if start >= end {
        Seq::empty()
    } else {
        seq![(start, chunk_len(start, end))] + page_plan(start + chunk_len(start, end), end)
    }
}

/// The pieces as (offset, length) pairs.
pub open spec fn chunk_pairs(chunks: Seq<PageChunk>) -> Seq<(nat, nat)> {
    chunks.map_values(|c: PageChunk| (c.offset as nat, c.len as nat))
}

/// Cut `[offset, offset + len)` of a folio of `size` bytes into pieces
/// that each lie within one page. Fails with `ERANGE` if the end overflows
/// and with `EINVAL` if the range reaches past the folio.
pub fn folio_page_chunks(offset: usize, len: usize, size: usize) -> (r: Result<Vec<PageChunk>, Error>)
    ensures
        offset + len > usize::MAX ==> (r matches Err(e) && e@ == -ERANGE),
        offset + len <= usize::MAX && offset + len > size ==> (r matches Err(e) && e@ == -EINVAL),
        offset + len <= size ==> (r matches Ok(chunks) && chunk_pairs(chunks@) == page_plan(
            offset as nat,
            (offset + len) as nat,
        )),
{
    let end = match offset.checked_add(len) {
        Some(e) => e,
        None => return Err(Error::erange()),
    };
    if end > size {
        return Err(Error::einval());
    }
    Ok(plan_chunks(offset, end))
}

/// The pieces of `[start, end)`, page by page.
fn plan_chunks(start: usize, end: usize) -> (chunks: Vec<PageChunk>)
    requires
        start <= end,
    ensures
        chunk_pairs(chunks@) == page_plan(start as nat, end as nat),
{
    let mut chunks: Vec<PageChunk> = Vec::new();
    let mut next = start;
    while next < end
        invariant
            start <= next <= end,
            chunk_pairs(chunks@) + page_plan(next as nat, end as nat) == page_plan(start as nat, end as nat),
        decreases end - next,
    {
        let page_offset = next % PAGE_SIZE;
        let to_page_end = PAGE_SIZE - page_offset;
        let remaining = end - next;
        let usable = if remaining < to_page_end {
            remaining
        } else {
            to_page_end
        };
        let ghost before = chunks@;
        chunks.push(PageChunk { offset: next, len: usable });
        proof {
            assert(usable == chunk_len(next as nat, end as nat));
            assert(page_plan(next as nat, end as nat) == seq![(next as nat, usable as nat)] + page_plan(
                (next + usable) as nat,
                end as nat,
            ));
            assert(chunk_pairs(chunks@) == chunk_pairs(before) + seq![(next as nat, usable as nat)]);
            assert(chunk_pairs(before) + page_plan(next as nat, end as nat) == chunk_pairs(chunks@)
                + page_plan((next + usable) as nat, end as nat));
        }
        next = next + usable;
    }
    proof {
        assert(page_plan(next as nat, end as nat) == Seq::<(nat, nat)>::empty());
        assert(chunk_pairs(chunks@) + Seq::<(nat, nat)>::empty() == chunk_pairs(chunks@));
    }
    chunks
}

/// The pieces of a range tile it exactly: each piece is non-empty and lies
/// within one page, the first starts at `start`, each starts where the
/// previous one ends, and their lengths add up to the range's length.
pub proof fn lemma_page_plan_tiles(start: nat, end: nat)
    requires
        start <= end,
    ensures
        sum_lens(page_plan(start, end)) == end - start,
        forall|i: int| 0 <= i < page_plan(start, end).len() ==> {
            let c = #[trigger] page_plan(start, end)[i];
            &&& c.1 > 0
            &&& c.0 % (PAGE_SIZE as nat) + c.1 <= PAGE_SIZE
            &&& start <= c.0
            &&& c.0 + c.1 <= end
        },
        forall|i: int| 0 < i < page_plan(start, end).len() ==> #[trigger] page_plan(start, end)[i].0 == page_plan(
            start,
            end,
        )[i - 1].0 + page_plan(start, end)[i - 1].1,
        page_plan(start, end).len() > 0 ==> page_plan(start, end)[0].0 == start,
    decreases end - start,
{
    if start < end {
        let u = chunk_len(start, end);
        lemma_page_plan_tiles(start + u, end);
        let rest = page_plan(start + u, end);
        let all = page_plan(start, end);
        assert(all == seq![(start, u)] + rest);
        assert(sum_lens(all) == u + sum_lens(rest)) by {
            assert(all.drop_first() == rest);
        }
        assert forall|i: int| 0 < i < all.len() implies #[trigger] all[i].0 == all[i - 1].0 + all[i - 1].1 by {
            if i == 1 {
                assert(rest.len() > 0);
                assert(all[1] == rest[0]);
            } else {
                assert(all[i] == rest[i - 1]);
                assert(all[i - 1] == rest[i - 2]);
            }
        }
        assert forall|i: int| 0 <= i < all.len() implies {
            let c = #[trigger] all[i];
            &&& c.1 > 0
            &&& c.0 % (PAGE_SIZE as nat) + c.1 <= PAGE_SIZE
            &&& start <= c.0
            &&& c.0 + c.1 <= end
        } by {
            if i > 0 {
                assert(all[i] == rest[i - 1]);
            }
        }
    }
}

/// The total length of a sequence of pieces.
pub open spec fn sum_lens(s: Seq<(nat, nat)>) -> nat
    decreases s.len(),
{
    if s.len() == 0 {
        0
    } else {
        s[0].1 + sum_lens(s.drop_first())
    }
}

} // verus!
