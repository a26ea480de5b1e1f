//! Scatter-gather I/O iterators: how much a transfer moves and what its
//! result means.

use vstd::prelude::*;
use crate::error::{Error, EFAULT};

verus! {

/// An I/O vector iterator, known by the bytes it still covers.
pub struct IoVecIter {
    count: usize,
}

impl IoVecIter {
    /// Bytes the iterator still covers.
    pub closed spec fn remaining(&self) -> usize {
        self.count
    }

    /// An iterator covering `count` bytes.
    pub fn new(count: usize) -> (it: Self)
        ensures
            it.remaining() == count,
    {
        IoVecIter { count }
    }

    /// Returns the number of bytes remaining in the iterator.
    pub fn count(&self) -> (n: usize)
        ensures
            n == self.remaining(),
    {
        self.count
    }

    /// Returns true if no bytes remain.
    pub fn is_empty(&self) -> (b: bool)
        ensures
            b == (self.remaining() == 0),
    {
        self.count == 0
    }

    /// How many bytes a transfer of a `len`-byte buffer asks for: up to
    /// what the iterator still covers.
    pub fn transfer_len(&self, len: usize) -> (n: usize)
        ensures
            n == (if len < self.remaining() { len } else { self.remaining() }),
    {
        if len < self.count {
            len
        } else {
            self.count
        }
    }

    /// Finish a transfer that asked for `n` bytes and moved `copied`: an
    /// empty request moves nothing; a request that moved nothing is
    /// `EFAULT`; otherwise the iterator advances past the bytes moved,
    /// which are returned.
    pub fn complete(&mut self, n: usize, copied: usize) -> (r: Result<usize, Error>)
        requires
            n <= old(self).remaining(),
            copied <= n,
        ensures
            n == 0 ==> r == Ok::<usize, Error>(0) && final(self).remaining() == old(self).remaining(),
            n > 0 && copied == 0 ==> (r matches Err(e) && e@ == -EFAULT) && final(self).remaining() == old(
                self,
            ).remaining(),
            n > 0 && copied > 0 ==> r == Ok::<usize, Error>(copied) && final(self).remaining() == old(
                self,
            ).remaining() - copied,
    {
        if n == 0 {
            return Ok(0);
        }
        if copied == 0 {
            return Err(Error::efault());
        }
        self.count = self.count - copied;
        Ok(copied)
    }
}

/// What `write_all` makes of a write that moved `written` of `len` bytes:
/// anything short of all of them is `EFAULT`.
pub fn write_all_outcome(written: usize, len: usize) -> (r: Result<(), Error>)
    ensures
        written == len ==> r.is_ok(),
        written != len ==> (r matches Err(e) && e@ == -EFAULT),
{
    if written != len {
        Err(Error::efault())
    } else {
        Ok(())
    }
}

} // verus!
