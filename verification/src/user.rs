//! Userspace buffer bookkeeping.
//!
//! [`Writer`] and [`Reader`] track a userspace buffer, given by its address
//! and remaining length, across copies to and from it: each copy is checked
//! against the remaining length first, and once the copy has succeeded
//! (no bytes left pending) the buffer advances past the copied bytes.

use vstd::prelude::*;
use crate::error::{Error, EFAULT};

verus! {

/// The address `n` bytes after `ptr` (wrapping, as pointer arithmetic
/// here does).
pub open spec fn advance(ptr: usize, n: usize) -> usize {
    ((ptr + n) % (usize::MAX + 1)) as usize
}

/// A writer that copies data to a userspace buffer.
pub struct Writer {
    ptr: usize,
    len: usize,
}

impl Writer {
    /// Userspace address of the next byte to write.
    pub closed spec fn addr(&self) -> usize {
        self.ptr
    }

    /// Remaining capacity in bytes.
    pub closed spec fn remaining(&self) -> usize {
        self.len
    }

    /// A writer for the userspace buffer of `len` bytes at `ptr`.
    pub fn new(ptr: usize, len: usize) -> (w: Self)
        ensures
            w.addr() == ptr,
            w.remaining() == len,
    {
        Writer { ptr, len }
    }

    /// Returns the remaining capacity in bytes.
    pub fn len(&self) -> (n: usize)
        ensures
            n == self.remaining(),
    {
        self.len
    }

    /// Returns true if no more bytes can be written.
    pub fn is_empty(&self) -> (b: bool)
        ensures
            b == (self.remaining() == 0),
    {
        self.len == 0
    }

    /// Userspace address of the next byte to write.
    pub fn ptr(&self) -> (p: usize)
        ensures
            p == self.addr(),
    {
        self.ptr
    }

    /// Check a write of `n` bytes before copying: `EFAULT` if the buffer
    /// is too small.
    pub fn check_write(&self, n: usize) -> (r: Result<(), Error>)
        ensures
            n > self.remaining() ==> (r matches Err(e) && e@ == -EFAULT),
            n <= self.remaining() ==> r.is_ok(),
    {
        if n > self.len {
            Err(Error::efault())
        } else {
            Ok(())
        }
    }

    /// Finish a write of `n` bytes after `copy_to_user` left `pending` bytes
    /// uncopied: any pending byte is `EFAULT` and leaves the writer as it
    /// was; otherwise the writer advances past the `n` bytes.
    pub fn complete_write(&mut self, n: usize, pending: u64) -> (r: Result<(), Error>)
        requires
            n <= old(self).remaining(),
        ensures
            pending != 0 ==> (r matches Err(e) && e@ == -EFAULT) && final(self).addr() == old(self).addr()
                && final(self).remaining() == old(self).remaining(),
            pending == 0 ==> r.is_ok() && final(self).addr() == advance(old(self).addr(), n)
                && final(self).remaining() == old(self).remaining() - n,
    {
        if pending != 0 {
            return Err(Error::efault());
        }
        self.ptr = self.ptr.wrapping_add(n);
        self.len = self.len - n;
        Ok(())
    }
}

/// A reader that copies data from a userspace buffer.
pub struct Reader {
    ptr: usize,
    len: usize,
}

impl Reader {
    /// Userspace address of the next byte to read.
    pub closed spec fn addr(&self) -> usize {
        self.ptr
    }

    /// Remaining bytes available to read.
    pub closed spec fn remaining(&self) -> usize {
        self.len
    }

    /// A reader for the userspace buffer of `len` bytes at `ptr`.
    pub fn new(ptr: usize, len: usize) -> (r: Self)
        ensures
            r.addr() == ptr,
            r.remaining() == len,
    {
        Reader { ptr, len }
    }

    /// Returns the remaining bytes available to read.
    pub fn len(&self) -> (n: usize)
        ensures
            n == self.remaining(),
    {
        self.len
    }

    /// Returns true if no more bytes can be read.
    pub fn is_empty(&self) -> (b: bool)
        ensures
            b == (self.remaining() == 0),
    {
        self.len == 0
    }

    /// Userspace address of the next byte to read.
    pub fn ptr(&self) -> (p: usize)
        ensures
            p == self.addr(),
    {
        self.ptr
    }

    /// How many bytes a read into a buffer of `buf_len` bytes copies: as
    /// many as fit, up to what remains.
    pub fn read_len(&self, buf_len: usize) -> (n: usize)
        ensures
            n == (if buf_len < self.remaining() { buf_len } else { self.remaining() }),
    {
        if buf_len < self.len {
            buf_len
        } else {
            self.len
        }
    }

    /// Finish a read of `n` bytes after `copy_from_user` left `pending`
    /// bytes uncopied: nothing to read is `Ok(0)`; a pending byte is
    /// `EFAULT` and leaves the reader as it was; otherwise the reader
    /// advances past the `n` bytes and returns `n`.
    pub fn complete_read(&mut self, n: usize, pending: u64) -> (r: Result<usize, Error>)
        requires
            n <= old(self).remaining(),
        ensures
            n == 0 ==> r == Ok::<usize, Error>(0) && final(self).addr() == old(self).addr()
                && final(self).remaining() == old(self).remaining(),
            n > 0 && pending != 0 ==> (r matches Err(e) && e@ == -EFAULT) && final(self).addr() == old(
                self,
            ).addr() && final(self).remaining() == old(self).remaining(),
            n > 0 && pending == 0 ==> r == Ok::<usize, Error>(n) && final(self).addr() == advance(
                old(self).addr(),
                n,
            ) && final(self).remaining() == old(self).remaining() - n,
    {
        if n == 0 {
            return Ok(0);
        }
        if pending != 0 {
            return Err(Error::efault());
        }
        self.ptr = self.ptr.wrapping_add(n);
        self.len = self.len - n;
        Ok(n)
    }
}

} // verus!
