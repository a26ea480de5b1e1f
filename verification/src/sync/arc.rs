//! Reference-counted pointers.
//!
//! [`Arc`] shares one value between owners; [`UniqueArc`] is an `Arc` known
//! to have a single owner; [`ArcBorrow`] is a borrowed reference to an
//! `Arc`-managed value.

use vstd::prelude::*;
use crate::kalloc::{AllocError, Flags};

verus! {

/// A reference-counted pointer to a value of type `T`.
pub struct Arc<T> {
    inner: std::sync::Arc<T>,
    addr: usize,
}

impl<T> View for Arc<T> {
    type V = T;

    /// The shared value.
    closed spec fn view(&self) -> T {
        *self.inner
    }
}

/// `std::sync::Arc::as_ptr`, read as the address of the allocation that
/// holds the value. The allocator picks the address, so nothing is stated
/// of it; the address is kept so that clones can be recognised.
#[verifier::external_body]
fn std_arc_addr<T>(a: &std::sync::Arc<T>) -> (addr: usize) {
    std::sync::Arc::as_ptr(a) as usize
}

impl<T> Arc<T> {
    /// The address of the allocation this `Arc` points to.
    pub closed spec fn addr(&self) -> usize {
        self.addr
    }

    /// Allocate a new reference-counted value.
    pub fn new(contents: T, flags: Flags) -> (r: Result<Self, AllocError>)
        ensures
            r matches Ok(a) && a@ == contents,
    {
        let inner = std::sync::Arc::new(contents);
        let addr = std_arc_addr(&inner);
        Ok(Arc { inner, addr })
    }

    /// Another owner of the same value, pointing to the same allocation.
    pub fn clone_arc(&self) -> (r: Self)
        ensures
            r@ == self@,
            r.addr() == self.addr(),
    {
        Arc { inner: std::sync::Arc::clone(&self.inner), addr: self.addr }
    }

    /// The shared value.
    pub fn get(&self) -> (v: &T)
        ensures
            *v == self@,
    {
        &*self.inner
    }

    /// Whether two `Arc`s point to the same allocation.
    pub fn ptr_eq(this: &Self, other: &Self) -> (r: bool)
        ensures
            r == (this.addr() == other.addr()),
    {
        this.addr == other.addr
    }

    /// A borrowed reference to the shared value.
    pub fn as_arc_borrow(&self) -> (b: ArcBorrow<'_, T>)
        ensures
            b@ == self@,
    {
        ArcBorrow { inner: &*self.inner }
    }
}

/// A borrowed reference to an [`Arc`]-managed value.
pub struct ArcBorrow<'a, T> {
    inner: &'a T,
}

impl<'a, T> View for ArcBorrow<'a, T> {
    type V = T;

    /// The value.
    closed spec fn view(&self) -> T {
        *self.inner
    }
}

impl<'a, T> ArcBorrow<'a, T> {
    /// The value.
    pub fn get(&self) -> (v: &'a T)
        ensures
            *v == self@,
    {
        self.inner
    }
}

/// An [`Arc`] known to have a single owner.
pub struct UniqueArc<T> {
    inner: Arc<T>,
}

impl<T> View for UniqueArc<T> {
    type V = T;

    /// The value.
    closed spec fn view(&self) -> T {
        self.inner@
    }
}

impl<T> UniqueArc<T> {
    /// Allocate a new uniquely-owned value.
    pub fn new(contents: T, flags: Flags) -> (r: Result<Self, AllocError>)
        ensures
            r matches Ok(a) && a@ == contents,
    {
        match Arc::new(contents, flags) {
            Ok(inner) => Ok(UniqueArc { inner }),
            Err(e) => Err(e),
        }
    }

    /// Share the value: the `Arc` it becomes.
    pub fn into_arc(self) -> (a: Arc<T>)
        ensures
            a@ == self@,
    {
        self.inner
    }
}

} // verus!
