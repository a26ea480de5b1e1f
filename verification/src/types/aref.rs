//! Owned references to objects whose reference count the kernel keeps.

use vstd::prelude::*;

verus! {

/// Objects reference-counted by the kernel (inodes, folios, namespaces),
/// known by address.
pub trait AlwaysRefCounted {
    /// Take one more reference on the object at `addr`.
    fn inc_ref(addr: usize);

    /// Drop one reference on the object at `addr`; the kernel frees the
    /// object when the last one goes.
    fn dec_ref(addr: usize);
}

/// One counted reference to a kernel object.
pub struct ARef<T: AlwaysRefCounted> {
    ptr: usize,
    _p: core::marker::PhantomData<T>,
}

impl<T: AlwaysRefCounted> ARef<T> {
    /// Address of the object.
    pub closed spec fn addr(&self) -> usize {
        self.ptr
    }

    /// Take ownership of one existing reference to the object at the
    /// non-null address `ptr`.
    pub fn from_raw(ptr: usize) -> (r: Self)
        requires
            ptr != 0,
        ensures
            r.addr() == ptr,
    {
        ARef { ptr, _p: core::marker::PhantomData }
    }

    /// Address of the object, without giving up the reference.
    pub fn as_ptr(&self) -> (p: usize)
        ensures
            p == self.addr(),
    {
        self.ptr
    }

    /// Give up the `ARef` without dropping its reference; the caller now
    /// owns it.
    pub fn into_raw(self) -> (p: usize)
        ensures
            p == self.addr(),
    {
        self.ptr
    }

    /// Another reference to the same object (the count goes up).
    pub fn clone_ref(&self) -> (r: Self)
        ensures
            r.addr() == self.addr(),
    {
        T::inc_ref(self.ptr);
        ARef { ptr: self.ptr, _p: core::marker::PhantomData }
    }

    /// Drop this reference (the count goes down).
    pub fn release(self) {
        T::dec_ref(self.ptr);
    }
}

} // verus!
