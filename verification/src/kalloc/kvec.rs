//! A growable array whose allocations take GFP flags and report failure
//! with `AllocError` instead of panicking.
//!
//! The vector tracks the capacity it has asked the allocator for and grows
//! it by the kernel policy: to 1 from empty, otherwise by doubling, and
//! exactly to the requested size on `reserve`. A capacity is only taken
//! once its array layout is valid.

use vstd::prelude::*;
use vstd::layout::valid_layout;
use super::{AllocError, Flags, array_layout, array_bytes};

verus! {

/// The array of `n` values of type `T` has a valid layout.
pub open spec fn array_ok<T>(n: int) -> bool {
    0 <= n <= usize::MAX && array_bytes::<T>(n as usize) <= usize::MAX && valid_layout(
        array_bytes::<T>(n as usize) as usize,
        vstd::layout::align_of::<T>() as usize,
    )
}

/// The capacity `grow` asks for when the vector of capacity `cap` is full.
pub open spec fn grown_cap(cap: int) -> int {
    if cap == 0 {
        1
    } else {
        2 * cap
    }
}

/// A contiguous growable array backed by a kernel allocator.
pub struct Vec<T> {
    items: std::vec::Vec<T>,
    cap: usize,
}

/// `KVec<T>`: the common kernel vector type.
pub type KVec<T> = Vec<T>;

impl<T> View for Vec<T> {
    type V = Seq<T>;

    /// The elements.
    closed spec fn view(&self) -> Seq<T> {
        self.items@
    }
}

impl<T> Vec<T> {
    /// The capacity obtained from the allocator.
    pub closed spec fn cap(&self) -> nat {
        self.cap as nat
    }

    /// The elements always fit in the capacity, whose array layout is valid.
    #[verifier::type_invariant]
    spec fn fits(&self) -> bool {
        &&& self.items@.len() <= self.cap
        &&& array_ok::<T>(self.cap as int)
    }

    /// Creates an empty vector without allocating.
    pub fn new() -> (v: Self)
        ensures
            v@ == Seq::<T>::empty(),
            v.cap() == 0,
    {
        vstd::layout::layout_for_type_is_valid::<T>();
        proof {
            assert(array_bytes::<T>(0) == 0);
            let a = vstd::layout::align_of::<T>() as usize;
            assert(isize::MAX as int % a as int <= isize::MAX as int) by {
                vstd::arithmetic::div_mod::lemma_mod_bound(isize::MAX as int, a as int);
            }
        }
        Vec { items: std::vec::Vec::new(), cap: 0 }
    }

    /// Creates a vector with room for at least `capacity` elements.
    pub fn with_capacity(capacity: usize, flags: Flags) -> (r: Result<Self, AllocError>)
        ensures
            r.is_ok() == (capacity == 0 || array_ok::<T>(capacity as int)),
            r matches Ok(v) ==> v@ == Seq::<T>::empty() && v.cap() == capacity,
    {
        let mut v = Self::new();
        match v.reserve(capacity, flags) {
            Ok(()) => Ok(v),
            Err(e) => Err(e),
        }
    }

    /// Number of elements.
    pub fn len(&self) -> (n: usize)
        ensures
            self@.len() <= self.cap(),
            n == self@.len(),
    {
        proof {
            use_type_invariant(self);
        }
        self.items.len()
    }

    /// Whether there are no elements.
    pub fn is_empty(&self) -> (b: bool)
        ensures
            b == (self@.len() == 0),
    {
        self.items.len() == 0
    }

    /// The current capacity.
    pub fn capacity(&self) -> (c: usize)
        ensures
            c >= self@.len(),
            c == self.cap(),
    {
        proof {
            use_type_invariant(self);
        }
        self.cap
    }

    /// Appends an element, growing the capacity first if the vector is
    /// full. On failure the vector is unchanged.
    pub fn push(&mut self, val: T, flags: Flags) -> (r: Result<(), AllocError>)
        ensures
            final(self)@.len() <= final(self).cap(),
            r.is_ok() == (old(self)@.len() < old(self).cap() || array_ok::<T>(grown_cap(old(self).cap() as int))),
            r.is_ok() ==> final(self)@ == old(self)@.push(val),
            r.is_ok() ==> final(self).cap() == (if old(self)@.len() < old(self).cap() {
                old(self).cap() as int
            } else {
                grown_cap(old(self).cap() as int)
            }),
            r.is_err() ==> final(self)@ == old(self)@ && final(self).cap() == old(self).cap(),
    {
        proof {
            use_type_invariant(&*self);
        }
        if self.items.len() == self.cap {
            match self.grow(flags) {
                Ok(()) => {},
                Err(e) => return Err(e),
            }
        }
        let mut items = self.take_items();
        items.push(val);
        self.items = items;
        Ok(())
    }

    /// Removes and returns the last element, or `None` if empty.
    pub fn pop(&mut self) -> (r: Option<T>)
        ensures
            final(self)@.len() <= final(self).cap(),
            final(self).cap() == old(self).cap(),
            old(self)@.len() > 0 ==> r == Some(old(self)@.last()) && final(self)@ == old(self)@.drop_last(),
            old(self)@.len() == 0 ==> r.is_none() && final(self)@ == old(self)@,
    {
        proof {
            use_type_invariant(&*self);
        }
        let mut items = self.take_items();
        let r = items.pop();
        self.items = items;
        r
    }

    /// The elements as a slice.
    pub fn as_slice(&self) -> (s: &[T])
        ensures
            s@ == self@,
    {
        self.items.as_slice()
    }

    /// Removes all elements, keeping the capacity.
    pub fn clear(&mut self)
        ensures
            final(self)@.len() <= final(self).cap(),
            final(self)@ == Seq::<T>::empty(),
            final(self).cap() == old(self).cap(),
    {
        proof {
            use_type_invariant(&*self);
        }
        let mut items = self.take_items();
        items.clear();
        self.items = items;
    }

    /// Shortens the vector to `new_len` elements; does nothing if it is not
    /// longer than that.
    pub fn truncate(&mut self, new_len: usize)
        ensures
            final(self)@.len() <= final(self).cap(),
            final(self).cap() == old(self).cap(),
            new_len >= old(self)@.len() ==> final(self)@ == old(self)@,
            new_len < old(self)@.len() ==> final(self)@ == old(self)@.subrange(0, new_len as int),
    {
        proof {
            use_type_invariant(&*self);
        }
        if new_len >= self.items.len() {
            return;
        }
        let mut items = self.take_items();
        items.truncate(new_len);
        self.items = items;
    }

    /// Makes room for at least `additional` more elements: the capacity
    /// becomes exactly `len + additional` if it is smaller. Fails if that
    /// overflows or has no valid layout; the vector is then unchanged.
    pub fn reserve(&mut self, additional: usize, flags: Flags) -> (r: Result<(), AllocError>)
        ensures
            final(self)@.len() <= final(self).cap(),
            final(self)@ == old(self)@,
            r.is_ok() == (old(self)@.len() + additional <= old(self).cap() || array_ok::<T>(
                old(self)@.len() + additional,
            )),
            r.is_ok() ==> final(self).cap() == (if old(self)@.len() + additional <= old(self).cap() {
                old(self).cap() as int
            } else {
                old(self)@.len() + additional
            }),
            r.is_err() ==> final(self).cap() == old(self).cap(),
    {
        proof {
            use_type_invariant(&*self);
        }
        let needed = match self.items.len().checked_add(additional) {
            Some(n) => n,
            None => return Err(AllocError),
        };
        if needed <= self.cap {
            return Ok(());
        }
        self.realloc_to(needed, flags)
    }

    /// Moves the elements out, leaving the vector empty with its capacity.
    fn take_items(&mut self) -> (items: std::vec::Vec<T>)
        ensures
            items@ == old(self)@,
            final(self)@ == Seq::<T>::empty(),
            final(self).cap() == old(self).cap(),
    {
        proof {
            use_type_invariant(&*self);
        }
        let mut items = std::vec::Vec::new();
        core::mem::swap(&mut items, &mut self.items);
        items
    }

    /// Grows the capacity: to 1 from empty, otherwise doubled.
    fn grow(&mut self, flags: Flags) -> (r: Result<(), AllocError>)
        requires
            old(self)@.len() == old(self).cap(),
        ensures
            final(self)@ == old(self)@,
            r.is_ok() == array_ok::<T>(grown_cap(old(self).cap() as int)),
            r.is_ok() ==> final(self).cap() == grown_cap(old(self).cap() as int),
            r.is_err() ==> final(self).cap() == old(self).cap(),
    {
        let new_cap = if self.cap == 0 {
            1
        } else {
            match self.cap.checked_mul(2) {
                Some(c) => c,
                None => return Err(AllocError),
            }
        };
        self.realloc_to(new_cap, flags)
    }

    /// Takes a capacity of exactly `new_cap` elements.
    fn realloc_to(&mut self, new_cap: usize, flags: Flags) -> (r: Result<(), AllocError>)
        requires
            old(self)@.len() <= new_cap,
        ensures
            final(self)@ == old(self)@,
            r.is_ok() == array_ok::<T>(new_cap as int),
            r.is_ok() ==> final(self).cap() == new_cap,
            r.is_err() ==> final(self).cap() == old(self).cap(),
    {
        proof {
            use_type_invariant(&*self);
        }
        let new_layout = array_layout::<T>(new_cap);
        if new_layout.is_err() {
            return Err(AllocError);
        }
        let old_layout = array_layout::<T>(self.cap);
        if old_layout.is_err() {
            return Err(AllocError);
        }
        let additional = new_cap - self.items.len();
        let mut items = self.take_items();
        items.reserve(additional);
        self.cap = new_cap;
        self.items = items;
        Ok(())
    }
}

impl<T: Clone> Vec<T> {
    /// Appends clones of all elements of `other`, reserving room for them
    /// first. On failure the vector is unchanged.
    pub fn extend_from_slice(&mut self, other: &[T], flags: Flags) -> (r: Result<(), AllocError>)
        ensures
            final(self)@.len() <= final(self).cap(),
            r.is_ok() == (old(self)@.len() + other@.len() <= old(self).cap() || array_ok::<T>(
                (old(self)@.len() + other@.len()) as int,
            )),
            r.is_ok() ==> final(self)@.len() == old(self)@.len() + other@.len(),
            r.is_ok() ==> forall|i: int|
                #![trigger final(self)@[i]]
                0 <= i < final(self)@.len() ==> if i < old(self)@.len() {
                    final(self)@[i] == old(self)@[i]
                } else {
                    cloned::<T>(other@[i - old(self)@.len()], final(self)@[i])
                },
            r.is_err() ==> final(self)@ == old(self)@ && final(self).cap() == old(self).cap(),
    {
        proof {
            use_type_invariant(&*self);
        }
        match self.reserve(other.len(), flags) {
            Ok(()) => {},
            Err(e) => return Err(e),
        }
        let mut items = self.take_items();
        items.extend_from_slice(other);
        self.items = items;
        Ok(())
    }
}

} // verus!
