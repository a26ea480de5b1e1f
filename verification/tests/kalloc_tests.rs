use rko_core::kalloc::{
    array_layout, Flags, KVec, Kmalloc, MemCache, Vec, GFP_ATOMIC, GFP_KERNEL, GFP_NOFS,
    GFP_ZERO,
};

#[test]
fn gfp_values() {
    assert_eq!(Flags::gfp_kernel().bits(), 0xcc0);
    assert_eq!(GFP_KERNEL, 0xcc0);
    assert_eq!(Flags::gfp_nofs().bits(), GFP_NOFS);
    assert_eq!(Flags::gfp_atomic().bits(), GFP_ATOMIC);
    let f = Flags::gfp_kernel().union(Flags::gfp_zero());
    assert_eq!(f.bits(), 0xcc0 | GFP_ZERO);
    assert!(f.contains(Flags::gfp_zero()));
    assert!(!Flags::gfp_kernel().contains(Flags::gfp_zero()));
    assert_eq!(Flags::from_bits_retain(7).bits(), 7);
    assert_eq!(Flags::empty().bits(), 0);
}

#[test]
fn array_layouts() {
    let l = array_layout::<u64>(10).unwrap();
    assert_eq!(l.size(), 80);
    assert_eq!(l.align(), core::mem::align_of::<u64>());
    assert_eq!(array_layout::<u8>(0).unwrap().size(), 0);
    assert!(array_layout::<u64>(usize::MAX / 4).is_err());
    assert!(array_layout::<u8>(isize::MAX as usize + 1).is_err());
    assert_eq!(array_layout::<u8>(isize::MAX as usize).unwrap().size(), isize::MAX as usize);
}

#[test]
fn kmalloc_outcomes() {
    let empty = array_layout::<u64>(0).unwrap();
    assert_eq!(
        Kmalloc::realloc_outcome(empty, 0),
        Ok((core::mem::align_of::<u64>(), 0))
    );
    assert_eq!(Kmalloc::realloc_outcome(empty, 0x1000), Ok((core::mem::align_of::<u64>(), 0)));
    let bytes = array_layout::<u8>(16).unwrap();
    assert_eq!(Kmalloc::realloc_outcome(bytes, 0), Err(rko_core::kalloc::AllocError));
    assert_eq!(Kmalloc::realloc_outcome(bytes, 0x1000), Ok((0x1000, 16)));
}

#[test]
fn memcache_outcome() {
    assert_eq!(MemCache::from_created(0).err().unwrap().to_errno(), -12);
    assert_eq!(MemCache::from_created(0x40).ok().unwrap().as_ptr(), 0x40);
}

#[test]
fn kvec_grows_by_doubling() {
    let mut v: KVec<u32> = Vec::new();
    assert_eq!(v.capacity(), 0);
    assert!(v.is_empty());
    v.push(1, Flags::gfp_kernel()).unwrap();
    assert_eq!(v.capacity(), 1);
    v.push(2, Flags::gfp_kernel()).unwrap();
    assert_eq!(v.capacity(), 2);
    v.push(3, Flags::gfp_kernel()).unwrap();
    assert_eq!(v.capacity(), 4);
    assert_eq!(v.as_slice(), &[1, 2, 3]);
    assert_eq!(v.pop(), Some(3));
    assert_eq!(v.len(), 2);
}

#[test]
fn kvec_reserve_truncate_extend() {
    let mut v: KVec<u8> = Vec::with_capacity(3, Flags::gfp_kernel()).unwrap();
    assert_eq!(v.capacity(), 3);
    v.extend_from_slice(&[1, 2, 3, 4, 5], Flags::gfp_kernel()).unwrap();
    assert_eq!(v.capacity(), 5);
    v.reserve(1, Flags::gfp_kernel()).unwrap();
    assert_eq!(v.capacity(), 6);
    v.reserve(1, Flags::gfp_kernel()).unwrap();
    assert_eq!(v.capacity(), 6);
    assert!(v.reserve(usize::MAX, Flags::gfp_kernel()).is_err());
    assert_eq!(v.capacity(), 6);
    v.truncate(10);
    assert_eq!(v.len(), 5);
    v.truncate(2);
    assert_eq!(v.as_slice(), &[1, 2]);
    v.clear();
    assert!(v.is_empty());
    assert_eq!(v.capacity(), 6);
    assert_eq!(v.pop(), None);
}

#[test]
fn kvec_capacity_overflow_fails() {
    assert!(Vec::<u64>::with_capacity(usize::MAX / 2, Flags::gfp_kernel()).is_err());
}

#[test]
fn alloc_error_message() {
    assert_eq!(rko_core::kalloc::AllocError.message(), "memory allocation failed");
}
