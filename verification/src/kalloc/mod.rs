//! Kernel memory allocation: GFP flags, array layouts, the outcome of a
//! `kmalloc` reallocation, and the growth policy of kernel vectors.

pub mod kvec;

pub use kvec::{KVec, Vec};

use vstd::prelude::*;
use vstd::layout::valid_layout;
use crate::error::{Error, ENOMEM};

verus! {

/// Allocation error (the kernel's `-ENOMEM`).
#[derive(Copy, Clone, Debug, PartialEq, Eq, Structural)]
pub struct AllocError;

impl AllocError {
    /// The message describing this error.
    pub fn message(&self) -> (s: &'static str)
        ensures
            s@ == "memory allocation failed"@,
    {
        "memory allocation failed"
    }
}

/// Bit positions of the GFP flags (`___GFP_*_BIT`).
pub const GFP_DMA_BIT: u32 = 0;
pub const GFP_HIGHMEM_BIT: u32 = 1;
pub const GFP_DMA32_BIT: u32 = 2;
pub const GFP_MOVABLE_BIT: u32 = 3;
pub const GFP_RECLAIMABLE_BIT: u32 = 4;
pub const GFP_HIGH_BIT: u32 = 5;
pub const GFP_IO_BIT: u32 = 6;
pub const GFP_FS_BIT: u32 = 7;
pub const GFP_ZERO_BIT: u32 = 8;
pub const GFP_DIRECT_RECLAIM_BIT: u32 = 10;
pub const GFP_KSWAPD_RECLAIM_BIT: u32 = 11;
pub const GFP_WRITE_BIT: u32 = 12;
pub const GFP_NOWARN_BIT: u32 = 13;
pub const GFP_RETRY_MAYFAIL_BIT: u32 = 14;
pub const GFP_NOFAIL_BIT: u32 = 15;
pub const GFP_NORETRY_BIT: u32 = 16;
pub const GFP_COMP_BIT: u32 = 18;
pub const GFP_HARDWALL_BIT: u32 = 20;
pub const GFP_THISNODE_BIT: u32 = 21;
pub const GFP_ACCOUNT_BIT: u32 = 22;
pub const GFP_ZEROTAGS_BIT: u32 = 23;

/// `__GFP_IO`.
pub const GFP_IO: u32 = 0x40;
/// `__GFP_FS`.
pub const GFP_FS: u32 = 0x80;
/// `__GFP_HIGH`.
pub const GFP_HIGH: u32 = 0x20;
/// `__GFP_ZERO`.
pub const GFP_ZERO: u32 = 0x100;
/// `__GFP_DIRECT_RECLAIM`.
pub const GFP_DIRECT_RECLAIM: u32 = 0x400;
/// `__GFP_KSWAPD_RECLAIM`.
pub const GFP_KSWAPD_RECLAIM: u32 = 0x800;
/// `__GFP_RECLAIM`: direct and kswapd reclaim.
pub const GFP_RECLAIM: u32 = 0xc00;
/// `GFP_KERNEL`: reclaim, I/O and filesystem calls allowed.
pub const GFP_KERNEL: u32 = 0xcc0;
/// `GFP_NOFS`: reclaim and I/O, no filesystem calls.
pub const GFP_NOFS: u32 = 0xc40;
/// `GFP_ATOMIC`: may use reserves, kswapd reclaim only.
pub const GFP_ATOMIC: u32 = 0x820;
/// `GFP_NOWAIT`: kswapd reclaim only.
pub const GFP_NOWAIT: u32 = 0x800;

/// Kernel GFP allocation flags (`gfp_t`).
#[derive(Clone, Copy, Debug, PartialEq, Eq, Structural)]
pub struct Flags {
    bits: u32,
}

impl View for Flags {
    type V = u32;

    /// The flag bits.
    closed spec fn view(&self) -> u32 {
        self.bits
    }
}

impl Flags {
    /// Flags with exactly the given bits.
    pub fn from_bits_retain(bits: u32) -> (f: Self)
        ensures
            f@ == bits,
    {
        Flags { bits }
    }

    /// The flag bits.
    pub fn bits(&self) -> (b: u32)
        ensures
            b == self@,
    {
        self.bits
    }

    /// No flags.
    pub fn empty() -> (f: Self)
        ensures
            f@ == 0,
    {
        Flags { bits: 0 }
    }

    /// `GFP_KERNEL`.
    pub fn gfp_kernel() -> (f: Self)
        ensures
            f@ == GFP_KERNEL,
    {
        Flags { bits: GFP_KERNEL }
    }

    /// `GFP_NOFS`.
    pub fn gfp_nofs() -> (f: Self)
        ensures
            f@ == GFP_NOFS,
    {
        Flags { bits: GFP_NOFS }
    }

    /// `GFP_ATOMIC`.
    pub fn gfp_atomic() -> (f: Self)
        ensures
            f@ == GFP_ATOMIC,
    {
        Flags { bits: GFP_ATOMIC }
    }

    /// `GFP_NOWAIT`.
    pub fn gfp_nowait() -> (f: Self)
        ensures
            f@ == GFP_NOWAIT,
    {
        Flags { bits: GFP_NOWAIT }
    }

    /// `__GFP_ZERO`: zero the allocated memory.
    pub fn gfp_zero() -> (f: Self)
        ensures
            f@ == GFP_ZERO,
    {
        Flags { bits: GFP_ZERO }
    }

    /// The flags set in either `self` or `other`.
    pub fn union(self, other: Self) -> (f: Self)
        ensures
            f@ == self@ | other@,
    {
        Flags { bits: self.bits | other.bits }
    }

    /// All flags of `other` are set in `self`.
    pub fn contains(&self, other: Self) -> (b: bool)
        ensures
            b == (self@ & other@ == other@),
    {
        self.bits & other.bits == other.bits
    }
}

/// The compound flags are the unions of their parts: `GFP_KERNEL` is
/// reclaim with I/O and filesystem calls, `GFP_NOFS` is reclaim with I/O,
/// `GFP_ATOMIC` is high priority with kswapd reclaim, and each named flag is
/// the bit at its position.
pub proof fn lemma_gfp_compounds()
    ensures
        GFP_RECLAIM == GFP_DIRECT_RECLAIM | GFP_KSWAPD_RECLAIM,
        GFP_KERNEL == GFP_RECLAIM | GFP_IO | GFP_FS,
        GFP_NOFS == GFP_RECLAIM | GFP_IO,
        GFP_ATOMIC == GFP_HIGH | GFP_KSWAPD_RECLAIM,
        GFP_NOWAIT == GFP_KSWAPD_RECLAIM,
        GFP_IO == 1u32 << GFP_IO_BIT,
        GFP_FS == 1u32 << GFP_FS_BIT,
        GFP_HIGH == 1u32 << GFP_HIGH_BIT,
        GFP_ZERO == 1u32 << GFP_ZERO_BIT,
        GFP_DIRECT_RECLAIM == 1u32 << GFP_DIRECT_RECLAIM_BIT,
        GFP_KSWAPD_RECLAIM == 1u32 << GFP_KSWAPD_RECLAIM_BIT,
{
    assert(0xc00u32 == 0x400u32 | 0x800u32) by (bit_vector);
    assert(0xcc0u32 == 0xc00u32 | 0x40u32 | 0x80u32) by (bit_vector);
    assert(0xc40u32 == 0xc00u32 | 0x40u32) by (bit_vector);
    assert(0x820u32 == 0x20u32 | 0x800u32) by (bit_vector);
    assert(0x40u32 == 1u32 << 6u32) by (bit_vector);
    assert(0x80u32 == 1u32 << 7u32) by (bit_vector);
    assert(0x20u32 == 1u32 << 5u32) by (bit_vector);
    assert(0x100u32 == 1u32 << 8u32) by (bit_vector);
    assert(0x400u32 == 1u32 << 10u32) by (bit_vector);
    assert(0x800u32 == 1u32 << 11u32) by (bit_vector);
}

/// Size and alignment of a block of memory.
#[derive(Clone, Copy, Debug, PartialEq, Eq, Structural)]
pub struct Layout {
    size: usize,
    align: usize,
}

impl Layout {
    /// Size in bytes.
    pub closed spec fn size_spec(&self) -> usize {
        self.size
    }

    /// Alignment in bytes.
    pub closed spec fn align_spec(&self) -> usize {
        self.align
    }

    /// Size in bytes.
    pub fn size(&self) -> (s: usize)
        ensures
            s == self.size_spec(),
    {
        self.size
    }

    /// Alignment in bytes.
    pub fn align(&self) -> (a: usize)
        ensures
            a == self.align_spec(),
    {
        self.align
    }
}

/// `core::alloc::Layout::from_size_align`, returned as a layout of this
/// library. The standard library documents that it succeeds exactly when
/// `align` is a power of two and `size` rounded up to a multiple of
/// `align` does not exceed `isize::MAX`, and that the layout then has the
/// given size and alignment.
#[verifier::external_body]
fn layout_from_size_align(size: usize, align: usize) -> (r: Option<Layout>)
    ensures
        r.is_some() == valid_layout(size, align),
        r matches Some(l) ==> l.size_spec() == size && l.align_spec() == align,
{
    match core::alloc::Layout::from_size_align(size, align) {
        Ok(_) => Some(Layout { size, align }),
        Err(_) => None,
    }
}

/// The byte size of `n` values of type `T`, when it fits.
pub open spec fn array_bytes<T>(n: usize) -> int {
    vstd::layout::size_of::<T>() * n
}

/// Computes the layout of `[T; n]`, failing with `AllocError` when the size
/// overflows or is too large for a layout.
pub fn array_layout<T>(n: usize) -> (r: Result<Layout, AllocError>)
    ensures
        r.is_ok() == (array_bytes::<T>(n) <= usize::MAX && valid_layout(
            array_bytes::<T>(n) as usize,
            vstd::layout::align_of::<T>() as usize,
        )),
        r matches Ok(l) ==> l.size_spec() == array_bytes::<T>(n) && l.align_spec()
            == vstd::layout::align_of::<T>(),
{
    vstd::layout::layout_for_type_is_valid::<T>();
    let elem = core::mem::size_of::<T>();
    let size = match elem.checked_mul(n) {
        Some(s) => s,
        None => return Err(AllocError),
    };
    match layout_from_size_align(size, core::mem::align_of::<T>()) {
        Some(l) => Ok(l),
        None => Err(AllocError),
    }
}

/// Kmalloc-backed allocator.
pub struct Kmalloc;

impl Kmalloc {
    /// The outcome of a `krealloc` for `layout` that returned address
    /// `result`: a zero-size request has freed the memory and gives an
    /// empty block at a dangling address aligned to the layout (the
    /// alignment itself); otherwise a null address is an allocation failure
    /// and any other address is a block of `layout.size()` bytes.
    pub fn realloc_outcome(layout: Layout, result: usize) -> (r: Result<(usize, usize), AllocError>)
        ensures
            layout.size_spec() == 0 ==> r == Ok::<(usize, usize), AllocError>((layout.align_spec(), 0)),
            layout.size_spec() > 0 && result == 0 ==> r == Err::<(usize, usize), AllocError>(AllocError),
            layout.size_spec() > 0 && result != 0 ==> r == Ok::<(usize, usize), AllocError>(
                (result, layout.size_spec()),
            ),
    {
        let size = layout.size();
        if size == 0 {
            return Ok((layout.align(), 0));
        }
        if result == 0 {
            Err(AllocError)
        } else {
            Ok((result, size))
        }
    }
}

/// A dedicated slab cache for objects of one size.
pub struct MemCache {
    cache: usize,
}

impl MemCache {
    /// Address of the kernel cache.
    pub closed spec fn addr(&self) -> usize {
        self.cache
    }

    /// What creating a cache makes of the address `kmem_cache_create`
    /// returned: a null address is `ENOMEM`.
    pub fn from_created(cache: usize) -> (r: Result<Self, Error>)
        ensures
            cache == 0 ==> (r matches Err(e) && e@ == -ENOMEM),
            cache != 0 ==> (r matches Ok(c) && c.addr() == cache),
    {
        if cache == 0 {
            Err(Error::enomem())
        } else {
            Ok(MemCache { cache })
        }
    }

    /// Address of the kernel cache.
    pub fn as_ptr(&self) -> (p: usize)
        ensures
            p == self.addr(),
    {
        self.cache
    }
}

} // verus!
