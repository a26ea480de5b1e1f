use rko_core::kalloc::Flags;
use rko_core::types::{CString, FromBytes, LeInt, Lockable, Locked, ScopeGuard, LE};
use std::cell::Cell;
use std::sync::atomic::{AtomicI32, Ordering};

#[test]
fn le_value_round_trip() {
    assert_eq!(LE::new(0x1234u16).value(), 0x1234);
    assert_eq!(LE::new(-5i32).value(), -5);
    assert_eq!(LE::new(0x0102_0304u32).to_bytes(), vec![4, 3, 2, 1]);
    assert_eq!(LE::new(-2i16).to_bytes(), vec![0xfe, 0xff]);
}

#[test]
fn le_from_bytes() {
    let data = [0xaa, 0x01, 0x02, 0x03, 0x04];
    let v = <LE<u32> as FromBytes>::from_bytes(&data, 1).unwrap();
    assert_eq!(v.value(), 0x0403_0201);
    assert!(<LE<u32> as FromBytes>::from_bytes(&data, 2).is_none());
    assert!(<LE<u32> as FromBytes>::from_bytes(&data, usize::MAX).is_none());
    let w = <LE<u64> as FromBytes>::from_bytes(&[1, 0, 0, 0, 0, 0, 0, 0x80], 0).unwrap();
    assert_eq!(w.value(), 0x8000_0000_0000_0001);
}

#[test]
fn le_from_bytes_to_slice() {
    let data = [1u8, 0, 2, 0, 3, 0];
    let vs = <LE<u16> as FromBytes>::from_bytes_to_slice(&data).unwrap();
    let got: Vec<u16> = vs.iter().map(|x| x.value()).collect();
    assert_eq!(got, vec![1, 2, 3]);
    assert!(<LE<u16> as FromBytes>::from_bytes_to_slice(&data[..5]).is_none());
    assert_eq!(<LE<u8> as FromBytes>::from_bytes_to_slice(&[]).unwrap().len(), 0);
}

#[test]
fn le_int_byte_lengths() {
    assert_eq!(<u8 as LeInt>::byte_len(), 1);
    assert_eq!(<i16 as LeInt>::byte_len(), 2);
    assert_eq!(<u32 as LeInt>::byte_len(), 4);
    assert_eq!(<i64 as LeInt>::byte_len(), 8);
    assert_eq!(<i8 as LeInt>::from_le_bytes(&[0xff]), -1);
}

#[test]
fn cstring_from_slice() {
    let s = CString::try_from_slice(b"abc", Flags::gfp_kernel()).unwrap();
    assert_eq!(s.as_bytes_with_nul(), b"abc\0");
    assert_eq!(s.len(), 3);
    assert!(!s.is_empty());
    let e = CString::try_from_slice(b"", Flags::gfp_kernel()).unwrap();
    assert!(e.is_empty());
    assert_eq!(e.into_bytes_with_nul(), vec![0]);
}

#[test]
fn cstring_rejects_interior_nul() {
    assert_eq!(
        CString::try_from_slice(b"a\0b", Flags::gfp_kernel()).err().unwrap().to_errno(),
        -22
    );
}

#[test]
fn cstring_from_cstr_and_display() {
    let s = CString::try_from_cstr(b"h\x01i\x7f\0", Flags::gfp_kernel()).unwrap();
    assert_eq!(s.len(), 4);
    assert_eq!(s.display(), b"h\\x01i\\x7f".to_vec());
    let t = CString::try_from_slice(b"ok \xff", Flags::gfp_kernel()).unwrap();
    assert_eq!(String::from_utf8(t.display()).unwrap(), "ok \\xff");
}

struct Counter {
    locks: Cell<u32>,
    unlocks: Cell<u32>,
}

struct Shared;

impl Lockable<Shared> for Counter {
    fn raw_lock(&self) {
        self.locks.set(self.locks.get() + 1);
    }

    fn unlock(&self) {
        self.unlocks.set(self.unlocks.get() + 1);
    }
}

#[test]
fn locked_releases_only_what_it_took() {
    let c = Counter { locks: Cell::new(0), unlocks: Cell::new(0) };
    let g: Locked<'_, Counter, Shared> = Locked::new(&c);
    assert_eq!(c.locks.get(), 1);
    assert_eq!(g.get().locks.get(), 1);
    assert!(g.release());
    assert_eq!(c.unlocks.get(), 1);
    let b: Locked<'_, Counter, Shared> = Locked::borrowed(&c);
    assert!(!b.release());
    assert_eq!(c.unlocks.get(), 1);
    assert_eq!(c.locks.get(), 1);
}

#[test]
fn scope_guard_runs_cleanup() {
    let ran = Cell::new(false);
    let g = ScopeGuard::new(|| ran.set(true));
    assert!(!ran.get());
    g.finish();
    assert!(ran.get());
}

struct Inode;

static REFS: AtomicI32 = AtomicI32::new(1);

impl rko_core::types::AlwaysRefCounted for Inode {
    fn inc_ref(_addr: usize) {
        REFS.fetch_add(1, Ordering::SeqCst);
    }

    fn dec_ref(_addr: usize) {
        REFS.fetch_sub(1, Ordering::SeqCst);
    }
}

#[test]
fn aref_counts_references() {
    let a: rko_core::types::ARef<Inode> = rko_core::types::ARef::from_raw(0x4000);
    assert_eq!(a.as_ptr(), 0x4000);
    let b = a.clone_ref();
    assert_eq!(REFS.load(Ordering::SeqCst), 2);
    assert_eq!(b.as_ptr(), 0x4000);
    b.release();
    assert_eq!(REFS.load(Ordering::SeqCst), 1);
    assert_eq!(a.into_raw(), 0x4000);
    assert_eq!(REFS.load(Ordering::SeqCst), 1);
}
