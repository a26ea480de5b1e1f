use rko_core::revocable::AsyncRevocable;
use rko_core::sync::oneshot::{read_value, recv_timeout_value};
use rko_core::sync::{Arc, MutexBackend, NoWaitLock, Refcount, SpinLockBackend, UniqueArc};
use rko_core::kalloc::Flags;

#[test]
fn refcount_counts() {
    let mut r = Refcount::new(1);
    assert_eq!(r.get(), 1);
    r.inc();
    assert_eq!(r.get(), 2);
    assert!(!r.dec_and_test());
    assert!(r.dec_and_test());
    assert_eq!(r.get(), 0);
    r.set(5);
    assert_eq!(r.get(), 5);
}

#[test]
fn refcount_wraps_like_atomics() {
    let mut r = Refcount::new(i32::MAX);
    r.inc();
    assert_eq!(r.get(), i32::MIN);
    let mut z = Refcount::new(i32::MIN);
    assert!(!z.dec_and_test());
    assert_eq!(z.get(), i32::MAX);
}

#[test]
fn nowaitlock_reports_contention() {
    let mut l = NoWaitLock::new(7u32);
    let g = l.try_lock().expect("unlocked lock must be taken");
    assert!(l.try_lock().is_none());
    assert!(l.try_lock().is_none());
    assert!(g.unlock(&mut l));
    let g2 = l.try_lock().expect("released lock must be taken");
    assert_eq!(*l.get(&g2), 7);
    assert_eq!(l.replace(&g2, 9), 7);
    assert_eq!(*l.get(&g2), 9);
    assert!(!g2.unlock(&mut l));
}

#[test]
fn nowaitlock_release_clears_state() {
    let mut l = NoWaitLock::new(());
    let g = l.try_lock().unwrap();
    assert!(l.try_lock().is_none());
    g.release(&mut l);
    let g2 = l.try_lock().unwrap();
    assert!(!g2.unlock(&mut l));
}

#[test]
fn revocable_revoke_without_guards_drops_now() {
    let mut r = AsyncRevocable::new(5u8);
    assert!(!r.is_revoked());
    assert!(r.revoke());
    assert!(r.is_revoked());
    assert!(r.try_access().is_none());
    assert!(!r.revoke());
}

#[test]
fn revocable_last_guard_drops() {
    let mut r = AsyncRevocable::new(String::from("data"));
    let g1 = r.try_access().unwrap();
    let g2 = r.try_access().unwrap();
    assert_eq!(r.get(&g1), "data");
    assert!(!r.revoke());
    assert!(r.try_access().is_none());
    g1.release(&mut r);
    assert_eq!(r.get(&g2), "data");
    g2.release(&mut r);
    assert!(r.is_revoked());
}

#[test]
fn lock_backends_read_trylock() {
    assert_eq!(MutexBackend::try_lock_result(1), Some(()));
    assert_eq!(MutexBackend::try_lock_result(0), None);
    assert_eq!(SpinLockBackend::try_lock_result(3), Some(()));
    assert_eq!(SpinLockBackend::try_lock_result(0), None);
}

#[test]
fn oneshot_completion_reads() {
    assert_eq!(read_value(true, Some(3)), Some(3));
    assert_eq!(read_value(false, None::<u8>), None);
    assert_eq!(recv_timeout_value(5, true, Some(3)), Some(3));
    assert_eq!(recv_timeout_value(0, true, Some(3)), None);
    assert_eq!(recv_timeout_value(5, false, None::<u8>), None);
}

#[test]
fn arc_shares_value() {
    let a = Arc::new(11u32, Flags::gfp_kernel()).unwrap();
    let b = a.clone_arc();
    assert!(Arc::ptr_eq(&a, &b));
    let c = Arc::new(11u32, Flags::gfp_kernel()).unwrap();
    assert!(!Arc::ptr_eq(&a, &c));
    assert!(Arc::ptr_eq(&a, &a));
    assert!(Arc::ptr_eq(&b, &a));
    assert!(!Arc::ptr_eq(&c, &a));
    assert!(Arc::ptr_eq(&c.clone_arc(), &c));
    assert_eq!(*a.get(), 11);
    assert_eq!(*a.as_arc_borrow().get(), 11);
    let u = UniqueArc::new(3u8, Flags::gfp_kernel()).unwrap();
    assert_eq!(*u.into_arc().get(), 3);
}
