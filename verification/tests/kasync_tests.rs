use rko_core::error::Error;
use rko_core::kasync::executor::{finish_task_poll, ExecutorState};
use rko_core::kasync::net::{
    missing_callback_state, socket_poll_outcome, store_waker, wake_decision, PollOutcome, WaitRegistration,
};
use rko_core::kasync::oneshot::{Channel, SenderStep};
use rko_core::kasync::{yield_now, AutoStopHandle, Executor, PollStep};
use rko_core::revocable::AsyncRevocable;
use rko_core::sync::NoWaitLock;
use std::cell::Cell;
use std::sync::Arc;

#[test]
fn executor_refuses_after_stop() {
    let mut s = ExecutorState::new();
    assert!(s.check_spawn().is_ok());
    assert!(s.register(1).is_ok());
    assert!(s.register(2).is_ok());
    assert_eq!(s.stop(), vec![1, 2]);
    assert_eq!(s.check_spawn().unwrap_err().to_errno(), -16);
    assert_eq!(s.register(3).unwrap_err().to_errno(), -16);
    assert!(s.stop().is_empty());
}

#[test]
fn finished_task_is_revoked() {
    let mut f = AsyncRevocable::new(1u8);
    let g = f.try_access().unwrap();
    finish_task_poll(&mut f, g, true);
    assert!(f.is_revoked());
    assert!(f.try_access().is_none());
    let mut p = AsyncRevocable::new(1u8);
    let g = p.try_access().unwrap();
    finish_task_poll(&mut p, g, false);
    assert!(!p.is_revoked());
    assert!(p.try_access().is_some());
    let mut q = AsyncRevocable::new(2u8);
    let g = q.try_access().unwrap();
    assert!(!q.revoke());
    finish_task_poll(&mut q, g, false);
    assert!(q.is_revoked());
    assert!(q.try_access().is_none());
}

#[test]
fn yield_now_yields_once() {
    let mut f = yield_now();
    assert_eq!(f.poll(), PollStep { ready: false, wake: true });
    assert_eq!(f.poll(), PollStep { ready: true, wake: false });
    assert_eq!(f.poll(), PollStep { ready: true, wake: false });
}

#[test]
fn socket_poll_outcomes() {
    assert!(matches!(socket_poll_outcome::<u8>(Ok(3)), PollOutcome::Ready(Ok(3))));
    assert!(matches!(socket_poll_outcome::<u8>(Err(Error::from_errno(-11))), PollOutcome::Pending));
    match socket_poll_outcome::<u8>(Err(Error::econnreset())) {
        PollOutcome::Ready(Err(e)) => assert_eq!(e.to_errno(), -104),
        _ => panic!("expected an error"),
    }
    match missing_callback_state::<u8>() {
        PollOutcome::Ready(Err(e)) => assert_eq!(e.to_errno(), -12),
        _ => panic!("expected ENOMEM"),
    }
}

#[test]
fn waker_storage_and_wake() {
    let mut slot: NoWaitLock<Option<u32>> = NoWaitLock::new(None);
    assert_eq!(wake_decision(&mut slot, 1, 1), (None, 0));
    assert!(store_waker(&mut slot, 7));
    assert_eq!(wake_decision(&mut slot, 0b10, 0b01), (None, 0));
    assert_eq!(wake_decision(&mut slot, 0b11, 0b01), (Some(7), 1));
    let g = slot.try_lock().unwrap();
    assert!(!store_waker(&mut slot, 8));
    assert_eq!(wake_decision(&mut slot, 1, 1), (None, 0));
    assert!(g.unlock(&mut slot));
}

#[test]
fn oneshot_send_then_receive() {
    let mut c = Channel::new();
    assert_eq!(c.poll(), None);
    assert_eq!(c.send(5u8), SenderStep { wake: true, free: false });
    assert_eq!(c.poll(), Some(Some(5)));
    assert!(c.drop_receiver());
}

#[test]
fn oneshot_sender_dropped() {
    let mut c: Channel<u8> = Channel::new();
    assert_eq!(c.drop_sender(), SenderStep { wake: false, free: false });
    assert_eq!(c.poll(), Some(None));
    assert!(c.drop_receiver());
}

#[test]
fn oneshot_receiver_gone_first() {
    let mut c: Channel<u8> = Channel::new();
    assert!(!c.drop_receiver());
    assert_eq!(c.send(1), SenderStep { wake: false, free: true });
}

struct CountingExecutor {
    stops: Cell<u32>,
}

impl Executor for CountingExecutor {
    fn stop(&self) {
        self.stops.set(self.stops.get() + 1);
    }
}

#[test]
fn auto_stop_handle_stops() {
    let h = AutoStopHandle::new(Arc::new(CountingExecutor { stops: Cell::new(0) }));
    h.stop();
    assert_eq!(h.executor().stops.get(), 1);
}

struct WakeCounter {
    wakes: Cell<u32>,
}

impl rko_core::kasync::ArcWake for WakeCounter {
    fn wake(this: rko_core::sync::Arc<Self>) {
        this.get().wakes.set(this.get().wakes.get() + 1);
    }
}

#[test]
fn wake_by_ref_wakes_same_task() {
    let a = rko_core::sync::Arc::new(WakeCounter { wakes: Cell::new(0) }, rko_core::kalloc::Flags::gfp_kernel()).unwrap();
    <WakeCounter as rko_core::kasync::ArcWake>::wake_by_ref(&a);
    assert_eq!(a.get().wakes.get(), 1);
}

#[test]
fn wait_queue_entry_added_once() {
    let mut r = WaitRegistration::new();
    assert!(!r.remove_on_drop());
    assert!(r.add_on_poll());
    assert!(!r.add_on_poll());
    assert!(!r.add_on_poll());
    assert!(r.remove_on_drop());
}
