use async_threadrr::join::{poll_locked, poll_payload, JoinHandle, JoinPoll, Payload};
use async_threadrr::std_sync::TryLocked;
use std::sync::atomic::{AtomicUsize, Ordering};
use std::sync::{Arc, Condvar};
use std::task::{Wake, Waker};

struct CountingWaker(AtomicUsize);

impl Wake for CountingWaker {
    fn wake(self: Arc<Self>) {
        self.0.fetch_add(1, Ordering::SeqCst);
    }
}

fn counting_waker() -> (Arc<CountingWaker>, Waker) {
    let c = Arc::new(CountingWaker(AtomicUsize::new(0)));
    let w = Waker::from(c.clone());
    (c, w)
}

#[test]
fn payload_starts_empty() {
    let mut p: Payload<u32> = Payload::new(Arc::new(Condvar::new()));
    assert_eq!(p.take_result(), None);
}

#[test]
fn finish_then_take_gives_result_once() {
    let mut p: Payload<u32> = Payload::new(Arc::new(Condvar::new()));
    assert!(p.finish(42).is_none());
    assert_eq!(p.take_result(), Some(42));
    assert_eq!(p.take_result(), None);
}

#[test]
fn poll_before_finish_leaves_waker_that_finish_wakes() {
    let (count, waker) = counting_waker();
    let mut p: Payload<u32> = Payload::new(Arc::new(Condvar::new()));
    assert_eq!(p.poll_result(&waker), None);
    assert_eq!(count.0.load(Ordering::SeqCst), 0);
    p.finish(7).unwrap().wake();
    assert_eq!(count.0.load(Ordering::SeqCst), 1);
    assert_eq!(p.poll_result(&waker), Some(7));
    // the waker was used up: a second finish hands back none
    assert!(p.finish(8).is_none());
    assert_eq!(count.0.load(Ordering::SeqCst), 1);
}

#[test]
fn result_delivered_once_then_pending() {
    let (count, waker) = counting_waker();
    let mut p: Payload<&str> = Payload::new(Arc::new(Condvar::new()));
    assert!(p.finish("done").is_none());
    assert_eq!(p.poll_result(&waker), Some("done"));
    assert_eq!(p.poll_result(&waker), None);
    assert_eq!(count.0.load(Ordering::SeqCst), 0);
}

#[test]
fn join_handle_poll_pending_then_ready() {
    let (count, waker) = counting_waker();
    let h: JoinHandle<u64> = JoinHandle::new();
    assert!(matches!(h.poll_join(&waker), JoinPoll::Pending));
    let to_wake = h.payload().lock().unwrap().finish(99);
    to_wake.unwrap().wake();
    assert_eq!(count.0.load(Ordering::SeqCst), 1);
    assert!(matches!(h.poll_join(&waker), JoinPoll::Ready(99)));
    assert!(matches!(h.poll_join(&waker), JoinPoll::Pending));
}

#[test]
fn join_handle_busy_slot() {
    let (count, waker) = counting_waker();
    let h: JoinHandle<u64> = JoinHandle::new();
    let guard = h.payload().lock().unwrap();
    assert!(matches!(h.poll_join(&waker), JoinPoll::Busy));
    assert_eq!(count.0.load(Ordering::SeqCst), 0);
    drop(guard);
    // the slot was left untouched: the poll after that is pending
    assert!(matches!(h.poll_join(&waker), JoinPoll::Pending));
}

#[test]
fn join_handle_take_after_finish() {
    let h: JoinHandle<u64> = JoinHandle::new();
    assert!(h.payload().lock().unwrap().finish(5).is_none());
    let mut guard = h.payload().lock().unwrap();
    assert_eq!(guard.take_result(), Some(5));
    assert_eq!(guard.take_result(), None);
    assert!(Arc::ptr_eq(h.condvar(), h.condvar()));
}

#[test]
fn poll_payload_ready_then_pending() {
    let (_count, waker) = counting_waker();
    let mut p: Payload<u8> = Payload::new(Arc::new(Condvar::new()));
    assert!(matches!(poll_payload(&mut p, &waker), JoinPoll::Pending));
    assert!(p.finish(3).is_some());
    assert!(matches!(poll_payload(&mut p, &waker), JoinPoll::Ready(3)));
    assert!(matches!(poll_payload(&mut p, &waker), JoinPoll::Pending));
}

#[test]
fn poll_locked_maps_each_outcome() {
    let (_count, waker) = counting_waker();
    let h: JoinHandle<u64> = JoinHandle::new();
    assert!(matches!(poll_locked::<u64>(TryLocked::WouldBlock, &waker), JoinPoll::Busy));
    assert!(h.payload().lock().unwrap().finish(6).is_none());
    let clean = TryLocked::Clean(h.payload().try_lock().unwrap());
    assert!(matches!(poll_locked(clean, &waker), JoinPoll::Ready(6)));
    let poisoned = TryLocked::Poisoned(h.payload().try_lock().unwrap());
    assert!(matches!(poll_locked(poisoned, &waker), JoinPoll::Poisoned));
}
