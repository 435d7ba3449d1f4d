//! Handing a task's result to whoever waits for it, by blocking (`join`) or
//! by polling as a future.
//!
//! The task and its handle share one `Payload` behind a mutex.  The task
//! stores its result there once (`finish`); the handle takes it out once.  A
//! handle that polls before the result is there leaves its waker behind, and
//! `finish` hands that waker back to be woken.  Waking runs the waker
//! owner's code, so the runtime around this library makes that call (and the
//! `wake_by_ref` of a poll that finds the slot busy).
use vstd::prelude::*;
use std::sync::Arc;
use crate::std_sync::{
    arc_clone, condvar_new, condvar_notify_all, std_guard_mut, std_mutex_new, std_mutex_try_lock,
    TryLocked,
};

verus! {

/// A handle on a spawned task's result.  The blocking `join` and the
/// future's `poll` are provided by the runtime around this library; both are
/// built on `Payload::take_result` and `JoinHandle::poll_join`.
pub trait Join: std::future::Future {
    /// Blocks until the task has finished and returns its result.
    fn join(&self) -> Self::Output;
}

/// The slot that a task's result passes through.
pub struct Payload<O> {
    result: Option<O>,
    waker: Option<std::task::Waker>,
    notifier: Arc<std::sync::Condvar>,
}

/// `new` is what `finish` makes of `old` when the task's result is `result`:
/// the result is stored and the waiting waker, if any, has been used up.
pub open spec fn finish_post<O>(old: Payload<O>, new: Payload<O>, result: O) -> bool {
    &&& new.spec_result() == Some(result)
    &&& new.spec_waker() is None
    &&& new.spec_notifier() == old.spec_notifier()
}

/// `new` and `out` are what `poll_result` makes of `old` when polled with
/// `waker`: a stored result is handed out and cleared; otherwise a clone of
/// the waker is left behind.
pub open spec fn poll_post<O>(
    old: Payload<O>,
    new: Payload<O>,
    waker: std::task::Waker,
    out: Option<O>,
) -> bool {
    &&& new.spec_result() is None
    &&& new.spec_notifier() == old.spec_notifier()
    &&& match old.spec_result() {
        Some(r) => out == Some(r) && new.spec_waker() == old.spec_waker(),
        None => out is None && (new.spec_waker() matches Some(w) && cloned(waker, w)),
    }
}

impl<O> Payload<O> {
    pub closed spec fn spec_result(&self) -> Option<O> {
        self.result
    }

    pub closed spec fn spec_waker(&self) -> Option<std::task::Waker> {
        self.waker
    }

    pub closed spec fn spec_notifier(&self) -> Arc<std::sync::Condvar> {
        self.notifier
    }

    /// An empty slot whose waiters are woken through `notifier`.
    pub fn new(notifier: Arc<std::sync::Condvar>) -> (p: Payload<O>)
        ensures
            p.spec_result() is None,
            p.spec_waker() is None,
            p.spec_notifier() == notifier,
    {
        Payload { result: None, waker: None, notifier }
    }

    /// Stores the task's result, wakes every thread blocked in `join`, and
    /// hands back the waker of the future that waits for the result, if
    /// any, for the caller to wake.
    pub fn finish(&mut self, result: O) -> (to_wake: Option<std::task::Waker>)
        ensures
            finish_post(*old(self), *final(self), result),
            to_wake == old(self).spec_waker(),
    {
        self.result = Some(result);
        let to_wake = self.waker.take();
        condvar_notify_all(&self.notifier);
        to_wake
    }

    /// One poll of the waiting future: the result if it is there (which
    /// empties the slot), else `None`, leaving a clone of `waker` to be
    /// woken by `finish`.
    pub fn poll_result(&mut self, waker: &std::task::Waker) -> (out: Option<O>)
        ensures
            poll_post(*old(self), *final(self), *waker, out),
    {
        match self.result.take() {
            Some(r) => Some(r),
            None => {
                self.waker = Some(waker.clone());
                None
            },
        }
    }

    /// Takes the result out if it is there; a blocked `join` calls this each
    /// time it is notified.
    pub fn take_result(&mut self) -> (out: Option<O>)
        ensures
            out == old(self).spec_result(),
            final(self).spec_result() is None,
            final(self).spec_waker() == old(self).spec_waker(),
            final(self).spec_notifier() == old(self).spec_notifier(),
    {
        self.result.take()
    }
}

/// What one poll of a join handle came to.
pub enum JoinPoll<O> {
    /// The task's result.
    Ready(O),
    /// No result yet; the waker was left in the slot.
    Pending,
    /// The task is writing its result at this moment: the future is to be
    /// woken at once, to poll again.
    Busy,
    /// A thread panicked while holding the slot.
    Poisoned,
}

/// One poll of the waiting future on the slot itself: `Ready` with the
/// stored result, which empties the slot, or `Pending` with a clone of the
/// waker left in the slot.
pub fn poll_payload<O>(payload: &mut Payload<O>, waker: &std::task::Waker) -> (r: JoinPoll<O>)
    ensures
        old(payload).spec_result() matches Some(v) ==> r == JoinPoll::Ready(v),
        old(payload).spec_result() is None ==> r is Pending,
        poll_post(*old(payload), *final(payload), *waker, match r {
            JoinPoll::Ready(v) => Some(v),
            _ => None::<O>,
        }),
{
    match payload.poll_result(waker) {
        Some(result) => JoinPoll::Ready(result),
        None => JoinPoll::Pending,
    }
}

/// The waiting side of a spawned task.
#[verifier::reject_recursive_types(O)]
pub struct JoinHandle<O> {
    condvar: Arc<std::sync::Condvar>,
    payload: Arc<std::sync::Mutex<Payload<O>>>,
    made: Ghost<Payload<O>>,
}

/// `h` is a new handle: the slot it was made with is empty, has no waker,
/// and notifies the handle's own condition variable, the one `join` waits
/// on.
pub open spec fn fresh_handle<O>(h: JoinHandle<O>) -> bool {
    &&& h.spec_made_slot().spec_result() is None
    &&& h.spec_made_slot().spec_waker() is None
    &&& h.spec_made_slot().spec_notifier() == h.spec_condvar()
}

impl<O> JoinHandle<O> {
    /// The slot as the handle put it in its mutex, before the task touched
    /// it.
    pub closed spec fn spec_made_slot(&self) -> Payload<O> {
        self.made@
    }

    pub closed spec fn spec_condvar(&self) -> Arc<std::sync::Condvar> {
        self.condvar
    }

    pub closed spec fn spec_payload(&self) -> Arc<std::sync::Mutex<Payload<O>>> {
        self.payload
    }

    /// A handle with an empty slot, whose `finish` notifies the handle's
    /// condition variable.
    pub fn new() -> (h: JoinHandle<O>)
        ensures
            fresh_handle(h),
    {
        let condvar = Arc::new(condvar_new());
        let payload = Payload::new(arc_clone(&condvar));
        let ghost made = payload;
        JoinHandle { condvar, payload: Arc::new(std_mutex_new(payload)), made: Ghost(made) }
    }

    /// The slot, to be shared with the task.
    pub fn payload(&self) -> (p: &Arc<std::sync::Mutex<Payload<O>>>)
        ensures
            *p == self.spec_payload(),
    {
        &self.payload
    }

    /// The condition variable that `finish` notifies.
    pub fn condvar(&self) -> (c: &Arc<std::sync::Condvar>)
        ensures
            *c == self.spec_condvar(),
    {
        &self.condvar
    }

    /// One poll of the handle as a future: `poll_locked` of a non-blocking
    /// lock of the handle's own slot.
    pub fn poll_join(&self, waker: &std::task::Waker) -> (r: JoinPoll<O>) {
        poll_locked(std_mutex_try_lock(&*self.payload), waker)
    }
}

/// One poll of a join handle, given what the non-blocking lock of its slot
/// reported: `poll_payload` on the slot when the lock was free, `Busy` when
/// the task holds it, `Poisoned` when a thread panicked holding it.
pub fn poll_locked<O>(
    l: TryLocked<std::sync::MutexGuard<'_, Payload<O>>>,
    waker: &std::task::Waker,
) -> (r: JoinPoll<O>)
    ensures
        l is WouldBlock ==> r is Busy,
        l is Poisoned ==> r is Poisoned,
        l is Clean ==> (r is Ready || r is Pending),
{
    match l {
        TryLocked::Clean(mut guard) => {
            let payload = std_guard_mut(&mut guard);
            poll_payload(payload, waker)
        },
        TryLocked::Poisoned(_) => JoinPoll::Poisoned,
        TryLocked::WouldBlock => JoinPoll::Busy,
    }
}

/// What a new handle's task finishes with reaches the handle's joiners: the
/// slot that `finish` leaves notifies the handle's own condition variable
/// (the one `join` waits on), no earlier waker is handed back, and the next
/// poll gives exactly that result.
pub proof fn law_new_handle_delivers_to_its_joiners<O>(
    h: JoinHandle<O>,
    result: O,
    p1: Payload<O>,
    to_wake: Option<std::task::Waker>,
    waker: std::task::Waker,
    out: Option<O>,
    p2: Payload<O>,
)
    requires
        fresh_handle(h),
        finish_post(h.spec_made_slot(), p1, result),
        to_wake == h.spec_made_slot().spec_waker(),
        poll_post(p1, p2, waker, out),
    ensures
        p1.spec_notifier() == h.spec_condvar(),
        to_wake is None,
        out == Some(result),
        p2.spec_notifier() == h.spec_condvar(),
{
}

/// A result stored by `finish` is handed out by the next poll, exactly once:
/// the poll after that finds the slot empty and leaves its waker behind.
pub proof fn law_result_delivered_once<O>(
    p0: Payload<O>,
    result: O,
    p1: Payload<O>,
    w1: std::task::Waker,
    out1: Option<O>,
    p2: Payload<O>,
    w2: std::task::Waker,
    out2: Option<O>,
    p3: Payload<O>,
)
    requires
        finish_post(p0, p1, result),
        poll_post(p1, p2, w1, out1),
        poll_post(p2, p3, w2, out2),
    ensures
        out1 == Some(result),
        out2 is None,
        p3.spec_waker() matches Some(w) && cloned(w2, w),
{
}

/// A poll that finds no result leaves a clone of its waker in the slot, and
/// `finish` hands exactly that clone back to be woken: the pending future's
/// waker is the one woken when the result arrives.
pub proof fn law_pending_poll_is_woken<O>(
    p0: Payload<O>,
    waker: std::task::Waker,
    p1: Payload<O>,
    result: O,
    p2: Payload<O>,
    to_wake: Option<std::task::Waker>,
)
    requires
        p0.spec_result() is None,
        poll_post(p0, p1, waker, None),
        finish_post(p1, p2, result),
        to_wake == p1.spec_waker(),
    ensures
        to_wake matches Some(w) && cloned(waker, w),
        p2.spec_waker() is None,
        p2.spec_result() == Some(result),
{
}

} // verus!
