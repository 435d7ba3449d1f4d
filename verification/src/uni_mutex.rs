//! A mutex that both threads and tasks can wait for.
//!
//! Threads take it by blocking (`lock`) or by spinning on `try_lock`; a task
//! awaits `lock_async`, whose future leaves the task's waker in a queue when
//! the lock is held.  When a guard is released, the first waker in the queue
//! is woken, so waiting tasks are served in the order in which they came.
//!
//! The loops that spin, the blocking lock, the release that runs when a
//! guard is dropped and the waking of wakers are driven by the runtime
//! around this library; the decisions they make are `try_settle`,
//! `Mutex::from_locked`, `register_waker` and `wake_first` below.
use vstd::prelude::*;
use std::collections::VecDeque;
use crate::std_sync::{
    std_guard_mut, std_guard_ref, std_mutex_get_mut, std_mutex_into_inner, std_mutex_is_poisoned,
    std_mutex_new, std_mutex_try_lock, Locked, TryLocked,
};

verus! {

/// The lock was taken, but a thread panicked while holding it before; the
/// error still holds what the lock gave access to.
pub struct PoisonError<G> {
    guard: G,
}

impl<G> PoisonError<G> {
    pub closed spec fn spec_guard(&self) -> G {
        self.guard
    }

    pub fn new(guard: G) -> (e: PoisonError<G>)
        ensures
            e.spec_guard() == guard,
    {
        PoisonError { guard }
    }

    /// What the poisoned lock gave access to.
    pub fn into_inner(self) -> (g: G)
        ensures
            g == self.spec_guard(),
    {
        self.guard
    }

    pub fn get_ref(&self) -> (g: &G)
        ensures
            *g == self.spec_guard(),
    {
        &self.guard
    }
}

/// Why a non-blocking attempt to lock did not give a clean guard.
pub enum TryLockError<G> {
    Poisoned(PoisonError<G>),
    WouldBlock,
}

pub type LockResult<G> = Result<G, PoisonError<G>>;

pub type TryLockResult<G> = Result<G, TryLockError<G>>;

/// The library's form of what a standard lock operation reported: a clean
/// guard is `Ok`, a poisoned one is the `PoisonError` that holds it.
pub fn lock_result<G>(l: Locked<G>) -> (r: LockResult<G>)
    ensures
        match l {
            Locked::Clean(g) => r == Ok::<G, PoisonError<G>>(g),
            Locked::Poisoned(g) => r matches Err(e) && e.spec_guard() == g,
        },
{
    match l {
        Locked::Clean(g) => Ok(g),
        Locked::Poisoned(g) => Err(PoisonError::new(g)),
    }
}

/// The library's form of what a standard non-blocking lock reported.
pub fn try_lock_result<G>(l: TryLocked<G>) -> (r: TryLockResult<G>)
    ensures
        match l {
            TryLocked::Clean(g) => r == Ok::<G, TryLockError<G>>(g),
            TryLocked::Poisoned(g) => r matches Err(TryLockError::Poisoned(e)) && e.spec_guard() == g,
            TryLocked::WouldBlock => r matches Err(TryLockError::WouldBlock),
        },
{
    match l {
        TryLocked::Clean(g) => Ok(g),
        TryLocked::Poisoned(g) => Err(TryLockError::Poisoned(PoisonError::new(g))),
        TryLocked::WouldBlock => Err(TryLockError::WouldBlock),
    }
}

/// Whether an attempt to lock has settled.  A clean or a poisoned guard
/// settles it, with the same guard and the same verdict; `WouldBlock`
/// leaves it open (`None`): a spinning thread tries again, a waiting task
/// queues its waker.
pub fn try_settle<G>(r: TryLockResult<G>) -> (s: Option<LockResult<G>>)
    ensures
        match r {
            Ok(g) => s == Some(Ok::<G, PoisonError<G>>(g)),
            Err(TryLockError::Poisoned(e)) => s == Some(Err::<G, PoisonError<G>>(e)),
            Err(TryLockError::WouldBlock) => s is None,
        },
{
    match r {
        Ok(g) => Some(Ok(g)),
        Err(TryLockError::Poisoned(e)) => Some(Err(e)),
        Err(TryLockError::WouldBlock) => None,
    }
}

/// `new` is `old` with a clone of `waker` joined at the back.
pub open spec fn registered(old: Seq<std::task::Waker>, new: Seq<std::task::Waker>, waker: std::task::Waker) -> bool {
    &&& new.len() == old.len() + 1
    &&& new.drop_last() == old
    &&& cloned(waker, new.last())
}

/// `new` is what is left of `old` when its first waker has been taken out
/// to be woken, and `woken` is that waker; an empty queue stays as it is.
pub open spec fn released(
    old: Seq<std::task::Waker>,
    new: Seq<std::task::Waker>,
    woken: Option<std::task::Waker>,
) -> bool {
    &&& old.len() > 0 ==> woken == Some(old[0]) && new == old.drop_first()
    &&& old.len() == 0 ==> woken is None && new == old
}

/// Adds a clone of `waker` at the back of the queue of waiting tasks.
pub fn register_waker(queue: &mut VecDeque<std::task::Waker>, waker: &std::task::Waker)
    ensures
        registered(old(queue)@, final(queue)@, *waker),
{
    let w = waker.clone();
    queue.push_back(w);
    assert(queue@.drop_last() =~= old(queue)@);
}

/// Takes out the waker of the task that has waited longest, if any, for
/// the caller to wake.
pub fn wake_first(queue: &mut VecDeque<std::task::Waker>) -> (woken: Option<std::task::Waker>)
    ensures
        released(old(queue)@, final(queue)@, woken),
{
    let woken = queue.pop_front();
    proof {
        if old(queue)@.len() > 0 {
            assert(queue@ =~= old(queue)@.drop_first());
        }
    }
    woken
}

/// One operation on the queue of waiting tasks: a waker joins it, or a
/// release takes the first one out.
pub enum QueueOp {
    Register(std::task::Waker),
    Release,
}

/// The queue after `op`, and the wakers that `op` took out to be woken.
pub open spec fn queue_step(q: Seq<std::task::Waker>, op: QueueOp) -> (Seq<std::task::Waker>, Seq<std::task::Waker>) {
    match op {
        QueueOp::Register(w) => (q.push(w), Seq::empty()),
        QueueOp::Release => if q.len() > 0 {
            (q.drop_first(), seq![q[0]])
        } else {
            (q, Seq::empty())
        },
    }
}

/// The queue after `ops`, in order, and every waker they took out, in the
/// order they were taken out.
pub open spec fn queue_run(q: Seq<std::task::Waker>, ops: Seq<QueueOp>) -> (Seq<std::task::Waker>, Seq<std::task::Waker>)
    decreases ops.len(),
{
    if ops.len() == 0 {
        (q, Seq::empty())
    } else {
        let (q1, w1) = queue_step(q, ops[0]);
        let (qn, wn) = queue_run(q1, ops.drop_first());
        (qn, w1 + wn)
    }
}

/// The wakers that join the queue in `ops`, in order.
pub open spec fn registrations(ops: Seq<QueueOp>) -> Seq<std::task::Waker>
    decreases ops.len(),
{
    if ops.len() == 0 {
        Seq::empty()
    } else {
        match ops[0] {
            QueueOp::Register(w) => seq![w] + registrations(ops.drop_first()),
            QueueOp::Release => registrations(ops.drop_first()),
        }
    }
}

/// The number of releases in `ops`.
pub open spec fn releases(ops: Seq<QueueOp>) -> nat
    decreases ops.len(),
{
    if ops.len() == 0 {
        0
    } else {
        match ops[0] {
            QueueOp::Register(_) => releases(ops.drop_first()),
            QueueOp::Release => 1 + releases(ops.drop_first()),
        }
    }
}

/// The mutex.
#[verifier::reject_recursive_types(T)]
pub struct Mutex<T> {
    waiting_wakers: std::sync::Mutex<VecDeque<std::task::Waker>>,
    mutex: std::sync::Mutex<T>,
}

/// Access to the value of a locked `Mutex`.
#[verifier::reject_recursive_types(T)]
pub struct MutexGuard<'mutex, T> {
    mutex: &'mutex Mutex<T>,
    guard: std::sync::MutexGuard<'mutex, T>,
}

/// The future of `lock_async`.
#[verifier::reject_recursive_types(T)]
pub struct FutureLock<'mutex, T> {
    mutex: &'mutex Mutex<T>,
}

impl<'mutex, T> MutexGuard<'mutex, T> {
    /// The mutex that this guard holds locked.
    pub closed spec fn spec_mutex(&self) -> Mutex<T> {
        *self.mutex
    }

    /// The standard guard that holds the lock.
    pub closed spec fn spec_std_guard(&self) -> std::sync::MutexGuard<'mutex, T> {
        self.guard
    }

    fn new(mutex: &'mutex Mutex<T>, guard: std::sync::MutexGuard<'mutex, T>) -> (g: MutexGuard<'mutex, T>)
        ensures
            g.spec_mutex() == *mutex,
            g.spec_std_guard() == guard,
    {
        MutexGuard { mutex, guard }
    }

    /// The mutex that this guard holds locked; releasing the guard wakes
    /// the first task in its queue.
    pub fn mutex(&self) -> (m: &'mutex Mutex<T>)
        ensures
            *m == self.spec_mutex(),
    {
        self.mutex
    }
}

impl<'mutex, T> std::ops::Deref for MutexGuard<'mutex, T> {
    type Target = T;

    fn deref(&self) -> &T {
        std_guard_ref(&self.guard)
    }
}

impl<'mutex, T> std::ops::DerefMut for MutexGuard<'mutex, T> {
    fn deref_mut(&mut self) -> &mut T {
        std_guard_mut(&mut self.guard)
    }
}

impl<'mutex, T> FutureLock<'mutex, T> {
    pub closed spec fn spec_mutex(&self) -> Mutex<T> {
        *self.mutex
    }

    fn new(mutex: &'mutex Mutex<T>) -> (f: FutureLock<'mutex, T>)
        ensures
            f.spec_mutex() == *mutex,
    {
        FutureLock { mutex }
    }

    /// The mutex that the future waits for.
    pub fn mutex(&self) -> (m: &'mutex Mutex<T>)
        ensures
            *m == self.spec_mutex(),
    {
        self.mutex
    }

    /// One poll of the future: the settled lock, or `None` when the lock is
    /// held and the task has to wait in the queue.
    pub fn poll_lock(&self) -> (s: Option<LockResult<MutexGuard<'mutex, T>>>)
        ensures
            s matches Some(Ok(g)) ==> g.spec_mutex() == self.spec_mutex(),
            s matches Some(Err(e)) ==> e.spec_guard().spec_mutex() == self.spec_mutex(),
    {
        self.poll_outcome(std_mutex_try_lock(&self.mutex.mutex))
    }

    /// One poll of the future, given what the standard `try_lock` of the
    /// mutex reported: a free lock makes it ready with a guard of the mutex,
    /// a poisoned one ready with the error holding such a guard; a held lock
    /// leaves it waiting (`None`).
    pub fn poll_outcome(&self, l: TryLocked<std::sync::MutexGuard<'mutex, T>>) -> (s: Option<LockResult<MutexGuard<'mutex, T>>>)
        ensures
            match l {
                TryLocked::Clean(g) => s matches Some(Ok(guard)) && guard.spec_mutex() == self.spec_mutex()
                    && guard.spec_std_guard() == g,
                TryLocked::Poisoned(g) => s matches Some(Err(e)) && e.spec_guard().spec_mutex() == self.spec_mutex()
                    && e.spec_guard().spec_std_guard() == g,
                TryLocked::WouldBlock => s is None,
            },
    {
        try_settle(self.mutex.from_try_locked(l))
    }
}

impl<T> Mutex<T> {
    pub closed spec fn spec_std_mutex(&self) -> std::sync::Mutex<T> {
        self.mutex
    }

    /// A mutex around `t`, with no task waiting.
    pub fn new(t: T) -> (m: Mutex<T>) {
        Mutex { waiting_wakers: std_mutex_new(VecDeque::new()), mutex: std_mutex_new(t) }
    }

    /// The value, whether or not the mutex was poisoned.
    pub fn into_inner(self) -> (r: LockResult<T>) {
        lock_result(std_mutex_into_inner(self.mutex))
    }

    /// The standard mutex around the value.  Blocking on it is left to the
    /// runtime: `std::sync::Mutex::lock` panics or deadlocks when the calling
    /// thread holds the lock already, which nothing here can rule out.
    pub fn std_mutex(&self) -> (m: &std::sync::Mutex<T>)
        ensures
            *m == self.spec_std_mutex(),
    {
        &self.mutex
    }

    /// The result of a lock of this mutex, made from what the standard lock
    /// of `std_mutex` reported: a clean guard is `Ok`, a poisoned one is the
    /// `PoisonError` that holds it; either way the guard holds this mutex.
    pub fn from_locked<'m>(&'m self, l: Locked<std::sync::MutexGuard<'m, T>>) -> (r: LockResult<MutexGuard<'m, T>>)
        ensures
            match l {
                Locked::Clean(g) => r matches Ok(guard) && guard.spec_mutex() == *self && guard.spec_std_guard() == g,
                Locked::Poisoned(g) => r matches Err(e) && e.spec_guard().spec_mutex() == *self
                    && e.spec_guard().spec_std_guard() == g,
            },
    {
        let l = match l {
            Locked::Clean(g) => Locked::Clean(MutexGuard::new(self, g)),
            Locked::Poisoned(g) => Locked::Poisoned(MutexGuard::new(self, g)),
        };
        lock_result(l)
    }

    /// A future that takes the lock without blocking the thread.
    pub fn lock_async(&self) -> (f: FutureLock<'_, T>)
        ensures
            f.spec_mutex() == *self,
    {
        FutureLock::new(self)
    }

    /// Takes the lock if it is free.
    pub fn try_lock(&self) -> (r: TryLockResult<MutexGuard<'_, T>>)
        ensures
            r matches Ok(g) ==> g.spec_mutex() == *self,
            r matches Err(TryLockError::Poisoned(e)) ==> e.spec_guard().spec_mutex() == *self,
    {
        self.from_try_locked(std_mutex_try_lock(&self.mutex))
    }

    /// The result of a non-blocking lock of this mutex, made from what the
    /// standard `try_lock` of `std_mutex` reported: a free lock gives a guard
    /// of this mutex, a poisoned one the `Poisoned` error holding such a
    /// guard, a held one `WouldBlock`.
    pub fn from_try_locked<'m>(&'m self, l: TryLocked<std::sync::MutexGuard<'m, T>>) -> (r: TryLockResult<MutexGuard<'m, T>>)
        ensures
            match l {
                TryLocked::Clean(g) => r matches Ok(guard) && guard.spec_mutex() == *self && guard.spec_std_guard() == g,
                TryLocked::Poisoned(g) => r matches Err(TryLockError::Poisoned(e)) && e.spec_guard().spec_mutex()
                    == *self && e.spec_guard().spec_std_guard() == g,
                TryLocked::WouldBlock => r matches Err(TryLockError::WouldBlock),
            },
    {
        let l = match l {
            TryLocked::Clean(g) => TryLocked::Clean(MutexGuard::new(self, g)),
            TryLocked::Poisoned(g) => TryLocked::Poisoned(MutexGuard::new(self, g)),
            TryLocked::WouldBlock => TryLocked::WouldBlock,
        };
        try_lock_result(l)
    }

    /// Whether a thread panicked while holding the lock.
    pub fn is_poisoned(&self) -> bool {
        std_mutex_is_poisoned(&self.mutex)
    }

    /// The value, through an exclusive borrow of the mutex.
    pub fn get_mut(&mut self) -> (r: LockResult<&mut T>) {
        lock_result(std_mutex_get_mut(&mut self.mutex))
    }

    /// Takes the lock on the queue of waiting tasks if it is free.
    pub fn try_lock_waiters(&self) -> TryLocked<std::sync::MutexGuard<'_, VecDeque<std::task::Waker>>> {
        std_mutex_try_lock(&self.waiting_wakers)
    }
}

/// `register_waker` and `wake_first` are the steps of the queue model:
/// registering joins the clone that the queue now ends with, and a release
/// takes out exactly the waker that `queue_step` takes out.
pub proof fn law_queue_functions_are_queue_steps(
    old: Seq<std::task::Waker>,
    new: Seq<std::task::Waker>,
    waker: std::task::Waker,
    woken: Option<std::task::Waker>,
)
    ensures
        registered(old, new, waker) ==> queue_step(old, QueueOp::Register(new.last())) == (new, Seq::<std::task::Waker>::empty())
            && cloned(waker, new.last()),
        released(old, new, woken) ==> queue_step(old, QueueOp::Release) == (new, match woken {
            Some(w) => seq![w],
            None => Seq::<std::task::Waker>::empty(),
        }),
{
    if registered(old, new, waker) {
        assert(old.push(new.last()) =~= new);
    }
}

/// Waiting tasks are served first come, first served, over any sequence of
/// registrations and releases: the wakers taken out, followed by those still
/// waiting, are exactly the wakers that were waiting at the start followed by
/// those that joined, in the order they joined.  So every waker is taken out
/// at most once and in queue order, and each release takes out at most one.
pub proof fn law_waiters_first_come_first_served(q: Seq<std::task::Waker>, ops: Seq<QueueOp>)
    ensures
        queue_run(q, ops).1 + queue_run(q, ops).0 == q + registrations(ops),
        queue_run(q, ops).1.len() <= releases(ops),
    decreases ops.len(),
{
    if ops.len() > 0 {
        let (q1, w1) = queue_step(q, ops[0]);
        law_waiters_first_come_first_served(q1, ops.drop_first());
        let (qn, wn) = queue_run(q1, ops.drop_first());
        assert(queue_run(q, ops) == (qn, w1 + wn));
        match ops[0] {
            QueueOp::Register(w) => {
                assert(registrations(ops) == seq![w] + registrations(ops.drop_first()));
                assert(w1 + wn + qn =~= wn + qn);
                assert(q1 + registrations(ops.drop_first()) =~= q + registrations(ops));
            },
            QueueOp::Release => {
                assert(registrations(ops) == registrations(ops.drop_first()));
                if q.len() > 0 {
                    assert(w1 + wn + qn =~= seq![q[0]] + (wn + qn));
                    assert(seq![q[0]] + (q1 + registrations(ops.drop_first())) =~= q + registrations(ops));
                } else {
                    assert(w1 + wn + qn =~= wn + qn);
                }
            },
        }
    }
}

} // verus!
