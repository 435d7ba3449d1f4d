//! A pool of tasks with a fixed number of runner slots.
//!
//! Spawned tasks go into the pool's channel.  The pool is made with its
//! runners; each thread that runs the pool takes one of them out of the
//! pool and runs it for good, so at most `max_runners` threads run a pool.
use vstd::prelude::*;
use crate::runner::{create_runners, law_every_runner_reaches_every_other, wired, Runner};
use crate::std_sync::std_mutex_new;

verus! {

/// `n` fresh channels, as their sending and their receiving ends.
fn channels<T>(n: usize) -> (r: (Vec<flume::Sender<T>>, Vec<flume::Receiver<T>>))
    ensures
        r.0.len() == n,
        r.1.len() == n,
{
    let mut senders: Vec<flume::Sender<T>> = Vec::new();
    let mut receivers: Vec<flume::Receiver<T>> = Vec::new();
    let mut i: usize = 0;
    while i < n
        invariant
            i <= n,
            senders.len() == i,
            receivers.len() == i,
        decreases n - i,
    {
        let (sender, receiver) = flume::unbounded();
        senders.push(sender);
        receivers.push(receiver);
        i = i + 1;
    }
    (senders, receivers)
}

/// `max_runners` runners, each with a channel of its own, all taking tasks
/// from `pool_receiver` and each stealing from all the others.
pub fn runners_for<T>(pool_receiver: &flume::Receiver<T>, max_runners: usize) -> (runners: Vec<Runner<T>>)
    ensures
        runners.len() == max_runners,
        exists|senders: Seq<flume::Sender<T>>, receivers: Seq<flume::Receiver<T>>|
            senders.len() == max_runners && receivers.len() == max_runners && forall|i: int|
                0 <= i < max_runners ==> #[trigger] wired(runners@[i], i, senders, receivers, *pool_receiver),
{
    let (senders, receivers) = channels(max_runners);
    let runners = create_runners(&senders, &receivers, pool_receiver);
    assert(forall|i: int| 0 <= i < max_runners ==> #[trigger] wired(runners@[i], i, senders@, receivers@, *pool_receiver));
    runners
}

/// What a thread that wants to run the pool got.
#[verifier::reject_recursive_types(T)]
pub enum RunnerSlot<T> {
    /// A runner of its own.
    Taken(Runner<T>),
    /// Every runner of the pool is taken already.
    NoneLeft,
}

/// The pool.
#[verifier::reject_recursive_types(T)]
pub struct TaskPool<T> {
    receiver: flume::Receiver<T>,
    sender: flume::Sender<T>,
    unused_runners: std::sync::Mutex<Vec<Runner<T>>>,
    slots: Ghost<Seq<Runner<T>>>,
}

/// `pool` was made with `n` runner slots: the runners it put in its unused
/// runners are `n`, one per fresh channel, each wired to the pool's own
/// receiver and to every other runner's channel.
pub open spec fn made_with<T>(pool: TaskPool<T>, n: nat) -> bool {
    &&& pool.spec_slots().len() == n
    &&& exists|senders: Seq<flume::Sender<T>>, receivers: Seq<flume::Receiver<T>>|
        senders.len() == n && receivers.len() == n && forall|i: int|
            0 <= i < n ==> #[trigger] wired(pool.spec_slots()[i], i, senders, receivers, pool.spec_receiver())
}

impl<T> TaskPool<T> {
    pub closed spec fn spec_sender(&self) -> flume::Sender<T> {
        self.sender
    }

    pub closed spec fn spec_receiver(&self) -> flume::Receiver<T> {
        self.receiver
    }

    pub closed spec fn spec_unused_runners(&self) -> std::sync::Mutex<Vec<Runner<T>>> {
        self.unused_runners
    }

    /// The runners the pool was made with: what its unused runners held
    /// before any thread took one.
    pub closed spec fn spec_slots(&self) -> Seq<Runner<T>> {
        self.slots@
    }

    /// A pool with `max_runners` runner slots.
    pub fn new(max_runners: usize) -> (pool: TaskPool<T>)
        ensures
            made_with(pool, max_runners as nat),
    {
        let (sender, receiver) = flume::unbounded();
        let runners = runners_for(&receiver, max_runners);
        let ghost slots = runners@;
        let pool = TaskPool { sender, receiver, unused_runners: std_mutex_new(runners), slots: Ghost(slots) };
        assert(pool.spec_slots() == slots && pool.spec_receiver() == receiver);
        pool
    }

    /// Where spawned tasks are sent.
    pub fn sender(&self) -> (s: &flume::Sender<T>)
        ensures
            *s == self.spec_sender(),
    {
        &self.sender
    }

    /// The runners that no thread runs yet.  Locking them is left to the
    /// runtime: `std::sync::Mutex::lock` panics or deadlocks when the calling
    /// thread holds the lock already.
    pub fn unused_runners(&self) -> (m: &std::sync::Mutex<Vec<Runner<T>>>)
        ensures
            *m == self.spec_unused_runners(),
    {
        &self.unused_runners
    }

    /// Takes one runner out of the unused ones, for the calling thread: the
    /// last one, or `NoneLeft` when every runner is taken already.
    pub fn take_runner(runners: &mut Vec<Runner<T>>) -> (slot: RunnerSlot<T>)
        ensures
            old(runners)@.len() == 0 ==> slot is NoneLeft && final(runners)@ == old(runners)@,
            old(runners)@.len() > 0 ==> slot == RunnerSlot::Taken(old(runners)@.last())
                && final(runners)@ == old(runners)@.drop_last(),
    {
        match runners.pop() {
            Some(runner) => RunnerSlot::Taken(runner),
            None => RunnerSlot::NoneLeft,
        }
    }
}

/// A pool made with `n` runner slots has exactly `n` runners, all taking
/// tasks from the pool's channel, and each able to steal from every other
/// one: runner `i` holds runner `j`'s receiver, at the place that runner
/// order gives it.
pub proof fn law_pool_has_a_runner_per_slot<T>(pool: TaskPool<T>, n: nat, i: int, j: int)
    requires
        made_with(pool, n),
        0 <= i < n,
        0 <= j < n,
    ensures
        pool.spec_slots().len() == n,
        pool.spec_slots()[i].spec_pool_receiver() == pool.spec_receiver(),
        pool.spec_slots()[i].spec_other_receivers().len() + 1 == n,
        j < i ==> pool.spec_slots()[i].spec_other_receivers()[j] == pool.spec_slots()[j].spec_receiver(),
        j > i ==> pool.spec_slots()[i].spec_other_receivers()[j - 1] == pool.spec_slots()[j].spec_receiver(),
{
    let (senders, receivers) = choose|senders: Seq<flume::Sender<T>>, receivers: Seq<flume::Receiver<T>>|
        senders.len() == n && receivers.len() == n && forall|k: int|
            0 <= k < n ==> #[trigger] wired(pool.spec_slots()[k], k, senders, receivers, pool.spec_receiver());
    assert(wired(pool.spec_slots()[i], i, senders, receivers, pool.spec_receiver()));
    if i != j {
        law_every_runner_reaches_every_other(pool.spec_slots(), senders, receivers, pool.spec_receiver(), i, j);
    }
}

} // verus!
