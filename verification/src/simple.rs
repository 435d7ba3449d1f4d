//! The simple scheduler: one pool, any number of runners.
//!
//! Every thread that runs this pool gets a runner of its own, with a channel
//! of its own and no other runner to steal from.
use vstd::prelude::*;
use crate::runner::Runner;

verus! {

/// A pool without a limit on its runners.
#[verifier::reject_recursive_types(T)]
pub struct TaskPool<T> {
    receiver: flume::Receiver<T>,
    sender: flume::Sender<T>,
}

impl<T> TaskPool<T> {
    pub closed spec fn spec_receiver(&self) -> flume::Receiver<T> {
        self.receiver
    }

    pub closed spec fn spec_sender(&self) -> flume::Sender<T> {
        self.sender
    }

    pub fn new() -> (pool: TaskPool<T>) {
        let (sender, receiver) = flume::unbounded();
        TaskPool { sender, receiver }
    }

    /// Where spawned tasks are sent.
    pub fn sender(&self) -> (s: &flume::Sender<T>)
        ensures
            *s == self.spec_sender(),
    {
        &self.sender
    }

    /// A runner for a thread that runs the pool: it takes tasks from the
    /// pool's channel and from a fresh channel of its own, and steals from
    /// nobody.
    pub fn runner(&self) -> (r: Runner<T>)
        ensures
            r.spec_pool_receiver() == self.spec_receiver(),
            r.spec_other_receivers().len() == 0,
    {
        let (sender, receiver) = flume::unbounded();
        Runner::new(sender, receiver, self.receiver.clone(), Vec::new())
    }
}

/// A scheduler over one pool without a runner limit.
#[verifier::reject_recursive_types(T)]
pub struct SimpleScheduler<T> {
    pool: TaskPool<T>,
}

impl<T> SimpleScheduler<T> {
    pub closed spec fn spec_pool(&self) -> TaskPool<T> {
        self.pool
    }

    pub fn new() -> (s: SimpleScheduler<T>) {
        SimpleScheduler { pool: TaskPool::new() }
    }

    /// The scheduler's pool.
    pub fn pool(&self) -> (p: &TaskPool<T>)
        ensures
            *p == self.spec_pool(),
    {
        &self.pool
    }
}

} // verus!
