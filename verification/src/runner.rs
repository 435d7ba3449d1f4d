//! Runners: the workers of a task pool.
//!
//! Each runner has a channel of its own, to which the tasks it polled are
//! sent back when they are woken; it also takes tasks from the pool's
//! channel, and, when both are empty, from the channels of the other runners
//! of its pool.  The thread that runs a runner repeats `run_step` forever,
//! and polls each task that a round gives, with the runner's own sender.
use vstd::prelude::*;
use crate::channel::{channel_try_recv, selector_new, selector_recv, selector_wait, Received};

verus! {

/// A task as a runner sees it: something to poll, given the sender through
/// which it is to be sent back when it is woken.
pub trait Task: Sized {
    fn poll(self, sender: &flume::Sender<Self>);
}

/// Something that runs tasks on the calling thread.
pub trait Run {
    fn run(&self);
}

/// A receive on a channel found it closed: no sender is left.
#[derive(PartialEq, Eq, Structural, Debug)]
pub struct Disconnected;

/// What a receive on a channel found.
#[derive(PartialEq, Eq, Structural, Debug, Clone, Copy)]
pub enum Outcome {
    /// A task, which the round hands back to be polled.
    Message,
    /// No task.
    Empty,
    /// No task, and no sender left.
    Disconnected,
}

/// One non-blocking receive of a round: the receiver it was made on and
/// what it found.
#[verifier::reject_recursive_types(T)]
pub struct Consulted<T> {
    pub receiver: flume::Receiver<T>,
    pub outcome: Outcome,
}

/// What one round of a runner did: the non-blocking receives, in order,
/// and, when it came to that, the receivers of the blocking selection, in
/// the order they were added, with what the selection found.
#[verifier::reject_recursive_types(T)]
pub struct RoundLog<T> {
    pub tries: Seq<Consulted<T>>,
    pub selection: Option<(Seq<flume::Receiver<T>>, Outcome)>,
}

/// What a non-blocking receive found, by the task it gave.
pub open spec fn outcome_of<T>(r: Result<Option<T>, Disconnected>) -> Outcome {
    match r {
        Ok(Some(_)) => Outcome::Message,
        Ok(None) => Outcome::Empty,
        Err(_) => Outcome::Disconnected,
    }
}

/// The outcome of the last receive of a round.
pub open spec fn last_outcome<T>(log: RoundLog<T>) -> Outcome {
    match log.selection {
        Some((_, o)) => o,
        None => log.tries.last().outcome,
    }
}

/// A round of `runner` follows the runner's precedence: its own channel
/// first; the pool's channel only after its own was empty; and only when
/// both were empty, a selection over its own channel, the pool's and then
/// the other runners', in runner order.  The round fails exactly when the
/// last receive found its channel closed.
pub open spec fn round_follows_precedence<T>(runner: Runner<T>, log: RoundLog<T>, failed: bool) -> bool {
    &&& 1 <= log.tries.len() <= 2
    &&& log.tries[0].receiver == runner.spec_receiver()
    &&& log.tries.len() == 1 ==> log.tries[0].outcome != Outcome::Empty && log.selection is None
    &&& log.tries.len() == 2 ==> log.tries[0].outcome == Outcome::Empty
        && log.tries[1].receiver == runner.spec_pool_receiver()
        && (log.tries[1].outcome == Outcome::Empty <==> log.selection is Some)
    &&& log.selection matches Some((over, o)) ==> over == seq![runner.spec_receiver(), runner.spec_pool_receiver()]
        + runner.spec_other_receivers() && o != Outcome::Empty
    &&& (failed <==> last_outcome(log) == Outcome::Disconnected)
}



/// A blocking selection over receivers, with the receivers it was given, in
/// the order they were added.  The list is kept by the operations that add
/// the receivers to the selector, so it is always the selector's own.
#[verifier::reject_recursive_types(T)]
pub struct Selection<'a, T> {
    selector: flume::Selector<'a, Result<T, flume::RecvError>>,
    receivers: Ghost<Seq<flume::Receiver<T>>>,
}

impl<'a, T> Selection<'a, T> {
    /// The receivers the selection waits on, in the order they were added.
    pub closed spec fn spec_receivers(&self) -> Seq<flume::Receiver<T>> {
        self.receivers@
    }

    /// A selection over `first` alone.
    pub fn new(first: &'a flume::Receiver<T>) -> (s: Selection<'a, T>)
        ensures
            s.spec_receivers() == seq![*first],
    {
        let ghost receivers = seq![*first];
        Selection { selector: selector_new(first), receivers: Ghost(receivers) }
    }

    /// The selection with `r` added after the receivers it has.
    pub fn add(self, r: &'a flume::Receiver<T>) -> (s: Selection<'a, T>)
        ensures
            s.spec_receivers() == self.spec_receivers().push(*r),
    {
        let ghost receivers = self.receivers@.push(*r);
        Selection { selector: selector_recv(self.selector, r), receivers: Ghost(receivers) }
    }

    /// Waits for the first task that arrives on any of the receivers (or for
    /// one of them to report its channel closed); also gives the receivers
    /// that were waited on.
    pub fn wait(self) -> (r: (Option<T>, Ghost<Seq<flume::Receiver<T>>>))
        ensures
            r.1@ == self.spec_receivers(),
    {
        let ghost over = self.receivers@;
        (selector_wait(self.selector), Ghost(over))
    }
}

/// A worker of a task pool.
#[verifier::reject_recursive_types(T)]
pub struct Runner<T> {
    pool_receiver: flume::Receiver<T>,
    other_receivers: Vec<flume::Receiver<T>>,
    receiver: flume::Receiver<T>,
    sender: flume::Sender<T>,
}

impl<T> Runner<T> {
    pub closed spec fn spec_pool_receiver(&self) -> flume::Receiver<T> {
        self.pool_receiver
    }

    pub closed spec fn spec_other_receivers(&self) -> Seq<flume::Receiver<T>> {
        self.other_receivers@
    }

    pub closed spec fn spec_receiver(&self) -> flume::Receiver<T> {
        self.receiver
    }

    pub closed spec fn spec_sender(&self) -> flume::Sender<T> {
        self.sender
    }

    /// A runner that sends woken tasks back through `self_sender`, receives
    /// them on `self_receiver`, and takes further tasks from
    /// `pool_receiver` and `other_receivers`.
    pub fn new(
        self_sender: flume::Sender<T>,
        self_receiver: flume::Receiver<T>,
        pool_receiver: flume::Receiver<T>,
        other_receivers: Vec<flume::Receiver<T>>,
    ) -> (r: Runner<T>)
        ensures
            r.spec_sender() == self_sender,
            r.spec_receiver() == self_receiver,
            r.spec_pool_receiver() == pool_receiver,
            r.spec_other_receivers() == other_receivers@,
    {
        Runner { pool_receiver, receiver: self_receiver, sender: self_sender, other_receivers }
    }
}

impl<T> Runner<T> {
    /// The sender through which the tasks this runner polls are to be sent
    /// back when they are woken: the runner's own channel.
    pub fn sender(&self) -> (s: &flume::Sender<T>)
        ensures
            *s == self.spec_sender(),
    {
        &self.sender
    }

    /// The task that a blocking receive gave, or the closed channel.
    fn run_received(r: Option<T>) -> (task: Result<T, Disconnected>)
        ensures
            match r {
                Some(t) => task == Ok::<T, Disconnected>(t),
                None => task is Err,
            },
    {
        match r {
            Some(t) => Ok(t),
            None => Err(Disconnected),
        }
    }

    /// The task that a non-blocking receive gave: `Ok(Some(task))` for a
    /// message, `Ok(None)` for an empty channel, `Err` for a closed one.
    fn run_outcome(received: Received<T>) -> (task: Result<Option<T>, Disconnected>)
        ensures
            match received {
                Received::Message(t) => task == Ok::<Option<T>, Disconnected>(Some(t)),
                Received::Empty => task == Ok::<Option<T>, Disconnected>(None),
                Received::Disconnected => task is Err,
            },
    {
        match received {
            Received::Message(t) => Ok(Some(t)),
            Received::Empty => Ok(None),
            Received::Disconnected => Err(Disconnected),
        }
    }

    /// Takes one task from `r`, if it has one.  Also gives the receiver it
    /// received on and what it found, which is what the result shows.
    fn try_receive(&self, r: &flume::Receiver<T>) -> (res: (Result<Option<T>, Disconnected>, Ghost<Consulted<T>>))
        ensures
            res.1@.receiver == *r,
            res.1@.outcome == outcome_of(res.0),
    {
        let task = Self::run_outcome(channel_try_recv(r));
        let ghost outcome = outcome_of(task);
        (task, Ghost(Consulted { receiver: *r, outcome }))
    }

    /// One round of the runner's loop: the task to poll next.  It is taken
    /// from the runner's own channel if there is one, else from the pool's
    /// channel, else it is the first that arrives on any of the runner's
    /// channels, the other runners' included.  The round fails when a
    /// channel it receives from is closed.  Also gives what the round did,
    /// which follows that precedence; a task comes back exactly when the
    /// last receive of the round found one.
    pub fn run_step(&self) -> (res: (Result<T, Disconnected>, Ghost<RoundLog<T>>))
        ensures
            round_follows_precedence(*self, res.1@, res.0 is Err),
            res.0 is Ok <==> last_outcome(res.1@) == Outcome::Message,
    {
        let (own, Ghost(own_log)) = self.try_receive(&self.receiver);
        match own {
            Ok(Some(task)) => return (Ok(task), Ghost(RoundLog { tries: seq![own_log], selection: None })),
            Ok(None) => {},
            Err(e) => return (Err(e), Ghost(RoundLog { tries: seq![own_log], selection: None })),
        }
        let (pool, Ghost(pool_log)) = self.try_receive(&self.pool_receiver);
        match pool {
            Ok(Some(task)) => return (Ok(task), Ghost(RoundLog { tries: seq![own_log, pool_log], selection: None })),
            Ok(None) => {},
            Err(e) => return (Err(e), Ghost(RoundLog { tries: seq![own_log, pool_log], selection: None })),
        }
        let mut selection = Selection::new(&self.receiver);
        selection = selection.add(&self.pool_receiver);
        let mut i: usize = 0;
        while i < self.other_receivers.len()
            invariant
                i <= self.other_receivers.len(),
                selection.spec_receivers() == seq![self.receiver, self.pool_receiver] + self.other_receivers@.subrange(
                    0,
                    i as int,
                ),
            decreases self.other_receivers.len() - i,
        {
            selection = selection.add(&self.other_receivers[i]);
            proof {
                assert(self.other_receivers@.subrange(0, i + 1) =~= self.other_receivers@.subrange(0, i as int).push(
                    self.other_receivers@[i as int],
                ));
                assert(seq![self.receiver, self.pool_receiver] + self.other_receivers@.subrange(0, i + 1) =~= (seq![
                    self.receiver,
                    self.pool_receiver,
                ] + self.other_receivers@.subrange(0, i as int)).push(self.other_receivers@[i as int]));
            }
            i = i + 1;
        }
        proof {
            assert(self.other_receivers@.subrange(0, i as int) =~= self.other_receivers@);
        }
        let (received, Ghost(over)) = selection.wait();
        let ghost found = if received is Some { Outcome::Message } else { Outcome::Disconnected };
        let task = Self::run_received(received);
        (task, Ghost(RoundLog { tries: seq![own_log, pool_log], selection: Some((over, found)) }))
    }
}

/// Runner `i` of a pool whose runners own the channels `senders` and
/// `receivers`: its own ends are the `i`th, its pool receiver is the pool's,
/// and it steals from all the other runners' receivers, in runner order.
pub open spec fn wired<T>(
    runner: Runner<T>,
    i: int,
    senders: Seq<flume::Sender<T>>,
    receivers: Seq<flume::Receiver<T>>,
    pool_receiver: flume::Receiver<T>,
) -> bool {
    &&& runner.spec_sender() == senders[i]
    &&& runner.spec_receiver() == receivers[i]
    &&& runner.spec_pool_receiver() == pool_receiver
    &&& runner.spec_other_receivers() == receivers.remove(i)
}

/// Clones of every receiver but the `i`th, in order.
pub fn other_receivers<T>(receivers: &Vec<flume::Receiver<T>>, i: usize) -> (others: Vec<flume::Receiver<T>>)
    requires
        i < receivers.len(),
    ensures
        others@ == receivers@.remove(i as int),
{
    let mut others: Vec<flume::Receiver<T>> = Vec::new();
    let mut o: usize = 0;
    while o < i
        invariant
            o <= i < receivers.len(),
            others@ == receivers@.subrange(0, o as int),
        decreases i - o,
    {
        others.push(receivers[o].clone());
        o = o + 1;
        assert(others@ =~= receivers@.subrange(0, o as int));
    }
    let mut o: usize = i + 1;
    while o < receivers.len()
        invariant
            i < o <= receivers.len(),
            others@ == receivers@.subrange(0, i as int) + receivers@.subrange(i + 1, o as int),
        decreases receivers.len() - o,
    {
        others.push(receivers[o].clone());
        o = o + 1;
        assert(others@ =~= receivers@.subrange(0, i as int) + receivers@.subrange(i + 1, o as int));
    }
    assert(others@ =~= receivers@.remove(i as int));
    others
}

/// The runners of a pool, one per channel in `senders` and `receivers`, all
/// taking tasks from `pool_receiver`.
pub fn create_runners<T>(
    senders: &Vec<flume::Sender<T>>,
    receivers: &Vec<flume::Receiver<T>>,
    pool_receiver: &flume::Receiver<T>,
) -> (runners: Vec<Runner<T>>)
    requires
        senders.len() == receivers.len(),
    ensures
        runners.len() == receivers.len(),
        forall|i: int| 0 <= i < runners.len() ==> #[trigger] wired(runners@[i], i, senders@, receivers@, *pool_receiver),
{
    let mut runners: Vec<Runner<T>> = Vec::new();
    let mut i: usize = 0;
    while i < receivers.len()
        invariant
            senders.len() == receivers.len(),
            i <= receivers.len(),
            runners.len() == i,
            forall|j: int| 0 <= j < i ==> #[trigger] wired(runners@[j], j, senders@, receivers@, *pool_receiver),
        decreases receivers.len() - i,
    {
        let others = other_receivers(receivers, i);
        let runner = Runner::new(senders[i].clone(), receivers[i].clone(), pool_receiver.clone(), others);
        runners.push(runner);
        i = i + 1;
    }
    runners
}

/// The receivers a round's selection waited on; none when it did not wait.
pub open spec fn selected_over<T>(log: RoundLog<T>) -> Seq<flume::Receiver<T>> {
    match log.selection {
        Some((over, _)) => over,
        None => Seq::empty(),
    }
}

/// A round that comes to wait waits on the runner's own channel, the pool's
/// channel and every other runner's channel, and on nothing else: a task
/// spawned into the pool while the runner is idle is among those it waits
/// for, and so is a task left in any other runner's channel.
pub proof fn law_idle_round_waits_on_every_channel<T>(runner: Runner<T>, log: RoundLog<T>, failed: bool)
    requires
        round_follows_precedence(runner, log, failed),
        log.selection is Some,
    ensures
        log.tries.len() == 2,
        log.tries[0].outcome == Outcome::Empty,
        log.tries[1].outcome == Outcome::Empty,
        selected_over(log).contains(runner.spec_receiver()),
        selected_over(log).contains(runner.spec_pool_receiver()),
        forall|k: int| 0 <= k < runner.spec_other_receivers().len()
            ==> selected_over(log).contains(#[trigger] runner.spec_other_receivers()[k]),
        forall|x: flume::Receiver<T>| selected_over(log).contains(x) ==> x == runner.spec_receiver()
            || x == runner.spec_pool_receiver() || runner.spec_other_receivers().contains(x),
{
    let over = selected_over(log);
    let others = runner.spec_other_receivers();
    assert(over[0] == runner.spec_receiver());
    assert(over[1] == runner.spec_pool_receiver());
    assert forall|k: int| 0 <= k < others.len() implies over.contains(#[trigger] others[k]) by {
        assert(over[k + 2] == others[k]);
    }
    assert forall|x: flume::Receiver<T>| over.contains(x) implies x == runner.spec_receiver()
        || x == runner.spec_pool_receiver() || others.contains(x) by {
        let k = choose|k: int| 0 <= k < over.len() && over[k] == x;
        if k >= 2 {
            assert(others[k - 2] == x);
        }
    }
}

/// Every runner can steal from every other runner of its pool: for runners
/// `i` and `j` apart, runner `i` holds runner `j`'s receiver at the place
/// that runner order gives it.
pub proof fn law_every_runner_reaches_every_other<T>(
    runners: Seq<Runner<T>>,
    senders: Seq<flume::Sender<T>>,
    receivers: Seq<flume::Receiver<T>>,
    pool_receiver: flume::Receiver<T>,
    i: int,
    j: int,
)
    requires
        runners.len() == receivers.len(),
        forall|k: int| 0 <= k < runners.len() ==> #[trigger] wired(runners[k], k, senders, receivers, pool_receiver),
        0 <= i < runners.len(),
        0 <= j < runners.len(),
        i != j,
    ensures
        j < i ==> runners[i].spec_other_receivers()[j] == runners[j].spec_receiver(),
        j > i ==> runners[i].spec_other_receivers()[j - 1] == runners[j].spec_receiver(),
        runners[i].spec_other_receivers().len() + 1 == runners.len(),
{
    assert(wired(runners[i], i, senders, receivers, pool_receiver));
    assert(wired(runners[j], j, senders, receivers, pool_receiver));
}

} // verus!
