use async_threadrr::task_spawn::{info_or_default, TaskSpawner};
use async_threadrr::blocking::{get_initialized, init_runners_plan, pool, Blocking, RunnersError, COUNT};
use async_threadrr::mpmc::{ChannelSender, SendError};
use async_threadrr::runner::{create_runners, other_receivers, Disconnected, Runner, Task};
use async_threadrr::scheduler::{BlockingBehaviour as SchedBlocking, TaskInfo as _, TaskInfoV1};
use async_threadrr::simple::{SimpleScheduler, TaskPool as SimplePool};
use async_threadrr::task_info::{BlockingBehaviour, Priority, TaskInfo};
use async_threadrr::task_pool::{runners_for, RunnerSlot, TaskPool};
use std::sync::atomic::{AtomicUsize, Ordering};
use std::sync::Arc;

struct Job {
    polls: Arc<AtomicUsize>,
    resend: bool,
}

impl Task for Job {
    fn poll(self, sender: &flume::Sender<Self>) {
        self.polls.fetch_add(1, Ordering::SeqCst);
        if self.resend {
            let again = Job { polls: self.polls.clone(), resend: false };
            sender.send(again).unwrap();
        }
    }
}

/// One round of `r`, polling the task it gives with the runner's sender.
fn step(r: &Runner<Job>) -> bool {
    match r.run_step().0 {
        Ok(task) => {
            task.poll(r.sender());
            true
        }
        Err(_) => false,
    }
}

#[test]
fn default_task_info_is_medium_some() {
    let info = TaskInfo::default();
    assert_eq!(info.priority(), Priority::MEDIUM);
    assert_eq!(info.blocking_behaviour(), BlockingBehaviour::SOME);
}

#[test]
fn task_info_v1_reports_its_blocking() {
    let info = TaskInfoV1::new(SchedBlocking::MUCH);
    assert_eq!(info.blocking_behaviour(), SchedBlocking::MUCH);
}

#[test]
fn blocking_places() {
    assert_eq!(COUNT, 3);
    assert_eq!(Blocking::MUCH.index(), 0);
    assert_eq!(Blocking::SOME.index(), 1);
    assert_eq!(Blocking::NONE.index(), 2);
}

#[test]
fn requested_pool_served_when_started() {
    assert_eq!(pool(Blocking::SOME, &[true, true, false]), Some(1));
    assert_eq!(pool(Blocking::NONE, &[false, false, true]), Some(2));
}

#[test]
fn unstarted_pool_served_by_first_started() {
    assert_eq!(pool(Blocking::NONE, &[false, true, false]), Some(1));
    assert_eq!(pool(Blocking::SOME, &[true, false, true]), Some(0));
    assert_eq!(pool(Blocking::MUCH, &[false, false, true]), Some(2));
}

#[test]
fn no_pool_started() {
    assert_eq!(pool(Blocking::MUCH, &[false, false, false]), None);
    assert_eq!(get_initialized(&[false, false, false]), None);
    assert_eq!(get_initialized(&[false, true, true]), Some(1));
}

#[test]
fn runners_start_only_once() {
    assert_eq!(init_runners_plan(false, 4), Ok(true));
    assert_eq!(init_runners_plan(false, 0), Ok(false));
    assert_eq!(init_runners_plan(true, 4), Err(RunnersError::AlreadyInitialized));
}

#[test]
fn send_to_closed_channel_gives_message_back() {
    let (s, r) = flume::unbounded::<String>();
    assert!(ChannelSender::send(&s, "a".to_string()).is_ok());
    assert_eq!(r.try_recv().unwrap(), "a");
    drop(r);
    match ChannelSender::send(&s, "b".to_string()) {
        Err(SendError(m)) => assert_eq!(m, "b"),
        Ok(()) => panic!("send should fail"),
    }
}

#[test]
fn other_receivers_skip_own() {
    let chans: Vec<(flume::Sender<u8>, flume::Receiver<u8>)> = (0..4).map(|_| flume::unbounded()).collect();
    let receivers: Vec<flume::Receiver<u8>> = chans.iter().map(|c| c.1.clone()).collect();
    let others = other_receivers(&receivers, 2);
    assert_eq!(others.len(), 3);
    assert!(others[0].same_channel(&receivers[0]));
    assert!(others[1].same_channel(&receivers[1]));
    assert!(others[2].same_channel(&receivers[3]));
}

#[test]
fn create_runners_wires_each_runner() {
    let (_ps, pr) = flume::unbounded::<Job>();
    let chans: Vec<(flume::Sender<Job>, flume::Receiver<Job>)> = (0..3).map(|_| flume::unbounded()).collect();
    let senders: Vec<flume::Sender<Job>> = chans.iter().map(|c| c.0.clone()).collect();
    let receivers: Vec<flume::Receiver<Job>> = chans.iter().map(|c| c.1.clone()).collect();
    let runners = create_runners(&senders, &receivers, &pr);
    assert_eq!(runners.len(), 3);
    // a task put in runner 1's own channel is run by runner 1
    let polls = Arc::new(AtomicUsize::new(0));
    senders[1].send(Job { polls: polls.clone(), resend: false }).unwrap();
    assert!(step(&runners[1]));
    assert_eq!(polls.load(Ordering::SeqCst), 1);
    // a task in runner 2's channel can be stolen by runner 0
    senders[2].send(Job { polls: polls.clone(), resend: false }).unwrap();
    assert!(step(&runners[0]));
    assert_eq!(polls.load(Ordering::SeqCst), 2);
}

#[test]
fn run_step_prefers_own_then_pool_and_resends_to_own() {
    let (ps, pr) = flume::unbounded::<Job>();
    let (s, r) = flume::unbounded::<Job>();
    let runner = Runner::new(s.clone(), r.clone(), pr.clone(), Vec::new());
    let polls = Arc::new(AtomicUsize::new(0));
    ps.send(Job { polls: polls.clone(), resend: true }).unwrap();
    assert!(step(&runner));
    assert_eq!(polls.load(Ordering::SeqCst), 1);
    // the task sent itself back through the runner's own channel
    assert_eq!(r.len(), 1);
    assert!(step(&runner));
    assert_eq!(polls.load(Ordering::SeqCst), 2);
    assert_eq!(r.len(), 0);
}

#[test]
fn run_step_reports_closed_channel() {
    let (ps, pr) = flume::unbounded::<Job>();
    let (s, r) = flume::unbounded::<Job>();
    drop(ps);
    let runner = Runner::new(s, r, pr, Vec::new());
    // own channel still has a sender (the runner's), the pool's has none
    assert!(matches!(runner.run_step().0, Err(Disconnected)));
}

#[test]
fn pool_hands_out_at_most_max_runners() {
    let pool: TaskPool<Job> = TaskPool::new(2);
    let mut unused = pool.unused_runners().lock().unwrap();
    assert!(matches!(TaskPool::take_runner(&mut unused), RunnerSlot::Taken(_)));
    assert!(matches!(TaskPool::take_runner(&mut unused), RunnerSlot::Taken(_)));
    assert!(matches!(TaskPool::take_runner(&mut unused), RunnerSlot::NoneLeft));
    assert!(unused.is_empty());
}

#[test]
fn pool_without_runner_slots_has_none_to_give() {
    let pool: TaskPool<Job> = TaskPool::new(0);
    let mut unused = pool.unused_runners().lock().unwrap();
    assert!(matches!(TaskPool::take_runner(&mut unused), RunnerSlot::NoneLeft));
}

#[test]
fn pool_runner_runs_spawned_task() {
    let pool: TaskPool<Job> = TaskPool::new(1);
    let polls = Arc::new(AtomicUsize::new(0));
    pool.sender().send(Job { polls: polls.clone(), resend: false }).unwrap();
    let slot = TaskPool::take_runner(&mut pool.unused_runners().lock().unwrap());
    match slot {
        RunnerSlot::Taken(runner) => {
            assert!(step(&runner));
        }
        _ => panic!("expected a runner"),
    }
    assert_eq!(polls.load(Ordering::SeqCst), 1);
}

#[test]
fn runners_for_gives_requested_count() {
    let (_s, r) = flume::unbounded::<Job>();
    assert_eq!(runners_for(&r, 0).len(), 0);
    assert_eq!(runners_for(&r, 5).len(), 5);
}

#[test]
fn simple_pool_runner_takes_pool_tasks() {
    let sched: SimpleScheduler<Job> = SimpleScheduler::new();
    let pool: &SimplePool<Job> = sched.pool();
    let polls = Arc::new(AtomicUsize::new(0));
    pool.sender().send(Job { polls: polls.clone(), resend: false }).unwrap();
    let runner = pool.runner();
    assert!(step(&runner));
    assert_eq!(polls.load(Ordering::SeqCst), 1);
}

#[test]
fn spawner_sends_through_clone() {
    let (s, r) = flume::unbounded::<u32>();
    let spawner = TaskSpawner::new(&s);
    assert!(spawner.sender().same_channel(&s));
    ChannelSender::send(spawner.sender(), 11).ok().unwrap();
    assert_eq!(r.try_recv().unwrap(), 11);
}

#[test]
fn info_or_default_keeps_given_hints() {
    let d = info_or_default(None);
    assert_eq!(d.priority(), Priority::MEDIUM);
    assert_eq!(d.blocking_behaviour(), BlockingBehaviour::SOME);
}

#[test]
fn every_runner_steals_from_every_other() {
    let (_ps, pr) = flume::unbounded::<Job>();
    let chans: Vec<(flume::Sender<Job>, flume::Receiver<Job>)> = (0..3).map(|_| flume::unbounded()).collect();
    let senders: Vec<flume::Sender<Job>> = chans.iter().map(|c| c.0.clone()).collect();
    let receivers: Vec<flume::Receiver<Job>> = chans.iter().map(|c| c.1.clone()).collect();
    let runners = create_runners(&senders, &receivers, &pr);
    let polls = Arc::new(AtomicUsize::new(0));
    let mut expected = 0;
    for i in 0..3 {
        for j in 0..3 {
            if i != j {
                senders[j].send(Job { polls: polls.clone(), resend: false }).unwrap();
                assert!(step(&runners[i]));
                expected += 1;
                assert_eq!(polls.load(Ordering::SeqCst), expected);
                assert_eq!(receivers[j].len(), 0);
            }
        }
    }
}

#[test]
fn every_request_served_by_a_started_pool() {
    let kinds = [Blocking::MUCH, Blocking::SOME, Blocking::NONE];
    for bits in 0..8u8 {
        let started = [bits & 1 != 0, bits & 2 != 0, bits & 4 != 0];
        for b in kinds {
            match pool(b, &started) {
                Some(i) => {
                    assert!(started[i]);
                    if started[b.index()] {
                        assert_eq!(i, b.index());
                    } else {
                        assert_eq!(Some(i), get_initialized(&started));
                    }
                }
                None => assert_eq!(started, [false, false, false]),
            }
        }
    }
}

#[test]
fn blocking_kinds_have_distinct_places() {
    let kinds = [Blocking::MUCH, Blocking::SOME, Blocking::NONE];
    for a in kinds {
        assert!(a.index() < COUNT);
        for b in kinds {
            assert_eq!(a.index() == b.index(), a == b);
        }
    }
}

#[test]
fn run_step_takes_own_channel_before_pool() {
    let (ps, pr) = flume::unbounded::<Job>();
    let (s, r) = flume::unbounded::<Job>();
    let runner = Runner::new(s.clone(), r.clone(), pr.clone(), Vec::new());
    let polls = Arc::new(AtomicUsize::new(0));
    ps.send(Job { polls: polls.clone(), resend: false }).unwrap();
    s.send(Job { polls: polls.clone(), resend: false }).unwrap();
    assert!(step(&runner));
    assert_eq!(r.len(), 0);
    assert_eq!(pr.len(), 1);
    assert!(step(&runner));
    assert_eq!(pr.len(), 0);
    assert_eq!(polls.load(Ordering::SeqCst), 2);
}

#[test]
fn run_step_hands_back_the_task_unpolled() {
    let (_ps, pr) = flume::unbounded::<Job>();
    let (s, r) = flume::unbounded::<Job>();
    let runner = Runner::new(s.clone(), r.clone(), pr.clone(), Vec::new());
    let polls = Arc::new(AtomicUsize::new(0));
    s.send(Job { polls: polls.clone(), resend: false }).unwrap();
    let task = runner.run_step().0.ok().unwrap();
    assert_eq!(polls.load(Ordering::SeqCst), 0);
    assert_eq!(r.len(), 0);
    task.poll(runner.sender());
    assert_eq!(polls.load(Ordering::SeqCst), 1);
    assert!(runner.sender().same_channel(&s));
}
