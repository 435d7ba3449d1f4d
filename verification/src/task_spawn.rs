//! Spawners: handles through which tasks are sent to a pool.
use vstd::prelude::*;
use crate::mpmc::ChannelSender;
use crate::task_info::{BlockingBehaviour, Priority, TaskInfo};

verus! {

/// A spawner that sends the tasks it makes through its own clone of a
/// channel's sending end.
pub struct TaskSpawner<S: ChannelSender> {
    sender: S,
}

impl<S: ChannelSender> TaskSpawner<S> {
    pub closed spec fn spec_sender(&self) -> S {
        self.sender
    }

    /// A spawner that sends through a clone of `sender`.
    pub fn new(sender: &S) -> (s: TaskSpawner<S>)
        ensures
            cloned(*sender, s.spec_sender()),
    {
        TaskSpawner { sender: sender.clone() }
    }

    /// The spawner's sending end.
    pub fn sender(&self) -> (s: &S)
        ensures
            *s == self.spec_sender(),
    {
        &self.sender
    }
}

/// The hints a spawned task runs with: the ones given, else the default
/// ones (medium priority, blocking some).
pub fn info_or_default(task_info: Option<TaskInfo>) -> (info: TaskInfo)
    ensures
        task_info matches Some(given) ==> info == given,
        task_info is None ==> info.spec_priority() == Priority::MEDIUM && info.spec_blocking_behaviour()
            == BlockingBehaviour::SOME,
{
    match task_info {
        Some(info) => info,
        None => TaskInfo::default(),
    }
}

} // verus!
