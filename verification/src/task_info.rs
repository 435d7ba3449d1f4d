//! What a spawner may tell the scheduler about a task.
use vstd::prelude::*;

verus! {

/// How urgently a task should run.
#[derive(Clone, Copy, Debug, PartialEq, Eq, Structural)]
pub enum Priority {
    INFINITE,
    HIGH,
    MEDIUM,
    LOW,
}

/// How much a task blocks the thread that runs it.
#[derive(Clone, Copy, Debug, PartialEq, Eq, Structural)]
pub enum BlockingBehaviour {
    LITTLE,
    SOME,
    MUCH,
}

/// The scheduling hints of one task.
pub struct TaskInfo {
    priority: Priority,
    blocking_behaviour: BlockingBehaviour,
}

impl TaskInfo {
    pub closed spec fn spec_priority(&self) -> Priority {
        self.priority
    }

    pub closed spec fn spec_blocking_behaviour(&self) -> BlockingBehaviour {
        self.blocking_behaviour
    }

    /// The hints of a task spawned without any: medium priority, blocking
    /// some.
    pub fn default() -> (info: TaskInfo)
        ensures
            info.spec_priority() == Priority::MEDIUM,
            info.spec_blocking_behaviour() == BlockingBehaviour::SOME,
    {
        TaskInfo { priority: Priority::MEDIUM, blocking_behaviour: BlockingBehaviour::SOME }
    }

    pub fn priority(&self) -> (p: Priority)
        ensures
            p == self.spec_priority(),
    {
        self.priority
    }

    pub fn blocking_behaviour(&self) -> (b: BlockingBehaviour)
        ensures
            b == self.spec_blocking_behaviour(),
    {
        self.blocking_behaviour
    }
}

} // verus!
