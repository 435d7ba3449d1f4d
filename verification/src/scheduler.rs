//! The hints that the simple scheduler takes with a spawned task.
use vstd::prelude::*;

verus! {

/// How much a task blocks the thread that runs it.
#[derive(Clone, Copy, Debug, PartialEq, Eq, Structural)]
pub enum BlockingBehaviour {
    NONE,
    SOME,
    MUCH,
}

/// Scheduling hints that a spawner hands over with a task.
pub trait TaskInfo {
    spec fn spec_blocking_behaviour(&self) -> BlockingBehaviour;

    /// How much the task blocks.
    fn blocking_behaviour(&self) -> (b: BlockingBehaviour)
        ensures
            b == self.spec_blocking_behaviour(),
    ;
}

/// The first version of the hints: only the blocking behaviour.
pub struct TaskInfoV1 {
    blocking_behaviour: BlockingBehaviour,
}

impl TaskInfoV1 {
    pub fn new(blocking_behaviour: BlockingBehaviour) -> (info: TaskInfoV1)
        ensures
            info.spec_blocking_behaviour() == blocking_behaviour,
    {
        TaskInfoV1 { blocking_behaviour }
    }
}

impl TaskInfo for TaskInfoV1 {
    closed spec fn spec_blocking_behaviour(&self) -> BlockingBehaviour {
        self.blocking_behaviour
    }

    fn blocking_behaviour(&self) -> (b: BlockingBehaviour) {
        self.blocking_behaviour
    }
}

} // verus!
