//! Pools by how much their tasks block.
//!
//! A program keeps one task pool per kind of blocking and starts each pool
//! at most once.  A request for a pool that was never started is served by
//! the first started pool, in the order `MUCH`, `SOME`, `NONE`; with no pool
//! started, there is none to serve it.
use vstd::prelude::*;

verus! {

/// How much the tasks of a pool block the threads that run them.
#[derive(Clone, Copy, Debug, PartialEq, Eq, Structural)]
pub enum Blocking {
    MUCH,
    SOME,
    NONE,
}

/// The number of kinds of blocking, and so of pools.
pub const COUNT: usize = 3;

impl Blocking {
    pub open spec fn spec_index(self) -> int {
        match self {
            Blocking::MUCH => 0,
            Blocking::SOME => 1,
            Blocking::NONE => 2,
        }
    }

    /// The place of this kind's pool among the `COUNT` pools.
    pub fn index(self) -> (i: usize)
        ensures
            i == self.spec_index(),
            i < COUNT,
    {
        match self {
            Blocking::MUCH => 0,
            Blocking::SOME => 1,
            Blocking::NONE => 2,
        }
    }
}

/// The first started pool, if any, given which pools are started.
pub open spec fn first_started(started: Seq<bool>) -> Option<int> {
    if started[0] {
        Some(0)
    } else if started[1] {
        Some(1)
    } else if started[2] {
        Some(2)
    } else {
        None
    }
}

/// The pool that serves a request for `blocking`'s pool.
pub open spec fn serving_pool(blocking: Blocking, started: Seq<bool>) -> Option<int> {
    if started[blocking.spec_index()] {
        Some(blocking.spec_index())
    } else {
        first_started(started)
    }
}

/// The first started pool, by its place; `None` when no pool is started.
pub fn get_initialized(started: &[bool; COUNT]) -> (r: Option<usize>)
    ensures
        r == (match first_started(started@) {
            Some(i) => Some(i as usize),
            None => None::<usize>,
        }),
        r matches Some(i) ==> i < COUNT && started@[i as int] && forall|j: int| 0 <= j < i ==> !started@[j],
        r is None ==> forall|j: int| 0 <= j < COUNT ==> !started@[j],
{
    let mut i: usize = 0;
    while i < COUNT
        invariant
            i <= COUNT,
            forall|j: int| 0 <= j < i ==> !started@[j],
        decreases COUNT - i,
    {
        if started[i] {
            return Some(i);
        }
        i = i + 1;
    }
    None
}

/// The pool, by its place, that serves a request for `blocking`'s pool:
/// that pool if it is started, else the first started one; `None` when no
/// pool is started.
pub fn pool(blocking: Blocking, started: &[bool; COUNT]) -> (r: Option<usize>)
    ensures
        r == (match serving_pool(blocking, started@) {
            Some(i) => Some(i as usize),
            None => None::<usize>,
        }),
        r matches Some(i) ==> i < COUNT && started@[i as int],
        started@[blocking.spec_index()] ==> r == Some(blocking.spec_index() as usize),
        !started@[blocking.spec_index()] ==> (r matches Some(i) ==> forall|j: int| 0 <= j < i ==> !started@[j]),
        r is None ==> forall|j: int| 0 <= j < COUNT ==> !started@[j],
{
    let i: usize = blocking.index();
    if started[i] {
        Some(i)
    } else {
        get_initialized(started)
    }
}

/// A request to start the runners came after they were started.
#[derive(Clone, Copy, Debug, PartialEq, Eq, Structural)]
pub enum RunnersError {
    AlreadyInitialized,
}

/// What a request to start the runners leads to, given whether runners were
/// started before: a refusal if they were; else whether the non-blocking
/// pool is to be started here (it is when it gets runners).
pub fn init_runners_plan(already_initialized: bool, no_blocking_amount: usize) -> (r: Result<bool, RunnersError>)
    ensures
        already_initialized ==> r == Err::<bool, RunnersError>(RunnersError::AlreadyInitialized),
        !already_initialized ==> r == Ok::<bool, RunnersError>(no_blocking_amount > 0),
{
    if already_initialized {
        Err(RunnersError::AlreadyInitialized)
    } else {
        Ok(no_blocking_amount > 0)
    }
}

/// Each kind of blocking has a pool of its own: the places are distinct and
/// all below `COUNT`.
pub proof fn law_blocking_places_distinct(a: Blocking, b: Blocking)
    ensures
        0 <= a.spec_index() < COUNT,
        a.spec_index() == b.spec_index() <==> a == b,
{
}

/// The first started pool is the started one of lowest place, in the order
/// `MUCH`, `SOME`, `NONE`: every pool before it is not started, and there is
/// none only when no pool is started.
pub proof fn law_first_started_is_lowest_started(started: Seq<bool>)
    requires
        started.len() == COUNT,
    ensures
        first_started(started) matches Some(i) ==> 0 <= i < COUNT && started[i] && forall|j: int| 0 <= j < i ==> !started[j],
        first_started(started) is None <==> forall|j: int| 0 <= j < COUNT ==> !started[j],
{
    if forall|j: int| 0 <= j < COUNT ==> !started[j] {
        assert(!started[0] && !started[1] && !started[2]);
    }
}

/// A request is always served by a started pool, by the requested one when
/// it is started, and is refused only when no pool at all is started.
pub proof fn law_request_served_by_started_pool(blocking: Blocking, started: Seq<bool>)
    requires
        started.len() == COUNT,
    ensures
        serving_pool(blocking, started) matches Some(i) ==> 0 <= i < COUNT && started[i],
        started[blocking.spec_index()] ==> serving_pool(blocking, started) == Some(blocking.spec_index()),
        serving_pool(blocking, started) is None <==> forall|j: int| 0 <= j < COUNT ==> !started[j],
{
    if forall|j: int| 0 <= j < COUNT ==> !started[j] {
        assert(!started[0] && !started[1] && !started[2]);
    }
}

} // verus!
