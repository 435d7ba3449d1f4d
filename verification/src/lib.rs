//! A multi-threaded task scheduler: pools of runners that take spawned tasks
//! from shared channels, handles through which a task's result is joined,
//! and a mutex that can be waited on both by threads and by tasks.
pub mod std_sync;
pub mod channel;
pub mod mpmc;
pub mod uni_mutex;
pub mod task_info;
pub mod scheduler;
pub mod join;
pub mod runner;
pub mod task_pool;
pub mod blocking;
pub mod simple;
pub mod task_spawn;
