# async_threadrr

A multi-threaded scheduler for futures: pools of runner threads that take
spawned tasks from `flume` channels, join handles through which a task's
result reaches whoever waits for it, and a mutex that threads and tasks can
both wait for.

- `src/` is the verified library (Verus).  `std_sync.rs` and `channel.rs`
  hold the trusted declarations of the standard library's and `flume`'s
  items; every other module is verified.
- `app/` is the runtime around it: the global pools, the tasks that poll
  futures, the `Future`, `Drop` and `Wake` implementations, the loops that
  spin or block forever, and the browser entry points.
- `tests/` runs the library with the real channels and locks.
