# threader

The decisions of a small asynchronous runtime, verified with Verus: a
work-stealing thread pool, an executor with a shared injector, a reactor for IO
resources, and the control flow of TCP streams.

- `src/` is the library. Its types are state machines on plain values, reached
  through `&mut`: tasks, workers and resources are numbers, wakers are whatever
  the caller hands in. `thread_pool/laws.rs` and `reactor/laws.rs` state what
  holds across several calls.
- `src/queues.rs`, `src/ready.rs` and `src/cpus.rs` hold every call into another
  crate (`crossbeam`, `mio`, `num_cpus`), each with the contract that it is
  trusted to meet.
- `app/` runs the library on threads, with locks, futures and the system
  selector. Its `main` measures how long it takes to spawn tasks.
- `tests/` runs the library on concrete values.
