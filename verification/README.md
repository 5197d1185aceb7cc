# Qubit Rayon Batch

Rayon-backed batch execution for the `qubit-batch` API, written in Verus.

`RayonBatchExecutor` owns a dedicated Rayon pool and reuses it across calls.
A batch at or below `sequential_threshold`, an executor configured with one
worker, or a call made from inside the executor's own pool (a worker of it,
or a thread that is already producing tasks for one of its batches) runs
sequentially; larger batches are spread over `min(thread_count, count)`
workers of the pool.

## Layout

- `src/` is the verified library. It holds the executor's configuration and
  its validation (`RayonBatchExecutorBuilder`, `RayonBatchExecutorBuildError`),
  the Rayon pool that `build` creates (its size, and the worker names and
  stack size it was requested with), the work-channel capacity, the choice between
  sequential and parallel execution, the producer's and the workers' steps
  in a parallel batch (a failed hand-over fails the batch; every received
  task runs), the per-thread registry of active pools that detects
  same-pool reentry, and the naming of worker threads. Admission of source
  tasks and their indexes belong to `qubit-batch`'s coordinator. Laws about
  these parts are public proof functions next to the code they describe.
- `app/` is ordinary Rust around the library: the `qubit-batch`
  `BatchExecutor` implementation that runs tasks, the Rayon scope, channels
  and worker threads, progress reporters, and the machine queries (available
  parallelism, the thread-local registry).
- `tests/` exercises the library from outside.

## Installation

```toml
[dependencies]
qubit-batch = "=0.14.3"
qubit-rayon-batch = "0.10"
```

## Quick start

```rust
use qubit_rayon_batch::{BatchExecutionMode, RayonBatchExecutor};

let executor = RayonBatchExecutor::builder(Some(4))
    .sequential_threshold(1)
    .build()
    .expect("rayon batch executor should be created");

assert_eq!(executor.thread_count(), 4);
assert_eq!(
    executor.execution_mode(8, false),
    BatchExecutionMode::Parallel { worker_count: 4 }
);
assert_eq!(executor.execution_mode(1, false), BatchExecutionMode::Sequential);
```
