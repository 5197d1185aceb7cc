# Qubit Rayon Batch

面向 `qubit-batch` API 的 Rayon 批量执行器，使用 Verus 编写并验证。

`RayonBatchExecutor` 拥有一个专用 Rayon 线程池，并在多次调用之间复用它。
当批次大小不超过 `sequential_threshold`、执行器只配置了一个 worker，或调用发生在
该执行器自己的线程池内部（线程池的 worker，或正在为该线程池的某个批次产生任务的线程）时，
批次顺序执行；更大的批次分配给 `min(thread_count, count)` 个 worker 并行执行。

## 安装

```toml
[dependencies]
qubit-batch = "=0.14.3"
qubit-rayon-batch = "0.10"
```
