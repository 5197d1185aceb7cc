//! Rayon-backed batch execution: configuration, validation and the
//! scheduling decisions of a dedicated-pool batch executor.
//!
//! The laws of each part are public proof functions in its module.

pub mod active_batch_guard;
pub mod constants;
pub mod rayon_batch_executor;
pub mod rayon_batch_executor_build_error;
pub mod rayon_batch_executor_builder;
pub mod rayon_batch_schedule_error;
pub mod rayon_dispatch;
pub mod rayon_support;
pub mod thread_name;

pub use active_batch_guard::ActiveBatchRegistry;
pub use constants::{DEFAULT_REPORT_INTERVAL_SECS, DEFAULT_SEQUENTIAL_THRESHOLD};
pub use rayon_batch_executor::{BatchExecutionMode, ExecutorSettings, RayonBatchExecutor};
pub use rayon_batch_executor_build_error::RayonBatchExecutorBuildError;
pub use rayon_batch_executor_builder::{BuilderSettings, RayonBatchExecutorBuilder};
pub use rayon_batch_schedule_error::RayonBatchScheduleError;
pub use rayon_dispatch::{send_outcome, work_channel_capacity, worker_action, WorkerAction};
pub use thread_name::worker_thread_name;
