//! Tests for `RayonBatchExecutor` and its builder.

use std::time::Duration;

use qubit_rayon_batch::{
    BatchExecutionMode, RayonBatchExecutor, RayonBatchExecutorBuildError, DEFAULT_REPORT_INTERVAL_SECS,
    DEFAULT_SEQUENTIAL_THRESHOLD,
};

#[test]
fn test_rayon_batch_executor_build_rejects_invalid_thread_count() {
    let error = RayonBatchExecutor::builder(None)
        .thread_count(0)
        .build()
        .err()
        .expect("zero thread count should be rejected");

    assert!(matches!(error, RayonBatchExecutorBuildError::ZeroThreadCount));
}

#[test]
fn test_rayon_batch_executor_build_allows_zero_report_interval() {
    let executor = RayonBatchExecutor::builder(None)
        .report_interval(Duration::ZERO)
        .build()
        .expect("zero report interval should be accepted");

    assert_eq!(executor.report_interval(), Duration::ZERO);
}

#[test]
fn test_rayon_batch_executor_build_rejects_zero_stack_size() {
    let error = RayonBatchExecutor::builder(None)
        .stack_size(0)
        .build()
        .err()
        .expect("zero stack size should be rejected");

    assert!(matches!(error, RayonBatchExecutorBuildError::ZeroStackSize));
}

#[test]
fn test_rayon_batch_executor_build_reports_thread_pool_failure() {
    let error = RayonBatchExecutor::builder(None)
        .thread_count(2)
        .stack_size(usize::MAX)
        .build()
        .err()
        .expect("impossibly large stack size should make Rayon fail");

    assert!(matches!(error, RayonBatchExecutorBuildError::BuildFailed { .. }));
}

#[test]
fn test_rayon_batch_executor_new_default_and_accessors() {
    let executor = RayonBatchExecutor::new(2).expect("rayon batch executor should build");
    let default_executor = RayonBatchExecutor::builder(Some(3))
        .build()
        .expect("rayon batch executor should build");

    assert!(RayonBatchExecutor::default_thread_count(None) >= 1);
    assert_eq!(executor.thread_count(), 2);
    assert_eq!(executor.sequential_threshold(), RayonBatchExecutor::DEFAULT_SEQUENTIAL_THRESHOLD);
    assert_eq!(
        executor.report_interval(),
        Duration::from_secs(RayonBatchExecutor::DEFAULT_REPORT_INTERVAL_SECS)
    );
    assert_eq!(DEFAULT_SEQUENTIAL_THRESHOLD, 100);
    assert_eq!(DEFAULT_REPORT_INTERVAL_SECS, 5);
    assert!(default_executor.thread_count() >= 1);
}

#[test]
fn test_rayon_batch_executor_builder_custom_options() {
    let executor = RayonBatchExecutor::builder(None)
        .thread_count(2)
        .sequential_threshold(3)
        .report_interval(Duration::from_millis(25))
        .thread_name_prefix(String::from("qubit-rayon-batch-test"))
        .stack_size(2 * 1024 * 1024)
        .build()
        .expect("rayon batch executor should build with custom options");

    assert_eq!(executor.thread_count(), 2);
    assert_eq!(executor.sequential_threshold(), 3);
    assert_eq!(executor.report_interval(), Duration::from_millis(25));
}

#[test]
fn test_rayon_batch_executor_builder_applies_custom_execution_settings() {
    let executor = RayonBatchExecutor::builder(None)
        .thread_count(2)
        .sequential_threshold(7)
        .report_interval(Duration::from_millis(15))
        .thread_name_prefix(String::from("builder-test-worker"))
        .stack_size(2 * 1024 * 1024)
        .build()
        .expect("custom builder settings should build");

    assert_eq!(executor.thread_count(), 2);
    assert_eq!(executor.sequential_threshold(), 7);
    assert_eq!(executor.report_interval(), Duration::from_millis(15));
}

#[test]
fn test_rayon_batch_executor_build_error_formats_zero_thread_count() {
    let error = RayonBatchExecutor::builder(None)
        .thread_count(0)
        .build()
        .err()
        .expect("zero thread count should fail");

    assert!(matches!(error, RayonBatchExecutorBuildError::ZeroThreadCount));
    assert_eq!(error.message(), "rayon batch executor thread count must be greater than zero");
}

#[test]
fn test_rayon_batch_executor_build_error_formats_zero_stack_size() {
    let error = RayonBatchExecutor::builder(None)
        .stack_size(0)
        .build()
        .err()
        .expect("zero stack size should fail");

    assert!(matches!(error, RayonBatchExecutorBuildError::ZeroStackSize));
    assert_eq!(error.message(), "rayon batch executor worker stack size must be greater than zero");
}

#[test]
fn default_thread_name_prefix_is_stable() {
    let executor = RayonBatchExecutor::builder(None)
        .thread_count(1)
        .build()
        .expect("default configuration should build");
    assert_eq!(executor.thread_count(), 1);
}

#[test]
fn build_error_message_describes_rayon_failure() {
    let error = RayonBatchExecutor::builder(None)
        .thread_count(2)
        .stack_size(usize::MAX)
        .build()
        .err()
        .expect("impossibly large stack size should make Rayon fail");
    let message = error.message();
    assert!(message.starts_with("failed to build rayon batch executor: "));
    assert!(message.len() > "failed to build rayon batch executor: ".len());
    assert_eq!(
        RayonBatchExecutorBuildError::ZeroReportInterval.message(),
        "rayon batch executor report interval must be greater than zero"
    );
}

#[test]
fn builder_uses_detected_parallelism_or_one() {
    assert_eq!(RayonBatchExecutor::default_thread_count(Some(6)), 6);
    assert_eq!(RayonBatchExecutor::default_thread_count(None), 1);
    assert_eq!(RayonBatchExecutor::default_thread_count(Some(0)), 1);
    let executor = RayonBatchExecutor::builder(Some(3)).build().expect("three workers should build");
    assert_eq!(executor.thread_count(), 3);
    let executor = RayonBatchExecutor::builder(None).build().expect("one worker should build");
    assert_eq!(executor.thread_count(), 1);
}

#[test]
fn default_settings_match_documented_defaults() {
    let executor = RayonBatchExecutor::builder(Some(2)).build().expect("defaults should build");
    assert_eq!(executor.sequential_threshold(), 100);
    assert_eq!(executor.report_interval(), Duration::from_secs(5));
}

#[test]
fn execution_mode_uses_threshold_worker_count_and_reentry() {
    let executor = RayonBatchExecutor::builder(Some(4))
        .sequential_threshold(10)
        .build()
        .expect("executor should build");
    assert_eq!(executor.execution_mode(10, false), BatchExecutionMode::Sequential);
    assert_eq!(executor.execution_mode(0, false), BatchExecutionMode::Sequential);
    assert_eq!(executor.execution_mode(11, false), BatchExecutionMode::Parallel { worker_count: 4 });
    assert_eq!(executor.execution_mode(100, false), BatchExecutionMode::Parallel { worker_count: 4 });
    assert_eq!(executor.execution_mode(100, true), BatchExecutionMode::Sequential);

    let eager = RayonBatchExecutor::builder(Some(4))
        .sequential_threshold(0)
        .build()
        .expect("executor should build");
    assert_eq!(eager.execution_mode(1, false), BatchExecutionMode::Parallel { worker_count: 1 });
    assert_eq!(eager.execution_mode(3, false), BatchExecutionMode::Parallel { worker_count: 3 });
    assert_eq!(eager.execution_mode(0, false), BatchExecutionMode::Sequential);

    let single = RayonBatchExecutor::builder(Some(1))
        .sequential_threshold(0)
        .build()
        .expect("executor should build");
    assert_eq!(single.execution_mode(50, false), BatchExecutionMode::Sequential);
}

#[test]
fn mode_for_caller_runs_workers_and_producers_sequentially() {
    let executor = RayonBatchExecutor::builder(Some(2))
        .sequential_threshold(100)
        .build()
        .expect("executor should build");
    assert_eq!(executor.mode_for_caller(101, false, None), BatchExecutionMode::Parallel { worker_count: 2 });
    assert_eq!(executor.mode_for_caller(101, false, Some(0)), BatchExecutionMode::Sequential);
    assert_eq!(executor.mode_for_caller(101, false, Some(1)), BatchExecutionMode::Sequential);
    assert_eq!(executor.mode_for_caller(101, true, None), BatchExecutionMode::Sequential);
    assert_eq!(executor.mode_for_caller(100, false, None), BatchExecutionMode::Sequential);
    assert_eq!(executor.mode_for_caller(32, false, None), BatchExecutionMode::Sequential);
    assert_eq!(executor.mode_for_caller(0, false, None), BatchExecutionMode::Sequential);
}

#[test]
fn select_execution_mode_detects_same_pool_workers() {
    let executor = RayonBatchExecutor::builder(Some(2))
        .sequential_threshold(0)
        .build()
        .expect("executor should build");
    assert_eq!(executor.select_execution_mode(8, false), BatchExecutionMode::Parallel { worker_count: 2 });
    assert_eq!(executor.select_execution_mode(8, true), BatchExecutionMode::Sequential);

    let inside = executor.pool().install(|| executor.select_execution_mode(8, false));
    assert_eq!(inside, BatchExecutionMode::Sequential);

    let other = RayonBatchExecutor::builder(Some(2))
        .sequential_threshold(0)
        .build()
        .expect("executor should build");
    let from_other_pool = other.pool().install(|| executor.select_execution_mode(8, false));
    assert_eq!(from_other_pool, BatchExecutionMode::Parallel { worker_count: 2 });
}

#[test]
fn built_pool_runs_the_configured_number_of_workers() {
    let executor = RayonBatchExecutor::builder(None)
        .thread_count(3)
        .build()
        .expect("executor should build");
    assert_eq!(executor.pool_thread_count(), 3);
    assert_eq!(executor.pool().current_num_threads(), 3);

    let sized = RayonBatchExecutor::builder(None)
        .thread_count(2)
        .stack_size(4 * 1024 * 1024)
        .build()
        .expect("executor with a stack size should build");
    assert_eq!(sized.pool_thread_count(), 2);

    let single = RayonBatchExecutor::new(1).expect("executor should build");
    assert_eq!(single.pool_thread_count(), 1);
}

#[test]
fn cloned_executor_shares_configuration_and_pool() {
    let executor = RayonBatchExecutor::builder(Some(3))
        .sequential_threshold(5)
        .build()
        .expect("executor should build");
    let clone = executor.clone();
    assert_eq!(clone.thread_count(), 3);
    assert_eq!(clone.sequential_threshold(), 5);
    assert!(std::sync::Arc::ptr_eq(executor.pool(), clone.pool()));
    assert_eq!(clone.pool_thread_count(), 3);
}
