use std::time::Duration;
use vstd::prelude::*;

use crate::constants::{
    default_thread_name_prefix, spec_default_thread_name_prefix, DEFAULT_REPORT_INTERVAL_SECS,
    DEFAULT_SEQUENTIAL_THRESHOLD,
};
use crate::rayon_batch_executor::{spec_default_thread_count, ExecutorSettings, RayonBatchExecutor};
use crate::rayon_batch_executor_build_error::RayonBatchExecutorBuildError;
use crate::rayon_support::{
    build_thread_pool, build_thread_pool_with_stack_size, duration_from_secs, pool_worker_count,
    seconds_duration, started_worker_count, FailedPool, PoolRequest,
};

verus! {

/// Everything a `RayonBatchExecutorBuilder` has been told.
pub struct BuilderSettings {
    /// Number of Rayon worker threads to create.
    pub thread_count: usize,
    /// Maximum batch size that still uses sequential execution.
    pub sequential_threshold: usize,
    /// Minimum interval between due-based running progress callbacks.
    pub report_interval: Duration,
    /// Prefix used when naming Rayon worker threads.
    pub thread_name_prefix: Seq<char>,
    /// Optional worker stack size in bytes.
    pub stack_size: Option<usize>,
}

impl BuilderSettings {
    /// What these settings ask of Rayon when the pool is built.
    pub open spec fn pool_request(self) -> PoolRequest {
        PoolRequest {
            num_threads: self.thread_count,
            thread_name_prefix: self.thread_name_prefix,
            stack_size: self.stack_size,
        }
    }

    /// The part of these settings that a built executor keeps; the thread
    /// name prefix and stack size only shape the Rayon pool.
    pub open spec fn executor_settings(self) -> ExecutorSettings {
        ExecutorSettings {
            thread_count: self.thread_count,
            sequential_threshold: self.sequential_threshold,
            report_interval: self.report_interval,
        }
    }
}

/// Builder for `RayonBatchExecutor`.
pub struct RayonBatchExecutorBuilder {
    thread_count: usize,
    sequential_threshold: usize,
    report_interval: Duration,
    thread_name_prefix: String,
    stack_size: Option<usize>,
}

impl View for RayonBatchExecutorBuilder {
    type V = BuilderSettings;

    closed spec fn view(&self) -> BuilderSettings {
        BuilderSettings {
            thread_count: self.thread_count,
            sequential_threshold: self.sequential_threshold,
            report_interval: self.report_interval,
            thread_name_prefix: self.thread_name_prefix@,
            stack_size: self.stack_size,
        }
    }
}

/// The settings of a builder that nobody has configured yet, on a machine
/// whose detected parallelism is `available_parallelism`.
pub open spec fn default_builder_settings(available_parallelism: Option<usize>) -> BuilderSettings {
    BuilderSettings {
        thread_count: spec_default_thread_count(available_parallelism),
        sequential_threshold: DEFAULT_SEQUENTIAL_THRESHOLD,
        report_interval: seconds_duration(DEFAULT_REPORT_INTERVAL_SECS),
        thread_name_prefix: spec_default_thread_name_prefix(),
        stack_size: None,
    }
}

impl RayonBatchExecutorBuilder {
    /// Creates a builder with the default settings: as many worker threads as
    /// the machine's detected parallelism (one where it could not be
    /// detected), the default sequential threshold and report interval, the
    /// default thread-name prefix and Rayon's stack size.
    pub fn new(available_parallelism: Option<usize>) -> (builder: Self)
        ensures
            builder@ == default_builder_settings(available_parallelism),
    {
        RayonBatchExecutorBuilder {
            thread_count: RayonBatchExecutor::default_thread_count(available_parallelism),
            sequential_threshold: DEFAULT_SEQUENTIAL_THRESHOLD,
            report_interval: duration_from_secs(DEFAULT_REPORT_INTERVAL_SECS),
                thread_name_prefix: default_thread_name_prefix(),
            stack_size: None,
        }
    }

    /// Sets the Rayon worker-thread count.
    pub fn thread_count(self, thread_count: usize) -> (builder: Self)
        ensures
            builder@ == (BuilderSettings { thread_count, ..self@ }),
    {
        RayonBatchExecutorBuilder { thread_count, ..self }
    }

    /// Sets the sequential fallback threshold: the largest batch size that
    /// still runs sequentially.
    pub fn sequential_threshold(self, sequential_threshold: usize) -> (builder: Self)
        ensures
            builder@ == (BuilderSettings { sequential_threshold, ..self@ }),
    {
        RayonBatchExecutorBuilder { sequential_threshold, ..self }
    }

    /// Sets the minimum interval between due-based running progress
    /// callbacks. A zero interval reports at every running progress point.
    pub fn report_interval(self, report_interval: Duration) -> (builder: Self)
        ensures
            builder@ == (BuilderSettings { report_interval, ..self@ }),
    {
        RayonBatchExecutorBuilder { report_interval, ..self }
    }

    /// Sets the Rayon worker-thread name prefix; worker `i` is named by the
    /// prefix, a hyphen and `i`.
    pub fn thread_name_prefix(self, thread_name_prefix: String) -> (builder: Self)
        ensures
            builder@ == (BuilderSettings { thread_name_prefix: thread_name_prefix@, ..self@ }),
    {
        RayonBatchExecutorBuilder { thread_name_prefix, ..self }
    }

    /// Sets the Rayon worker-thread stack size in bytes.
    pub fn stack_size(self, stack_size: usize) -> (builder: Self)
        ensures
            builder@ == (BuilderSettings { stack_size: Some(stack_size), ..self@ }),
    {
        RayonBatchExecutorBuilder { stack_size: Some(stack_size), ..self }
    }

    /// Builds the configured executor.
    ///
    /// A zero thread count is refused first, then a zero stack size; a zero
    /// report interval is accepted. Otherwise Rayon builds the dedicated pool,
    /// and its refusal is returned as `BuildFailed`. The pool is asked for
    /// the configured thread count, thread-name prefix and stack size; a
    /// prefix holding a NUL character is left out, since no worker thread
    /// can carry such a name (spawning it panics).
    pub fn build(self) -> (result: Result<RayonBatchExecutor, RayonBatchExecutorBuildError>)
        requires
            !self@.thread_name_prefix.contains('\0'),
        ensures
            !(result matches Err(RayonBatchExecutorBuildError::ZeroReportInterval)),
            self@.thread_count == 0 ==> result matches Err(
                RayonBatchExecutorBuildError::ZeroThreadCount,
            ),
            self@.thread_count != 0 && self@.stack_size == Some(0usize) ==> result matches Err(
                RayonBatchExecutorBuildError::ZeroStackSize,
            ),
            self@.thread_count != 0 && self@.stack_size != Some(0usize) ==> match result {
                Ok(executor) => {
                    &&& executor@ == self@.executor_settings()
                    &&& executor.spec_pool_request() == self@.pool_request()
                    &&& pool_worker_count(*executor.spec_pool()) == started_worker_count(
                        self@.thread_count,
                    )
                },
                Err(error) => error matches RayonBatchExecutorBuildError::BuildFailed { source }
                    && exists|failure: FailedPool|
                    failure.spec_request() == self@.pool_request() && #[trigger] failure.spec_error()
                        == source,
            },
    {
        if self.thread_count == 0 {
            return Err(RayonBatchExecutorBuildError::ZeroThreadCount);
        }
        if let Some(size) = self.stack_size {
            if size == 0 {
                return Err(RayonBatchExecutorBuildError::ZeroStackSize);
            }
        }
        let prefix = self.thread_name_prefix.clone();
        let built = match self.stack_size {
            Some(size) => build_thread_pool_with_stack_size(self.thread_count, prefix, size),
            None => build_thread_pool(self.thread_count, prefix),
        };
        match built {
            Ok(pool) => Ok(RayonBatchExecutor::new_with_rayon(pool, self)),
            Err(failure) => {
                let ghost refused = failure;
                let source = failure.into_error();
                assert(refused.spec_error() == source);
                Err(RayonBatchExecutorBuildError::BuildFailed { source })
            },
        }
    }

    /// The configured thread count.
    pub(crate) fn configured_thread_count(&self) -> (n: usize)
        ensures
            n == self@.thread_count,
    {
        self.thread_count
    }

    /// The configured sequential threshold.
    pub(crate) fn configured_sequential_threshold(&self) -> (n: usize)
        ensures
            n == self@.sequential_threshold,
    {
        self.sequential_threshold
    }

    /// The configured report interval.
    pub(crate) fn configured_report_interval(&self) -> (interval: Duration)
        ensures
            interval == self@.report_interval,
    {
        self.report_interval
    }
}

} // verus!
