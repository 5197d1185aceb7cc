use std::sync::Arc;
use std::time::Duration;
use vstd::prelude::*;

use crate::rayon_batch_executor_build_error::RayonBatchExecutorBuildError;
use crate::rayon_batch_executor_builder::RayonBatchExecutorBuilder;
use crate::rayon_support::{
    current_worker_index, pool_thread_count, pool_worker_count, share_pool, started_worker_count, BuiltPool,
    PoolRequest, WorkerPosition,
};

verus! {

/// The configuration a `RayonBatchExecutor` runs batches with.
pub struct ExecutorSettings {
    /// Number of Rayon worker threads in the dedicated pool.
    pub thread_count: usize,
    /// Maximum batch size that still uses sequential execution.
    pub sequential_threshold: usize,
    /// Minimum interval between due-based running progress callbacks.
    pub report_interval: Duration,
}

/// How one batch is run.
#[derive(Debug, Clone, Copy, PartialEq, Eq, Structural)]
pub enum BatchExecutionMode {
    /// On the calling thread, through the sequential executor.
    Sequential,
    /// On `worker_count` workers of the dedicated Rayon pool.
    Parallel {
        /// Number of Rayon workers that pull tasks for this batch.
        worker_count: usize,
    },
}

/// The default worker-thread count: the detected parallelism, or one where
/// it could not be detected (a detected parallelism is never zero; zero is
/// read as undetected).
pub open spec fn spec_default_thread_count(available_parallelism: Option<usize>) -> usize {
    match available_parallelism {
        Some(n) => if n > 0 { n } else { 1 },
        None => 1,
    }
}

/// How a batch of `count` declared tasks is run by an executor with
/// `thread_count` workers and the given sequential threshold; `reentrant`
/// tells whether the call comes from inside this executor's own pool (a
/// worker of it, or a source producer of one of its running batches).
pub open spec fn spec_execution_mode(
    thread_count: usize,
    sequential_threshold: usize,
    count: usize,
    reentrant: bool,
) -> BatchExecutionMode {
    if count <= sequential_threshold || thread_count <= 1 || reentrant {
        BatchExecutionMode::Sequential
    } else {
        BatchExecutionMode::Parallel {
            worker_count: if thread_count <= count { thread_count } else { count },
        }
    }
}

/// How a batch of `count` declared tasks runs for a caller at position
/// `worker_index` among the pool's workers (`None`: not a worker), which is
/// or is not already producing tasks for one of the pool's batches.
pub open spec fn spec_mode_for_caller(
    thread_count: usize,
    sequential_threshold: usize,
    count: usize,
    producer_reentry: bool,
    worker_index: Option<usize>,
) -> BatchExecutionMode {
    spec_execution_mode(thread_count, sequential_threshold, count, producer_reentry || worker_index is Some)
}

/// Law: a call from one of the pool's own workers, or from a thread already
/// producing tasks for the pool, runs sequentially on that thread (no wait
/// for workers its parent occupies); a call from any other thread above the
/// threshold, on a pool of several workers, runs on `min(thread_count,
/// count)` workers.
pub proof fn law_reentrant_callers_run_sequentially(
    thread_count: usize,
    sequential_threshold: usize,
    count: usize,
    producer_reentry: bool,
    worker_index: Option<usize>,
)
    ensures
        producer_reentry || worker_index is Some ==> spec_mode_for_caller(
            thread_count,
            sequential_threshold,
            count,
            producer_reentry,
            worker_index,
        ) == BatchExecutionMode::Sequential,
        !producer_reentry && worker_index is None && count > sequential_threshold && thread_count > 1
            ==> spec_mode_for_caller(
            thread_count,
            sequential_threshold,
            count,
            producer_reentry,
            worker_index,
        ) == (BatchExecutionMode::Parallel {
            worker_count: if thread_count <= count { thread_count } else { count },
        }),
{
}

/// Law: how a caller's batch is routed, in full. It runs sequentially
/// exactly when the batch is at or below the threshold, the executor has at
/// most one worker, or the caller is reentrant (one of the pool's workers or
/// a producer for the pool); otherwise it runs on as many workers as the
/// pool has, but never more than there are tasks.
pub proof fn law_caller_routing(
    thread_count: usize,
    sequential_threshold: usize,
    count: usize,
    producer_reentry: bool,
    worker_index: Option<usize>,
)
    ensures
        ({
            let mode = spec_mode_for_caller(
                thread_count,
                sequential_threshold,
                count,
                producer_reentry,
                worker_index,
            );
            &&& (mode == BatchExecutionMode::Sequential) <==> (count <= sequential_threshold
                || thread_count <= 1 || producer_reentry || worker_index is Some)
            &&& thread_count <= 1 ==> mode == BatchExecutionMode::Sequential
            &&& mode matches BatchExecutionMode::Parallel { worker_count } ==> {
                &&& worker_count <= thread_count
                &&& worker_count <= count
                &&& (worker_count == thread_count || worker_count == count)
                &&& worker_count >= 2 || worker_count == count
            }
            &&& !producer_reentry && worker_index is None ==> mode == spec_execution_mode(
                thread_count,
                sequential_threshold,
                count,
                false,
            )
        }),
{
}

/// Law: the default worker-thread count is the detected parallelism itself
/// whenever one is detected, and one otherwise.
pub proof fn law_default_thread_count_follows_parallelism(detected: usize)
    ensures
        detected > 0 ==> spec_default_thread_count(Some(detected)) == detected,
        spec_default_thread_count(None) == 1,
        spec_default_thread_count(Some(detected)) >= 1,
{
}

/// Law: a batch at or below the sequential threshold, an executor with at
/// most one worker, and a call from inside the executor's own pool all run
/// sequentially on the calling thread.
pub proof fn law_sequential_fallback(
    thread_count: usize,
    sequential_threshold: usize,
    count: usize,
    reentrant: bool,
)
    requires
        count <= sequential_threshold || thread_count <= 1 || reentrant,
    ensures
        spec_execution_mode(thread_count, sequential_threshold, count, reentrant)
            == BatchExecutionMode::Sequential,
{
}

/// Law: a parallel batch uses as many workers as the pool has, but never more
/// workers than tasks, and at least one; it is only chosen for a batch above
/// the threshold on a pool of several workers, outside that pool.
pub proof fn law_parallel_worker_count(
    thread_count: usize,
    sequential_threshold: usize,
    count: usize,
    reentrant: bool,
)
    ensures
        spec_execution_mode(thread_count, sequential_threshold, count, reentrant) matches
            BatchExecutionMode::Parallel { worker_count } ==> {
            &&& 1 <= worker_count
            &&& worker_count <= thread_count
            &&& worker_count <= count
            &&& (worker_count == thread_count || worker_count == count)
            &&& count > sequential_threshold
            &&& thread_count > 1
            &&& !reentrant
        },
{
}

/// Law: with a threshold of zero, every non-empty batch on a pool of several
/// workers runs on Rayon workers unless the call comes from inside the pool.
pub proof fn law_zero_threshold_parallelizes_nonempty_batches(thread_count: usize, count: usize)
    requires
        thread_count > 1,
        count > 0,
    ensures
        spec_execution_mode(thread_count, 0, count, false) is Parallel,
        spec_execution_mode(thread_count, 0, count, true) == BatchExecutionMode::Sequential,
        spec_execution_mode(thread_count, 0, 0, false) == BatchExecutionMode::Sequential,
{
}

/// Parallel batch executor backed by a dedicated Rayon thread pool.
///
/// Small batches, executors with one worker, and calls made from inside the
/// executor's own pool run sequentially; larger batches are spread over the
/// pool's workers.
pub struct RayonBatchExecutor {
    pool: Arc<rayon::ThreadPool>,
    thread_count: usize,
    sequential_threshold: usize,
    report_interval: Duration,
    pool_request: Ghost<PoolRequest>,
}

impl View for RayonBatchExecutor {
    type V = ExecutorSettings;

    closed spec fn view(&self) -> ExecutorSettings {
        ExecutorSettings {
            thread_count: self.thread_count,
            sequential_threshold: self.sequential_threshold,
            report_interval: self.report_interval,
        }
    }
}

impl Clone for RayonBatchExecutor {
    /// Returns an executor with the same configuration that shares this
    /// executor's pool.
    fn clone(&self) -> (copy: Self)
        ensures
            copy@ == self@,
            copy.spec_pool() == self.spec_pool(),
            copy.spec_pool_request() == self.spec_pool_request(),
    {
        RayonBatchExecutor {
            pool: share_pool(&self.pool),
            thread_count: self.thread_count,
            sequential_threshold: self.sequential_threshold,
            report_interval: self.report_interval,
            pool_request: self.pool_request,
        }
    }
}

impl RayonBatchExecutor {
    /// Default sequential fallback threshold.
    pub const DEFAULT_SEQUENTIAL_THRESHOLD: usize = crate::constants::DEFAULT_SEQUENTIAL_THRESHOLD;

    /// Default interval between progress callbacks, in whole seconds.
    pub const DEFAULT_REPORT_INTERVAL_SECS: u64 = crate::constants::DEFAULT_REPORT_INTERVAL_SECS;

    /// What the dedicated pool was asked of Rayon when it was built: worker
    /// `i` is named `request.worker_name(i)` and runs on a stack of
    /// `request.stack_size` bytes, if given. It is the request that came back
    /// with the pool from the pool-building call, which no other code makes.
    pub closed spec fn spec_pool_request(&self) -> PoolRequest {
        self.pool_request@
    }

    /// The dedicated pool that parallel batches of this executor run on.
    pub closed spec fn spec_pool(&self) -> Arc<rayon::ThreadPool> {
        self.pool
    }

    /// Returns the default worker-thread count for a machine whose detected
    /// parallelism is `available_parallelism`: that parallelism, or `1` if it
    /// could not be detected.
    pub fn default_thread_count(available_parallelism: Option<usize>) -> (count: usize)
        ensures
            count == spec_default_thread_count(available_parallelism),
            available_parallelism matches Some(n) ==> (n > 0 ==> count == n),
            available_parallelism is None ==> count == 1,
            count >= 1,
    {
        match available_parallelism {
            Some(n) => if n > 0 { n } else { 1 },
            None => 1,
        }
    }

    /// Creates a builder initialized with the default settings for a machine
    /// whose detected parallelism is `available_parallelism`.
    pub fn builder(available_parallelism: Option<usize>) -> (builder: RayonBatchExecutorBuilder)
        ensures
            builder@ == crate::rayon_batch_executor_builder::default_builder_settings(
                available_parallelism,
            ),
    {
        RayonBatchExecutorBuilder::new(available_parallelism)
    }

    /// Creates an executor with `thread_count` workers and otherwise default
    /// settings.
    pub fn new(thread_count: usize) -> (result: Result<Self, RayonBatchExecutorBuildError>)
        ensures
            thread_count == 0 ==> result matches Err(RayonBatchExecutorBuildError::ZeroThreadCount),
            thread_count != 0 ==> match result {
                Ok(executor) => {
                    &&& executor@ == (ExecutorSettings {
                        thread_count,
                        ..crate::rayon_batch_executor_builder::default_builder_settings(
                            None,
                        ).executor_settings()
                    })
                    &&& executor.spec_pool_request() == (PoolRequest {
                        num_threads: thread_count,
                        thread_name_prefix: crate::constants::spec_default_thread_name_prefix(),
                        stack_size: None,
                    })
                    &&& pool_worker_count(*executor.spec_pool()) == started_worker_count(
                        thread_count,
                    )
                },
                Err(error) => error is BuildFailed,
            },
    {
        proof {
            crate::constants::lemma_default_prefix_has_no_nul();
        }
        Self::builder(None).thread_count(thread_count).build()
    }

    /// Wraps a pool built from `builder`'s configuration.
    pub(crate) fn new_with_rayon(built: BuiltPool, builder: RayonBatchExecutorBuilder) -> (executor: Self)
        ensures
            executor@ == builder@.executor_settings(),
            *executor.spec_pool() == built.spec_pool(),
            executor.spec_pool_request() == built.spec_request(),
    {
        let (pool, pool_request) = built.into_parts();
        let thread_count = builder.configured_thread_count();
        let sequential_threshold = builder.configured_sequential_threshold();
        let report_interval = builder.configured_report_interval();
        RayonBatchExecutor {
            pool: Arc::new(pool),
            thread_count,
            sequential_threshold,
            report_interval,
            pool_request,
        }
    }

    /// Returns the configured Rayon worker-thread count.
    pub fn thread_count(&self) -> (n: usize)
        ensures
            n == self@.thread_count,
    {
        self.thread_count
    }

    /// Returns the maximum task count that still uses sequential execution.
    pub fn sequential_threshold(&self) -> (n: usize)
        ensures
            n == self@.sequential_threshold,
    {
        self.sequential_threshold
    }

    /// Returns the minimum interval between progress callbacks.
    pub fn report_interval(&self) -> (interval: Duration)
        ensures
            interval == self@.report_interval,
    {
        self.report_interval
    }

    /// Returns the dedicated Rayon pool that parallel batches run on.
    pub fn pool(&self) -> (pool: &Arc<rayon::ThreadPool>)
        ensures
            *pool == self.spec_pool(),
    {
        &self.pool
    }

    /// Returns how many worker threads the dedicated pool runs.
    pub fn pool_thread_count(&self) -> (count: usize)
        ensures
            count == pool_worker_count(*self.spec_pool()),
    {
        pool_thread_count(&self.pool)
    }

    /// Decides how a batch of `count` declared tasks runs, given whether the
    /// call comes from inside this executor's pool.
    pub fn execution_mode(&self, count: usize, reentrant: bool) -> (mode: BatchExecutionMode)
        ensures
            mode == spec_execution_mode(self@.thread_count, self@.sequential_threshold, count, reentrant),
            (mode == BatchExecutionMode::Sequential) <==> (count <= self@.sequential_threshold
                || self@.thread_count <= 1 || reentrant),
            mode matches BatchExecutionMode::Parallel { worker_count } ==> {
                &&& worker_count <= self@.thread_count
                &&& worker_count <= count
                &&& (worker_count == self@.thread_count || worker_count == count)
            },
    {
        if count <= self.sequential_threshold || self.thread_count <= 1 || reentrant {
            BatchExecutionMode::Sequential
        } else if self.thread_count <= count {
            BatchExecutionMode::Parallel { worker_count: self.thread_count }
        } else {
            BatchExecutionMode::Parallel { worker_count: count }
        }
    }

    /// Decides how a batch of `count` declared tasks runs for a caller whose
    /// position among this pool's workers is `worker_index` (`None`: the
    /// caller is not one of them) and that is, or is not, already producing
    /// tasks for one of this pool's batches. Either makes the call reentrant.
    pub fn mode_for_caller(
        &self,
        count: usize,
        producer_reentry: bool,
        worker_index: Option<usize>,
    ) -> (mode: BatchExecutionMode)
        ensures
            mode == spec_mode_for_caller(
                self@.thread_count,
                self@.sequential_threshold,
                count,
                producer_reentry,
                worker_index,
            ),
            (mode == BatchExecutionMode::Sequential) <==> (count <= self@.sequential_threshold
                || self@.thread_count <= 1 || producer_reentry || worker_index is Some),
            mode matches BatchExecutionMode::Parallel { worker_count } ==> {
                &&& worker_count <= self@.thread_count
                &&& worker_count <= count
                &&& (worker_count == self@.thread_count || worker_count == count)
            },
    {
        let reentrant = match worker_index {
            Some(_) => true,
            None => producer_reentry,
        };
        self.execution_mode(count, reentrant)
    }

    /// Decides how a batch of `count` declared tasks runs on the calling
    /// thread: Rayon reports where that thread stands among this pool's
    /// workers, and `mode_for_caller` decides from that report. Which report
    /// comes depends on the calling thread; the mode is the one for the
    /// reported position, and a producer reentry runs sequentially whatever
    /// it is.
    pub fn select_execution_mode(&self, count: usize, producer_reentry: bool) -> (mode: BatchExecutionMode)
        ensures
            exists|position: WorkerPosition|
                (position.spec_index() matches Some(i) ==> i < pool_worker_count(*self.spec_pool())) && mode
                    == spec_mode_for_caller(
                    self@.thread_count,
                    self@.sequential_threshold,
                    count,
                    producer_reentry,
                    #[trigger] position.spec_index(),
                ),
            producer_reentry ==> mode == BatchExecutionMode::Sequential,
    {
        let position = current_worker_index(&self.pool);
        let worker_index = position.index();
        self.mode_for_caller(count, producer_reentry, worker_index)
    }
}

} // verus!
