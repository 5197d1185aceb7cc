use vstd::prelude::*;

verus! {

/// A dedicated Rayon thread pool.
#[verifier::external_type_specification]
#[verifier::external_body]
pub struct ExThreadPool(rayon::ThreadPool);

/// Rayon's report of a thread pool it could not build.
#[verifier::external_type_specification]
#[verifier::external_body]
pub struct ExThreadPoolBuildError(rayon::ThreadPoolBuildError);

/// What `rayon::ThreadPool::current_num_threads` returns for `pool`: the
/// number of worker threads it runs. A pool built with an explicit thread
/// count keeps that number for its lifetime.
pub uninterp spec fn pool_worker_count(pool: rayon::ThreadPool) -> usize;

/// The most worker threads Rayon puts in one pool (`rayon::max_num_threads`):
/// its sleep counters hold 16 bits of thread count on 64-bit targets and 8
/// bits on 32-bit ones.
pub open spec fn rayon_thread_limit() -> usize {
    if usize::BITS == 64 { 65535 } else { 255 }
}

/// The number of workers Rayon starts when asked for `num_threads` (nonzero)
/// of them: the request, capped at Rayon's limit.
pub open spec fn started_worker_count(num_threads: usize) -> usize {
    if num_threads <= rayon_thread_limit() { num_threads } else { rayon_thread_limit() }
}

/// Calls `rayon::ThreadPool::current_num_threads`.
#[verifier::external_body]
pub(crate) fn pool_thread_count(pool: &rayon::ThreadPool) -> (count: usize)
    ensures
        count == pool_worker_count(*pool),
{
    pool.current_num_threads()
}

/// What a pool was asked of Rayon: the worker count, the prefix that worker
/// `i`'s name (`prefix`, `-`, `i`) starts with, and the workers' stack size
/// in bytes (`None`: Rayon's default).
pub struct PoolRequest {
    /// Number of workers requested.
    pub num_threads: usize,
    /// Prefix of every worker's name.
    pub thread_name_prefix: Seq<char>,
    /// Stack size of every worker, if one was requested.
    pub stack_size: Option<usize>,
}

/// A pool that Rayon built, together with what it was asked for. Only the
/// pool-building functions of this module make one, so its request is the
/// one that was handed to Rayon for this pool: rayon-core's `Registry::new`
/// starts the workers from it, naming worker `i` by the request's name for
/// `i` and giving each the requested stack size.
pub struct BuiltPool {
    pool: rayon::ThreadPool,
    request: Ghost<PoolRequest>,
}

impl BuiltPool {
    /// The pool Rayon built.
    pub closed spec fn spec_pool(&self) -> rayon::ThreadPool {
        self.pool
    }

    /// What the pool was asked of Rayon.
    pub closed spec fn spec_request(&self) -> PoolRequest {
        self.request@
    }

    /// Hands back the pool and, as a ghost value, its request.
    pub(crate) fn into_parts(self) -> (parts: (rayon::ThreadPool, Ghost<PoolRequest>))
        ensures
            parts.0 == self.spec_pool(),
            parts.1@ == self.spec_request(),
    {
        (self.pool, self.request)
    }
}

/// Rayon's refusal to build a pool, together with what the pool was asked
/// for. Only the pool-building functions of this module make one, so the
/// error is the one Rayon gave for that request.
pub struct FailedPool {
    error: rayon::ThreadPoolBuildError,
    request: Ghost<PoolRequest>,
}

impl FailedPool {
    /// Rayon's error.
    pub closed spec fn spec_error(&self) -> rayon::ThreadPoolBuildError {
        self.error
    }

    /// What the refused pool was asked of Rayon.
    pub closed spec fn spec_request(&self) -> PoolRequest {
        self.request@
    }

    /// Hands back Rayon's error.
    pub(crate) fn into_error(self) -> (error: rayon::ThreadPoolBuildError)
        ensures
            error == self.spec_error(),
    {
        self.error
    }
}

impl PoolRequest {
    /// The name that the request gives worker `index`.
    pub open spec fn worker_name(self, index: nat) -> Seq<char> {
        crate::thread_name::spec_worker_thread_name(self.thread_name_prefix, index)
    }
}

/// Builds a dedicated Rayon pool through `rayon::ThreadPoolBuilder`: `new`,
/// `num_threads(num_threads)`, a `thread_name` closure that names worker `i`
/// by the verified `worker_thread_name(prefix, i)`, and `build`; Rayon keeps
/// its default worker stack size. The pool, or Rayon's refusal, comes back
/// with that request.
///
/// The builder's type carries a spawn parameter that Rayon does not export,
/// so Verus cannot name it and the configuration chain stands here. Whether
/// Rayon succeeds depends on the operating system (it spawns the worker
/// threads). What is stated is what rayon-core's `Registry::new` shows of a
/// pool it returns: one worker per requested thread, up to its limit. That
/// each worker really carries the requested name and stack size is not
/// stated: no function that the library may call reports them. A prefix
/// holding a NUL character is left out: `std::thread::Builder::spawn`
/// panics on such a thread name.
#[verifier::external_body]
pub(crate) fn build_thread_pool(
    num_threads: usize,
    thread_name_prefix: String,
) -> (built: Result<BuiltPool, FailedPool>)
    requires
        num_threads > 0,
        !thread_name_prefix@.contains('\0'),
    ensures
        built matches Ok(pool) ==> {
            &&& pool_worker_count(pool.spec_pool()) == started_worker_count(num_threads)
            &&& pool.spec_request() == (PoolRequest {
                num_threads,
                thread_name_prefix: thread_name_prefix@,
                stack_size: None,
            })
        },
        built matches Err(failure) ==> failure.spec_request() == (PoolRequest {
            num_threads,
            thread_name_prefix: thread_name_prefix@,
            stack_size: None,
        }),
{
    let request = Ghost(PoolRequest { num_threads, thread_name_prefix: thread_name_prefix@, stack_size: None });
    let result = rayon::ThreadPoolBuilder::new()
        .num_threads(num_threads)
        .thread_name(move |index| crate::thread_name::worker_thread_name(&thread_name_prefix, index))
        .build();
    match result {
        Ok(pool) => Ok(BuiltPool { pool, request }),
        Err(error) => Err(FailedPool { error, request }),
    }
}

/// As `build_thread_pool`, with `stack_size(stack_size)` added before
/// `build` so that each worker gets a stack of that many bytes.
#[verifier::external_body]
pub(crate) fn build_thread_pool_with_stack_size(
    num_threads: usize,
    thread_name_prefix: String,
    stack_size: usize,
) -> (built: Result<BuiltPool, FailedPool>)
    requires
        num_threads > 0,
        stack_size > 0,
        !thread_name_prefix@.contains('\0'),
    ensures
        built matches Ok(pool) ==> {
            &&& pool_worker_count(pool.spec_pool()) == started_worker_count(num_threads)
            &&& pool.spec_request() == (PoolRequest {
                num_threads,
                thread_name_prefix: thread_name_prefix@,
                stack_size: Some(stack_size),
            })
        },
        built matches Err(failure) ==> failure.spec_request() == (PoolRequest {
            num_threads,
            thread_name_prefix: thread_name_prefix@,
            stack_size: Some(stack_size),
        }),
{
    let request = Ghost(
        PoolRequest { num_threads, thread_name_prefix: thread_name_prefix@, stack_size: Some(stack_size) },
    );
    let result = rayon::ThreadPoolBuilder::new()
        .num_threads(num_threads)
        .thread_name(move |index| crate::thread_name::worker_thread_name(&thread_name_prefix, index))
        .stack_size(stack_size)
        .build();
    match result {
        Ok(pool) => Ok(BuiltPool { pool, request }),
        Err(error) => Err(FailedPool { error, request }),
    }
}

/// What `std::time::Duration::from_secs(secs)` returns: a duration of
/// exactly `secs` seconds. The value depends on `secs` alone.
pub uninterp spec fn seconds_duration(secs: u64) -> std::time::Duration;

/// Calls `std::time::Duration::from_secs`; the contract claims only that the
/// result is the same duration for the same number of seconds.
#[verifier::external_body]
pub(crate) fn duration_from_secs(secs: u64) -> (duration: std::time::Duration)
    ensures
        duration == seconds_duration(secs),
{
    std::time::Duration::from_secs(secs)
}

/// Where the calling thread stands among a pool's workers, as Rayon reported
/// it: its index, or `None` when it is not one of them. Only
/// `current_worker_index` makes one, so the index is Rayon's answer.
pub struct WorkerPosition {
    index: Option<usize>,
}

impl WorkerPosition {
    /// The reported index.
    pub closed spec fn spec_index(&self) -> Option<usize> {
        self.index
    }

    /// Returns the reported index.
    pub(crate) fn index(&self) -> (index: Option<usize>)
        ensures
            index == self.spec_index(),
    {
        self.index
    }
}

/// Calls `rayon::ThreadPool::current_thread_index`: the index of the
/// calling thread among the pool's workers, or `None` when the caller is not
/// one of them. Which of the two depends on the calling thread; an index is
/// always one of the pool's worker positions.
#[verifier::external_body]
pub(crate) fn current_worker_index(pool: &rayon::ThreadPool) -> (position: WorkerPosition)
    ensures
        position.spec_index() matches Some(i) ==> i < pool_worker_count(*pool),
{
    WorkerPosition { index: pool.current_thread_index() }
}

/// Calls `Arc::clone` on a pool handle: another handle to the same pool.
#[verifier::external_body]
pub(crate) fn share_pool(pool: &std::sync::Arc<rayon::ThreadPool>) -> (shared: std::sync::Arc<rayon::ThreadPool>)
    ensures
        shared == *pool,
{
    std::sync::Arc::clone(pool)
}

} // verus!
