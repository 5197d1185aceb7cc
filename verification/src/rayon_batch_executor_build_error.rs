use vstd::prelude::*;
use vstd::string::to_string_from_display_ensures;

verus! {

/// Error returned when a `RayonBatchExecutorBuilder` cannot build an
/// executor.
#[derive(Debug)]
pub enum RayonBatchExecutorBuildError {
    /// The configured Rayon thread count is zero.
    ZeroThreadCount,
    /// The configured worker stack size is zero.
    ZeroStackSize,
    /// The configured progress-report interval is zero.
    ZeroReportInterval,
    /// Rayon rejected the underlying thread-pool configuration.
    BuildFailed {
        /// Underlying Rayon thread-pool build error.
        source: rayon::ThreadPoolBuildError,
    },
}

/// Text of the zero-thread-count error.
pub open spec fn zero_thread_count_text() -> Seq<char> {
    "rayon batch executor thread count must be greater than zero"@
}

/// Text of the zero-stack-size error.
pub open spec fn zero_stack_size_text() -> Seq<char> {
    "rayon batch executor worker stack size must be greater than zero"@
}

/// Text of the zero-report-interval error.
pub open spec fn zero_report_interval_text() -> Seq<char> {
    "rayon batch executor report interval must be greater than zero"@
}

/// Text that precedes Rayon's own description of a pool build failure.
pub open spec fn build_failed_prefix() -> Seq<char> {
    "failed to build rayon batch executor: "@
}

impl RayonBatchExecutorBuildError {
    /// Returns the human-readable description of this error; for a Rayon
    /// failure it is a fixed prefix followed by Rayon's own description.
    pub fn message(&self) -> (text: String)
        ensures
            match self {
                RayonBatchExecutorBuildError::ZeroThreadCount => text@ == zero_thread_count_text(),
                RayonBatchExecutorBuildError::ZeroStackSize => text@ == zero_stack_size_text(),
                RayonBatchExecutorBuildError::ZeroReportInterval => text@
                    == zero_report_interval_text(),
                RayonBatchExecutorBuildError::BuildFailed { source } => exists|detail: String|
                    #[trigger] to_string_from_display_ensures(source, detail) && text@
                        == build_failed_prefix() + detail@,
            },
    {
        match self {
            RayonBatchExecutorBuildError::ZeroThreadCount => {
                String::from_str("rayon batch executor thread count must be greater than zero")
            },
            RayonBatchExecutorBuildError::ZeroStackSize => {
                String::from_str("rayon batch executor worker stack size must be greater than zero")
            },
            RayonBatchExecutorBuildError::ZeroReportInterval => {
                String::from_str("rayon batch executor report interval must be greater than zero")
            },
            RayonBatchExecutorBuildError::BuildFailed { source } => {
                let detail = source.to_string();
                let text = String::from_str("failed to build rayon batch executor: ");
                let text = text.concat(detail.as_str());
                text
            },
        }
    }
}

impl From<rayon::ThreadPoolBuildError> for RayonBatchExecutorBuildError {
    fn from(source: rayon::ThreadPoolBuildError) -> (error: Self) {
        RayonBatchExecutorBuildError::BuildFailed { source }
    }
}

impl vstd::std_specs::convert::FromSpecImpl<rayon::ThreadPoolBuildError> for RayonBatchExecutorBuildError {
    open spec fn obeys_from_spec() -> bool {
        true
    }

    open spec fn from_spec(source: rayon::ThreadPoolBuildError) -> Self {
        RayonBatchExecutorBuildError::BuildFailed { source }
    }
}

} // verus!
