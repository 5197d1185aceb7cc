use vstd::prelude::*;

verus! {

/// Errors returned when Rayon cannot receive a scheduled batch task.
#[derive(Debug, Clone, Copy, PartialEq, Eq, Structural)]
pub enum RayonBatchScheduleError {
    /// The internal work channel disconnected before all accepted tasks were
    /// sent.
    WorkChannelDisconnected,
}

impl RayonBatchScheduleError {
    /// The human-readable description of this error.
    pub open spec fn spec_message(self) -> Seq<char> {
        match self {
            RayonBatchScheduleError::WorkChannelDisconnected => "Rayon batch work channel disconnected"@,
        }
    }

    /// Returns the human-readable description of this error.
    pub fn message(&self) -> (text: String)
        ensures
            text@ == self.spec_message(),
    {
        match self {
            RayonBatchScheduleError::WorkChannelDisconnected => {
                String::from_str("Rayon batch work channel disconnected")
            },
        }
    }
}

} // verus!
