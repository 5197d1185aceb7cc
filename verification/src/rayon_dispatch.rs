use vstd::prelude::*;

use crate::rayon_batch_schedule_error::RayonBatchScheduleError;

verus! {

/// What a Rayon worker does after waiting on the work channel.
#[derive(Debug)]
pub enum WorkerAction<T> {
    /// Run the received task.
    Execute {
        /// The task handed over by the producer.
        task: T,
    },
    /// Leave the worker loop: the producer closed the channel and every
    /// task sent on it has been received.
    Exit,
}

/// A worker's step: a received task runs, whatever has happened to progress
/// reporting meanwhile; a closed and drained channel ends the loop.
pub open spec fn spec_worker_action<T>(received: Option<T>) -> WorkerAction<T> {
    match received {
        Some(task) => WorkerAction::Execute { task },
        None => WorkerAction::Exit,
    }
}

/// Decides a Rayon worker's next step from what it received on the work
/// channel (`None` once the channel is closed and drained).
pub fn worker_action<T>(received: Option<T>) -> (action: WorkerAction<T>)
    ensures
        action == spec_worker_action(received),
{
    match received {
        Some(task) => WorkerAction::Execute { task },
        None => WorkerAction::Exit,
    }
}

/// Law: every task that reaches a worker runs, so the accepted tasks of a
/// batch are drained before it returns; a worker only leaves its loop once
/// the channel is closed and empty.
pub proof fn law_received_tasks_are_drained<T>(task: T)
    ensures
        spec_worker_action(Some(task)) == (WorkerAction::Execute { task }),
        spec_worker_action::<T>(None) is Exit,
{
}

/// The most accepted tasks of a parallel batch that are unfinished at once:
/// one running on each of the `worker_count` workers, a full work channel,
/// and the one the producer holds while it waits to hand it over.
pub open spec fn spec_admission_window(worker_count: nat) -> nat {
    2 * worker_count + 1
}

/// Returns the capacity of the work channel between the producer and
/// `worker_count` workers: one slot per worker, so that the producer is never
/// more than the admission window ahead of the workers.
pub fn work_channel_capacity(worker_count: usize) -> (capacity: usize)
    ensures
        capacity == worker_count,
        worker_count + capacity + 1 == spec_admission_window(worker_count as nat),
{
    worker_count
}

/// What the producer's hand-over of one accepted task to the workers means
/// for the batch: a delivered task lets the producer go on; a channel that no
/// worker listens on any more fails the batch.
pub open spec fn spec_send_outcome(sent: bool) -> Result<(), RayonBatchScheduleError> {
    if sent {
        Ok(())
    } else {
        Err(RayonBatchScheduleError::WorkChannelDisconnected)
    }
}

/// Decides what the producer does after handing an accepted task to the
/// work channel, given whether the channel took it.
pub fn send_outcome(sent: bool) -> (outcome: Result<(), RayonBatchScheduleError>)
    ensures
        outcome == spec_send_outcome(sent),
{
    if sent {
        Ok(())
    } else {
        Err(RayonBatchScheduleError::WorkChannelDisconnected)
    }
}

} // verus!
