//! Tests for the producer and worker decisions, the active-pool registry and
//! worker thread names.

use qubit_rayon_batch::{
    send_outcome, work_channel_capacity, worker_action, worker_thread_name, ActiveBatchRegistry, RayonBatchScheduleError, WorkerAction,
};

#[test]
fn worker_runs_every_received_task_and_exits_on_closed_channel() {
    assert!(matches!(worker_action(Some(7)), WorkerAction::Execute { task: 7 }));
    assert!(matches!(worker_action(Some("task")), WorkerAction::Execute { task: "task" }));
    assert!(matches!(worker_action::<usize>(None), WorkerAction::Exit));
}

#[test]
fn failed_send_reports_disconnected_channel() {
    assert_eq!(send_outcome(true), Ok(()));
    assert_eq!(send_outcome(false), Err(RayonBatchScheduleError::WorkChannelDisconnected));
}

#[test]
fn registry_refuses_reentry_and_restores_on_leave() {
    let mut registry = ActiveBatchRegistry::new();
    assert!(!registry.is_active(11));
    assert!(registry.enter(11));
    assert!(registry.is_active(11));
    assert!(!registry.enter(11));
    assert!(registry.enter(22));
    assert!(registry.is_active(22));
    registry.leave(22);
    assert!(!registry.is_active(22));
    assert!(registry.is_active(11));
    registry.leave(11);
    assert!(!registry.is_active(11));
    assert!(registry.enter(11));
}

#[test]
fn registry_leave_of_inactive_pool_changes_nothing() {
    let mut registry = ActiveBatchRegistry::new();
    assert!(registry.enter(5));
    registry.leave(6);
    assert!(registry.is_active(5));
    assert!(!registry.is_active(6));
}

#[test]
fn worker_names_append_decimal_index() {
    let prefix = String::from("qubit-rayon-batch");
    assert_eq!(worker_thread_name(&prefix, 0), "qubit-rayon-batch-0");
    assert_eq!(worker_thread_name(&prefix, 7), "qubit-rayon-batch-7");
    assert_eq!(worker_thread_name(&prefix, 10), "qubit-rayon-batch-10");
    assert_eq!(worker_thread_name(&prefix, 1203), "qubit-rayon-batch-1203");
    assert_eq!(worker_thread_name(&String::new(), 42), "-42");
    assert_eq!(
        worker_thread_name(&prefix, usize::MAX),
        format!("qubit-rayon-batch-{}", usize::MAX)
    );
}

#[test]
fn work_channel_holds_one_task_per_worker() {
    assert_eq!(work_channel_capacity(1), 1);
    assert_eq!(work_channel_capacity(4), 4);
    assert_eq!(work_channel_capacity(0), 0);
}
