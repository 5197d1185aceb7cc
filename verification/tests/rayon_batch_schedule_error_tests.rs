//! Tests for Rayon scheduler errors.

use qubit_rayon_batch::RayonBatchScheduleError;

#[test]
fn scheduler_error_has_stable_display() {
    assert_eq!(
        RayonBatchScheduleError::WorkChannelDisconnected.message(),
        "Rayon batch work channel disconnected"
    );
}
