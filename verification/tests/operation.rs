use dictum_core::operation::{OperationCoordinator, OperationPhase};

#[test]
fn first_operation_gets_id_one_and_records() {
    let mut c = OperationCoordinator::new();
    assert!(!c.has_active_operation());
    assert_eq!(c.active_operation_id(), None);
    let id = c.start_recording("transcribe");
    assert_eq!(id, 1);
    assert!(c.is_active(1));
    match c.current_phase() {
        OperationPhase::Recording { operation_id, binding_id } => {
            assert_eq!(operation_id, 1);
            assert_eq!(binding_id, "transcribe");
        }
        other => panic!("unexpected phase {:?}", other),
    }
}

#[test]
fn operation_lifecycle_runs_recording_processing_idle() {
    let mut c = OperationCoordinator::new();
    let id = c.start_recording("transcribe");
    assert!(c.transition_to_processing(id));
    assert!(matches!(c.current_phase(), OperationPhase::Processing { operation_id: 1, .. }));
    assert!(!c.transition_to_processing(id), "already processing");
    c.complete(id);
    assert!(c.current_phase().is_idle());
    assert!(!c.has_active_operation());
}

#[test]
fn new_operation_makes_the_old_one_stale() {
    let mut c = OperationCoordinator::new();
    let first = c.start_recording("transcribe");
    let second = c.start_recording("transcribe_with_post_process");
    assert_eq!(second, first + 1);
    assert!(!c.is_active(first));
    assert!(c.is_active(second));
    assert!(!c.transition_to_processing(first));
    c.complete(first);
    assert_eq!(c.active_operation_id(), Some(second));
    assert_eq!(c.current_phase().operation_id(), Some(second));
}

#[test]
fn cancel_returns_to_idle_and_ids_keep_growing() {
    let mut c = OperationCoordinator::new();
    let first = c.start_recording("transcribe");
    c.cancel();
    assert!(c.current_phase().is_idle());
    assert_eq!(c.active_operation_id(), None);
    let next = c.start_recording("transcribe");
    assert_eq!(next, first + 1);
}
