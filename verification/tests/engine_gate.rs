use dictum_core::engine_gate::{test_reservation, EngineBusy, EngineGate, EngineJobKind};

#[test]
fn try_reserve_succeeds_when_free_and_releases_on_drop() {
    let mut gate = EngineGate::new(1);
    assert!(gate.holder_kind().is_none());
    let reservation = gate.try_reserve(EngineJobKind::Ipc).unwrap();
    assert!(reservation.is_active(&gate));
    assert_eq!(gate.holder_kind(), Some(EngineJobKind::Ipc));
    gate.release(reservation);
    assert!(gate.holder_kind().is_none());
}

#[test]
fn try_reserve_reports_busy_with_current_holder() {
    let mut gate = EngineGate::new(1);
    let _held = gate.try_reserve(EngineJobKind::Retry).unwrap();
    let err = gate.try_reserve(EngineJobKind::Ipc).unwrap_err();
    assert_eq!(err.holder, EngineJobKind::Retry);
}

#[test]
fn dictation_reserves_immediately_when_free() {
    let mut gate = EngineGate::new(1);
    let reservation = gate.reserve_dictation().unwrap();
    assert!(reservation.is_active(&gate));
    assert_eq!(gate.holder_kind(), Some(EngineJobKind::Dictation));
}

#[test]
fn dictation_pends_behind_background_job_and_takes_handoff() {
    let mut gate = EngineGate::new(1);
    let ipc = gate.try_reserve(EngineJobKind::Ipc).unwrap();

    let dictation = gate.reserve_dictation().unwrap();
    assert!(!dictation.is_active(&gate), "must pend while IPC holds the engine");
    assert_eq!(gate.holder_kind(), Some(EngineJobKind::Ipc));

    gate.release(ipc);
    assert!(
        dictation.is_active(&gate),
        "handoff must transfer ownership atomically on release"
    );
    assert_eq!(gate.holder_kind(), Some(EngineJobKind::Dictation));
}

#[test]
fn background_job_cannot_jump_a_pending_dictation() {
    let mut gate = EngineGate::new(1);
    let ipc_a = gate.try_reserve(EngineJobKind::Ipc).unwrap();
    let dictation = gate.reserve_dictation().unwrap();

    assert_eq!(
        gate.try_reserve(EngineJobKind::Ipc).unwrap_err().holder,
        EngineJobKind::Ipc
    );

    gate.release(ipc_a);
    assert_eq!(
        gate.try_reserve(EngineJobKind::Ipc).unwrap_err().holder,
        EngineJobKind::Dictation
    );
    gate.release(dictation);
    assert!(gate.try_reserve(EngineJobKind::Ipc).is_ok());
}

#[test]
fn dropping_a_pending_dictation_deregisters_it() {
    let mut gate = EngineGate::new(1);
    let ipc = gate.try_reserve(EngineJobKind::Ipc).unwrap();
    let dictation = gate.reserve_dictation().unwrap();
    gate.release(dictation);
    gate.release(ipc);
    assert!(gate.holder_kind().is_none(), "no stale handoff");
}

#[test]
fn second_pending_dictation_is_rejected() {
    let mut gate = EngineGate::new(1);
    let _ipc = gate.try_reserve(EngineJobKind::Ipc).unwrap();
    let _pending = gate.reserve_dictation().unwrap();
    let err = gate.reserve_dictation().unwrap_err();
    assert_eq!(err.holder, EngineJobKind::Ipc);
}

#[test]
fn clones_share_ownership_and_last_drop_releases() {
    let mut gate = EngineGate::new(1);
    let reservation = gate.try_reserve(EngineJobKind::Retry).unwrap();
    let clone = gate.clone_reservation(&reservation);
    gate.release(reservation);
    assert_eq!(
        gate.holder_kind(),
        Some(EngineJobKind::Retry),
        "clone must keep the engine held"
    );
    gate.release(clone);
    assert!(gate.holder_kind().is_none());
}

#[test]
fn wait_active_returns_immediately_when_already_active() {
    let mut gate = EngineGate::new(1);
    let reservation = gate.reserve_dictation().unwrap();
    // A zero timeout: the deadline has already passed.
    reservation
        .wait_active_cancellable(&gate, true, false)
        .unwrap()
        .unwrap();
}

#[test]
fn wait_active_times_out_naming_the_holder() {
    let mut gate = EngineGate::new(1);
    let _ipc = gate.try_reserve(EngineJobKind::Ipc).unwrap();
    let dictation = gate.reserve_dictation().unwrap();
    // Still pending before the deadline: keep waiting.
    assert!(dictation.wait_active_cancellable(&gate, false, false).is_none());
    let err = dictation
        .wait_active_cancellable(&gate, true, false)
        .unwrap()
        .unwrap_err();
    assert_eq!(err.holder, EngineJobKind::Ipc);
}

#[test]
fn same_session_is_true_for_clones_only() {
    let mut gate = EngineGate::new(1);
    let reservation = gate.try_reserve(EngineJobKind::Retry).unwrap();
    let clone = gate.clone_reservation(&reservation);
    assert!(reservation.same_session(&clone));

    gate.release(reservation);
    gate.release(clone);
    let other = gate.try_reserve(EngineJobKind::Retry).unwrap();
    let unrelated = test_reservation();
    assert!(!other.same_session(&unrelated));
}

#[test]
fn reservation_is_bound_to_its_gate() {
    let mut gate_a = EngineGate::new(1);
    let gate_b = EngineGate::new(2);
    let reservation = gate_a.try_reserve(EngineJobKind::Ipc).unwrap();
    assert!(reservation.belongs_to(&gate_a));
    assert!(!reservation.belongs_to(&gate_b));
}

#[test]
fn busy_error_names_the_holder() {
    let err = EngineBusy {
        holder: EngineJobKind::Maintenance,
    };
    assert_eq!(
        err.message(),
        "the transcription engine is busy with engine maintenance"
    );
}

#[test]
fn cancellation_gives_up_waiting_naming_the_holder() {
    let mut gate = EngineGate::new(1);
    let _ipc = gate.try_reserve(EngineJobKind::Ipc).unwrap();
    let dictation = gate.reserve_dictation().unwrap();
    let err = dictation
        .wait_active_cancellable(&gate, false, true)
        .unwrap()
        .unwrap_err();
    assert_eq!(err.holder, EngineJobKind::Ipc);
}

#[test]
fn released_holder_hands_off_and_frees_after_dictation() {
    let mut gate = EngineGate::new(9);
    let retry = gate.try_reserve(EngineJobKind::Retry).unwrap();
    let retry_clone = gate.clone_reservation(&retry);
    let dictation = gate.reserve_dictation().unwrap();
    gate.release(retry);
    assert!(!dictation.is_active(&gate));
    gate.release(retry_clone);
    assert!(dictation.is_active(&gate));
    gate.release(dictation);
    assert!(gate.holder_kind().is_none());
}

#[test]
fn foreign_reservation_release_changes_nothing() {
    let mut gate_a = EngineGate::new(1);
    let mut gate_b = EngineGate::new(2);
    let held = gate_a.try_reserve(EngineJobKind::Ipc).unwrap();
    let foreign = gate_b.try_reserve(EngineJobKind::Ipc).unwrap();
    gate_a.release(foreign);
    assert_eq!(gate_a.holder_kind(), Some(EngineJobKind::Ipc));
    assert!(held.is_active(&gate_a));
}

#[test]
fn job_kinds_describe_themselves() {
    assert_eq!(EngineJobKind::Dictation.describe(), "dictation");
    assert_eq!(EngineJobKind::Retry.describe(), "a history retranscription");
    assert_eq!(EngineJobKind::Ipc.describe(), "an IPC transcription");
    assert_eq!(EngineJobKind::Cli.describe(), "a command-line transcription");
    assert_eq!(EngineJobKind::Maintenance.describe(), "engine maintenance");
}
