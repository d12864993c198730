use dictum_core::keyboard::{
    register_command, unregister_command, is_registered_command, KeyboardCommand,
    manager_reply, registered_reply, KeyboardManagerHandle, check_not_registered, startup_registrations, BindingShortcut, handle_shortcut_event, key_event_to_handy_parts, HotkeyRegistry, KeyRecorder,
    KeyboardRecordingState, ModifierState, RecorderStep, ShortcutAction, ToggleStates,
};

fn mods(ctrl: bool, opt: bool, shift: bool, cmd: bool, fn_key: bool) -> ModifierState {
    ModifierState { ctrl, opt, shift, cmd, fn_key }
}

#[test]
fn key_parts_use_platform_modifier_names() {
    let (parts, key) = key_event_to_handy_parts(mods(true, true, false, true, true), Some("Space"), true);
    assert_eq!(parts, vec!["ctrl", "option", "command", "fn"]);
    assert_eq!(key.as_deref(), Some("space"));

    let (parts, key) = key_event_to_handy_parts(mods(true, true, true, true, true), Some("A"), false);
    assert_eq!(parts, vec!["ctrl", "alt", "shift", "super"]);
    assert_eq!(key.as_deref(), Some("a"));

    let (parts, key) = key_event_to_handy_parts(mods(false, false, false, false, false), None, false);
    assert!(parts.is_empty());
    assert_eq!(key, None);
}

#[test]
fn recorder_reports_combo_and_completes_on_full_release() {
    let mut r = KeyRecorder::new();
    assert_eq!(r.current_combo(), "");
    match r.on_key_event(vec!["ctrl".to_string()], Some("space".to_string()), true) {
        RecorderStep::KeyDown { current_combo } => assert_eq!(current_combo, "ctrl+space"),
        other => panic!("unexpected {:?}", other),
    }
    // A key that is itself a modifier is not repeated.
    match r.on_key_event(vec!["ctrl".to_string(), "shift".to_string()], Some("shift".to_string()), true) {
        RecorderStep::KeyDown { current_combo } => assert_eq!(current_combo, "ctrl+shift"),
        other => panic!("unexpected {:?}", other),
    }
    // Releasing one key while another is still held reports nothing.
    assert!(matches!(r.on_key_event(vec!["ctrl".to_string()], None, false), RecorderStep::Nothing));
    match r.on_key_event(vec![], None, false) {
        RecorderStep::Complete { shortcut } => assert_eq!(shortcut, "ctrl+shift"),
        other => panic!("unexpected {:?}", other),
    }
}

#[test]
fn recorder_without_keys_never_completes() {
    let mut r = KeyRecorder::new();
    assert!(matches!(r.on_key_event(vec![], None, false), RecorderStep::Nothing));
}

#[test]
fn recording_state_refuses_overlaps_and_foreign_stops() {
    let mut s = KeyboardRecordingState::default();
    assert!(!s.is_recording());
    assert!(s.start("transcribe").is_ok());
    assert!(s.is_recording());
    assert_eq!(s.start("cancel").unwrap_err(), "Already recording a shortcut");
    assert_eq!(s.stop("cancel").unwrap_err(), "Not currently recording binding 'cancel'");
    assert!(s.stop("transcribe").is_ok());
    assert!(!s.is_recording());
    assert!(s.start("cancel").is_ok());
    s.mark_complete();
    assert!(!s.is_recording());
    s.finish("cancel");
    assert!(s.start("transcribe").is_ok());
}

#[test]
fn registry_register_then_unregister() {
    let mut reg = HotkeyRegistry::new();
    assert!(reg.check_register("transcribe", "ctrl+space", None).is_ok());
    assert_eq!(
        reg.check_register("transcribe", "ctrl+", Some("missing key")).unwrap_err(),
        "Failed to parse shortcut 'ctrl+': missing key"
    );
    assert!(reg.finish_register("transcribe", "ctrl+space", Ok(42)).is_ok());
    assert!(reg.is_registered("transcribe"));
    assert_eq!(
        reg.check_register("transcribe", "ctrl+space", None).unwrap_err(),
        "Binding 'transcribe' is already registered"
    );
    assert_eq!(
        reg.lookup_hotkey(42),
        Some(("transcribe".to_string(), "ctrl+space".to_string()))
    );
    assert_eq!(reg.lookup_hotkey(7), None);
    assert_eq!(reg.check_unregister("transcribe"), Ok(42));
    assert!(reg.finish_unregister("transcribe", Ok(())).is_ok());
    assert!(!reg.is_registered("transcribe"));
    assert_eq!(
        reg.check_unregister("transcribe").unwrap_err(),
        "Binding 'transcribe' is not registered"
    );
}

#[test]
fn registry_keeps_state_when_the_manager_fails() {
    let mut reg = HotkeyRegistry::new();
    assert_eq!(
        reg.finish_register("transcribe", "ctrl+space", Err("taken".to_string())).unwrap_err(),
        "Failed to register shortcut: taken"
    );
    assert!(!reg.is_registered("transcribe"));
    assert!(reg.finish_register("transcribe", "ctrl+space", Ok(1)).is_ok());
    assert_eq!(
        reg.finish_unregister("transcribe", Err("gone".to_string())).unwrap_err(),
        "Failed to unregister shortcut: gone"
    );
    assert!(reg.is_registered("transcribe"));
}

#[test]
fn push_to_talk_press_starts_and_release_stops() {
    let mut t = ToggleStates::new();
    assert_eq!(handle_shortcut_event(&mut t, "transcribe", true, false, true, true), ShortcutAction::Start);
    assert_eq!(handle_shortcut_event(&mut t, "transcribe", true, true, true, false), ShortcutAction::Stop);
    assert!(!t.is_on("transcribe"));
}

#[test]
fn toggle_mode_alternates_and_ignores_releases() {
    let mut t = ToggleStates::new();
    assert_eq!(handle_shortcut_event(&mut t, "transcribe", true, false, false, true), ShortcutAction::Start);
    assert!(t.is_on("transcribe"));
    assert_eq!(handle_shortcut_event(&mut t, "transcribe", true, true, false, false), ShortcutAction::Nothing);
    assert_eq!(handle_shortcut_event(&mut t, "other", true, true, false, true), ShortcutAction::Start);
    assert_eq!(handle_shortcut_event(&mut t, "transcribe", true, true, false, true), ShortcutAction::Stop);
    assert!(!t.is_on("transcribe"));
    assert!(t.is_on("other"));
}

#[test]
fn cancel_fires_only_on_press_while_recording() {
    let mut t = ToggleStates::new();
    assert_eq!(handle_shortcut_event(&mut t, "cancel", true, false, false, true), ShortcutAction::Nothing);
    assert_eq!(handle_shortcut_event(&mut t, "cancel", true, true, false, false), ShortcutAction::Nothing);
    assert_eq!(handle_shortcut_event(&mut t, "cancel", true, true, true, true), ShortcutAction::Start);
    assert!(!t.is_on("cancel"));
    assert_eq!(handle_shortcut_event(&mut t, "transcribe", false, true, false, true), ShortcutAction::Nothing);
}

#[test]
fn already_registered_shortcut_is_refused() {
    assert_eq!(
        check_not_registered(true, "ctrl+space").unwrap_err(),
        "Shortcut 'ctrl+space' is already registered"
    );
    assert!(check_not_registered(false, "ctrl+space").is_ok());
}

fn binding(id: &str, shortcut: &str) -> BindingShortcut {
    BindingShortcut { id: id.to_string(), current_binding: shortcut.to_string() }
}

#[test]
fn startup_registers_defaults_with_user_overrides_except_cancel() {
    let defaults = vec![
        binding("transcribe", "ctrl+space"),
        binding("cancel", "escape"),
        binding("transcribe_with_post_process", "ctrl+shift+space"),
    ];
    let user = vec![binding("transcribe", "alt+space"), binding("cancel", "f1")];
    let got: Vec<(String, String)> = startup_registrations(&defaults, &user)
        .into_iter()
        .map(|b| (b.id, b.current_binding))
        .collect();
    assert_eq!(
        got,
        vec![
            ("transcribe".to_string(), "alt+space".to_string()),
            ("transcribe_with_post_process".to_string(), "ctrl+shift+space".to_string()),
        ]
    );
}

#[test]
fn manager_replies_and_unreachable_thread() {
    assert_eq!(manager_reply(false, None).unwrap_err(), "Keyboard manager thread not running");
    assert_eq!(manager_reply(true, None).unwrap_err(), "Keyboard manager thread died");
    assert_eq!(manager_reply(true, Some(Err("taken".to_string()))).unwrap_err(), "taken");
    assert!(manager_reply(true, Some(Ok(()))).is_ok());
    assert!(registered_reply(true, Some(true)));
    assert!(!registered_reply(true, None));
    assert!(!registered_reply(false, Some(true)));

    let (tx, rx) = std::sync::mpsc::channel();
    drop(rx);
    let handle = KeyboardManagerHandle::new(tx);
    assert_eq!(handle.register("transcribe", "ctrl+space").unwrap_err(), "Keyboard manager thread not running");
    assert_eq!(handle.unregister("transcribe").unwrap_err(), "Keyboard manager thread not running");
    assert!(!handle.is_registered("transcribe"));
}

#[test]
fn commands_carry_their_arguments() {
    let (tx, _rx) = std::sync::mpsc::channel();
    match register_command("transcribe", "ctrl+space", tx) {
        KeyboardCommand::Register { binding_id, shortcut_str, .. } => {
            assert_eq!(binding_id, "transcribe");
            assert_eq!(shortcut_str, "ctrl+space");
        }
        _ => panic!("expected a register command"),
    }
    let (tx, _rx) = std::sync::mpsc::channel();
    assert!(matches!(unregister_command("cancel", tx), KeyboardCommand::Unregister { binding_id, .. } if binding_id == "cancel"));
    let (tx, _rx) = std::sync::mpsc::channel();
    assert!(matches!(is_registered_command("cancel", tx), KeyboardCommand::IsRegistered { binding_id, .. } if binding_id == "cancel"));
}
