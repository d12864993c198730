use dictum_core::transcription::{
    advertised_language, canary_language, cpp_translation_task, describe_compute_devices, engine_still_current,
    get_available_accelerators, gpu_device_options, idle_watch_action, is_model_loaded, needs_fuzzy_correction,
    requested_language, resolve_device_index, resolve_gpu_device, run_timestamps, select_transcribe_backend,
    sense_voice_language, should_initiate_model_load, should_unload_immediately, stream_working_event,
    transcribe_precheck, whisper_initial_prompt, Backend, DeviceInfo, IdleAction, LoadingState, ModelStateEvent,
    StreamPhase, StreamWorkKind, Task, TimestampKind, TranscribeAccelerator,
};
use dictum_core::transcription::{
    cpp_run_plan, engine_panic_messages, load_failure_message, load_precheck, session_failure_message,
    transcription_failure_message, EngineType, EngineSlot, load_events,
};

fn device(index: Option<usize>, kind: &str, name: &str, description: &str, memory_total: u64) -> DeviceInfo {
    DeviceInfo {
        index,
        kind: kind.to_string(),
        name: name.to_string(),
        description: description.to_string(),
        memory_total,
    }
}

fn devices() -> Vec<DeviceInfo> {
    vec![
        device(Some(0), "cpu", "CPU", "", 0),
        device(Some(1), "cuda", "CUDA0", "NVIDIA RTX", 8 * 1024 * 1024 * 1024),
        device(Some(2), "vulkan", "Vulkan0", "", 3 * 1024 * 1024 + 5),
        device(None, "accel", "BLAS", "", 0),
        device(Some(3), "npu", "NPU", "", 0),
    ]
}

#[test]
fn requested_language_handles_auto_and_chinese_scripts() {
    assert_eq!(requested_language("auto"), None);
    assert_eq!(requested_language("zh-Hans"), Some("zh".to_string()));
    assert_eq!(requested_language("zh-Hant"), Some("zh".to_string()));
    assert_eq!(requested_language("de"), Some("de".to_string()));
}

#[test]
fn unadvertised_language_falls_back_to_auto_detect() {
    let langs = vec!["en".to_string(), "de".to_string()];
    assert_eq!(advertised_language(Some("de".to_string()), &langs), Some("de".to_string()));
    assert_eq!(advertised_language(Some("fr".to_string()), &langs), None);
    assert_eq!(advertised_language(Some("fr".to_string()), &vec![]), None);
    assert_eq!(advertised_language(None, &langs), None);
}

#[test]
fn translation_only_when_useful() {
    assert_eq!(cpp_translation_task(true, true, Some("de")), (Task::Translate, Some("en".to_string())));
    assert_eq!(cpp_translation_task(true, true, None), (Task::Translate, Some("en".to_string())));
    assert_eq!(cpp_translation_task(true, true, Some("en")), (Task::Transcribe, None));
    assert_eq!(cpp_translation_task(true, false, Some("de")), (Task::Transcribe, None));
    assert_eq!(cpp_translation_task(false, true, Some("de")), (Task::Transcribe, None));
}

#[test]
fn engine_specific_languages() {
    assert_eq!(sense_voice_language("zh-Hant"), Some("zh".to_string()));
    assert_eq!(sense_voice_language("yue"), Some("yue".to_string()));
    assert_eq!(sense_voice_language("de"), None);
    assert_eq!(canary_language("auto"), None);
    assert_eq!(canary_language("zh-Hans"), Some("zh-Hans".to_string()));
}

#[test]
fn custom_words_go_to_prompt_or_fuzzy_correction() {
    let words = vec!["Verus".to_string(), "Dictum".to_string()];
    assert_eq!(whisper_initial_prompt(&words, true), Some("Verus, Dictum".to_string()));
    assert_eq!(whisper_initial_prompt(&words, false), None);
    assert_eq!(whisper_initial_prompt(&vec![], true), None);
    assert!(needs_fuzzy_correction(true, false));
    assert!(!needs_fuzzy_correction(true, true));
    assert!(!needs_fuzzy_correction(false, false));
    assert_eq!(run_timestamps(true), TimestampKind::Segment);
    assert_eq!(run_timestamps(false), TimestampKind::NoTimestamps);
}

#[test]
fn loading_state_admits_one_load_at_a_time() {
    let mut s = LoadingState::new();
    assert!(!s.is_loading());
    let guard = s.try_start_loading().expect("first load starts");
    assert!(s.is_loading());
    assert!(s.try_start_loading().is_none());
    s.finish_loading(guard);
    assert!(!s.is_loading());
    assert!(should_initiate_model_load(false, false));
    assert!(!should_initiate_model_load(true, false));
    assert!(!should_initiate_model_load(false, true));
}

#[test]
fn lease_and_unload_decisions() {
    assert!(is_model_loaded(false, true));
    assert!(!is_model_loaded(false, false));
    assert!(engine_still_current(Some("small"), "small"));
    assert!(!engine_still_current(Some("large"), "small"));
    assert!(!engine_still_current(None, "small"));
    assert!(should_unload_immediately(true, true));
    assert!(!should_unload_immediately(true, false));
}

#[test]
fn idle_watcher_unloads_only_after_the_limit() {
    assert_eq!(idle_watch_action(true, Some(60), false, 1_000_000, 0, true), IdleAction::Wait);
    assert_eq!(idle_watch_action(false, Some(60), true, 1_000_000, 0, true), IdleAction::TouchActivity);
    assert_eq!(idle_watch_action(false, Some(60), false, 60_001, 0, true), IdleAction::Unload);
    assert_eq!(idle_watch_action(false, Some(60), false, 60_000, 0, true), IdleAction::Wait);
    assert_eq!(idle_watch_action(false, Some(60), false, 60_001, 0, false), IdleAction::Wait);
    assert_eq!(idle_watch_action(false, None, false, 60_001, 0, true), IdleAction::Wait);
    // A clock that went backwards counts as no idle time.
    assert_eq!(idle_watch_action(false, Some(0), false, 5, 10, true), IdleAction::Wait);
}

#[test]
fn precheck_answers_empty_audio_and_missing_engine() {
    assert_eq!(transcribe_precheck(0, false), Some(Ok(String::new())));
    assert_eq!(
        transcribe_precheck(10, false),
        Some(Err("Model is not loaded for transcription.".to_string()))
    );
    assert_eq!(transcribe_precheck(10, true), None);
}

#[test]
fn device_index_resolves_to_backend() {
    let d = devices();
    assert_eq!(resolve_device_index(&d, 0), Ok((Backend::Cpu, 0)));
    assert_eq!(resolve_device_index(&d, 1), Ok((Backend::Cuda, 1)));
    assert_eq!(resolve_device_index(&d, 2), Ok((Backend::Vulkan, 2)));
    assert_eq!(
        resolve_device_index(&d, 3).unwrap_err(),
        "Device index 3 has kind 'npu', which cannot host a model"
    );
    assert_eq!(
        resolve_device_index(&d, 9).unwrap_err(),
        "No compute device with index 9 (see --list-devices)"
    );
}

#[test]
fn gpu_accelerator_falls_back_to_auto() {
    assert_eq!(select_transcribe_backend(TranscribeAccelerator::Cpu, false, false, true, true), Backend::Cpu);
    assert_eq!(select_transcribe_backend(TranscribeAccelerator::Auto, true, true, true, true), Backend::Auto);
    assert_eq!(select_transcribe_backend(TranscribeAccelerator::Gpu, true, true, false, false), Backend::Metal);
    assert_eq!(select_transcribe_backend(TranscribeAccelerator::Gpu, true, false, true, true), Backend::Auto);
    assert_eq!(select_transcribe_backend(TranscribeAccelerator::Gpu, false, true, true, true), Backend::Cuda);
    assert_eq!(select_transcribe_backend(TranscribeAccelerator::Gpu, false, false, false, true), Backend::Vulkan);
    assert_eq!(select_transcribe_backend(TranscribeAccelerator::Gpu, false, false, false, false), Backend::Auto);
}

#[test]
fn stored_gpu_device_is_honoured_only_while_valid() {
    let d = devices();
    assert_eq!(resolve_gpu_device(TranscribeAccelerator::Gpu, 1, &d), 1);
    assert_eq!(resolve_gpu_device(TranscribeAccelerator::Gpu, 2, &d), 2);
    assert_eq!(resolve_gpu_device(TranscribeAccelerator::Gpu, 7, &d), 0);
    assert_eq!(resolve_gpu_device(TranscribeAccelerator::Auto, 1, &d), 0);
    assert_eq!(resolve_gpu_device(TranscribeAccelerator::Gpu, -1, &d), 0);
}

#[test]
fn gpu_options_list_gpus_with_labels_and_mib() {
    let opts = gpu_device_options(&devices());
    let got: Vec<(i32, String, usize)> = opts.into_iter().map(|o| (o.id, o.name, o.total_vram_mb)).collect();
    assert_eq!(
        got,
        vec![
            (1, "NVIDIA RTX".to_string(), 8192),
            (2, "Vulkan0".to_string(), 3),
            (3, "NPU".to_string(), 0),
        ]
    );
}

#[test]
fn compute_devices_are_described_one_per_line() {
    let lines = describe_compute_devices(&devices());
    assert_eq!(lines.len(), 5);
    assert_eq!(lines[0], "index=0 kind=cpu name=CPU vram=0MB");
    assert_eq!(lines[1], "index=1 kind=cuda name=NVIDIA RTX vram=8192MB");
    assert_eq!(lines[3], "index=- kind=accel name=BLAS vram=0MB");
}

#[test]
fn available_accelerators_list_the_three_settings() {
    let acc = get_available_accelerators(vec!["cuda".to_string()], &devices());
    assert_eq!(acc.transcribe, vec!["auto", "cpu", "gpu"]);
    assert_eq!(acc.ort, vec!["cuda"]);
    assert_eq!(acc.gpu_devices.len(), 3);
}

#[test]
fn events_carry_their_fields() {
    let e = ModelStateEvent::new("loading_failed", Some("small"), None, Some("boom"));
    assert_eq!(e.event_type, "loading_failed");
    assert_eq!(e.model_id.as_deref(), Some("small"));
    assert_eq!(e.model_name, None);
    assert_eq!(e.error.as_deref(), Some("boom"));
    let p = stream_working_event(StreamWorkKind::Polishing);
    assert_eq!(p.phase, StreamPhase::Working);
    assert_eq!(p.kind, Some(StreamWorkKind::Polishing));
}

#[test]
fn load_checks_and_failure_messages() {
    assert_eq!(load_precheck("small", false, false).unwrap_err(), "Model not found: small");
    assert_eq!(load_precheck("small", true, false).unwrap_err(), "Model not downloaded");
    assert!(load_precheck("small", true, true).is_ok());
    assert_eq!(
        load_failure_message(EngineType::TranscribeCpp, "small", "bad header"),
        "Failed to load whisper model small: bad header"
    );
    assert_eq!(
        load_failure_message(EngineType::MoonshineStreaming, "m", "x"),
        "Failed to load moonshine streaming model m: x"
    );
    assert_eq!(
        session_failure_message("small", "oom"),
        "Failed to create session for whisper model small: oom"
    );
}

#[test]
fn run_plan_combines_language_task_prompt_and_timestamps() {
    let langs = vec!["en".to_string(), "zh".to_string(), "de".to_string()];
    let words = vec!["Verus".to_string(), "Dictum".to_string()];
    let plan = cpp_run_plan("zh-Hant", &langs, true, true, &words, true);
    assert_eq!(plan.language.as_deref(), Some("zh"));
    assert_eq!(plan.task, Task::Translate);
    assert_eq!(plan.target_language.as_deref(), Some("en"));
    assert_eq!(plan.timestamps, TimestampKind::Segment);
    assert_eq!(plan.initial_prompt.as_deref(), Some("Verus, Dictum"));

    let plan = cpp_run_plan("fr", &langs, true, false, &words, true);
    assert_eq!(plan.language, None);
    assert_eq!(plan.task, Task::Translate);
    assert_eq!(plan.timestamps, TimestampKind::NoTimestamps);
    assert_eq!(plan.initial_prompt, None);

    let plan = cpp_run_plan("en", &langs, true, true, &vec![], true);
    assert_eq!(plan.language.as_deref(), Some("en"));
    assert_eq!(plan.task, Task::Transcribe);
    assert_eq!(plan.target_language, None);
    assert_eq!(plan.initial_prompt, None);
}

#[test]
fn engine_failure_and_panic_messages() {
    assert_eq!(
        transcription_failure_message(EngineType::Parakeet, "bad input"),
        "Parakeet transcription failed: bad input"
    );
    assert_eq!(
        transcription_failure_message(EngineType::TranscribeCpp, "x"),
        "transcribe-cpp transcription failed: x"
    );
    let (event, err) = engine_panic_messages("index out of bounds");
    assert_eq!(event, "Engine panicked: index out of bounds");
    assert_eq!(
        err,
        "Transcription engine panicked: index out of bounds. The model has been unloaded and will reload on next attempt."
    );
}

#[test]
fn engine_slot_drops_a_panicked_engine_and_returns_leases_to_the_same_model() {
    let mut slot = EngineSlot::new();
    assert!(!slot.is_model_loaded());
    assert!(!slot.take_for_run());
    slot.model_loaded("small");
    assert!(slot.take_for_run());
    slot.run_finished(false);
    assert!(slot.is_model_loaded());
    assert_eq!(slot.current_model().as_deref(), Some("small"));
    assert!(slot.take_for_run());
    slot.run_finished(true);
    assert!(!slot.is_model_loaded());
    assert_eq!(slot.current_model(), None);

    slot.model_loaded("small");
    assert!(slot.lease_for_stream());
    assert!(slot.is_model_loaded());
    slot.return_lease("small");
    assert!(slot.is_model_loaded());
    assert!(slot.lease_for_stream());
    slot.unload();
    slot.return_lease("small");
    assert!(!slot.is_model_loaded());
}

#[test]
fn load_events_come_in_order() {
    let ev = load_events("small", Some("Whisper Small"), None);
    let kinds: Vec<&str> = ev.iter().map(|e| e.event_type.as_str()).collect();
    assert_eq!(kinds, vec!["loading_started", "loading_completed"]);
    assert_eq!(ev[1].model_name.as_deref(), Some("Whisper Small"));
    let ev = load_events("small", Some("Whisper Small"), Some("Model not downloaded"));
    assert_eq!(ev[1].event_type, "loading_failed");
    assert_eq!(ev[1].error.as_deref(), Some("Model not downloaded"));
    let ev = load_events("nope", None, Some("ignored"));
    assert_eq!(ev.len(), 1);
    assert_eq!(ev[0].event_type, "loading_started");
}
