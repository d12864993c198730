use dictum_core::cpu_check::check_avx2_support;
use dictum_core::diagnostics::{heartbeat_late, suspend_detected};
use dictum_core::history::{
    check_retry_transcription, entry_not_found, parse_retention_period, retry_plan, RecordingRetentionPeriod,
    RetryMode,
};
use dictum_core::parakeet::{ParakeetEngine, ParakeetModelParams, QuantizationType};
use dictum_core::paste_tx::{is_trusted_receipt, rearm_decision, settle_plan, RearmDecision, MAX_REARMS};
use dictum_core::signal_handle::signal_binding;
use dictum_core::tray_i18n::{get_language_code, get_tray_translations, TrayStrings, TrayTranslation};

const AVX2_MESSAGE: &str = "AVX2 instruction set not supported on this CPU. Handy requires AVX2 support for optimal performance with Whisper models.";

#[test]
fn retention_periods_parse_by_name() {
    assert_eq!(parse_retention_period("never"), Ok(RecordingRetentionPeriod::Never));
    assert_eq!(parse_retention_period("preserve_limit"), Ok(RecordingRetentionPeriod::PreserveLimit));
    assert_eq!(parse_retention_period("days3"), Ok(RecordingRetentionPeriod::Days3));
    assert_eq!(parse_retention_period("weeks2"), Ok(RecordingRetentionPeriod::Weeks2));
    assert_eq!(parse_retention_period("months3"), Ok(RecordingRetentionPeriod::Months3));
    assert_eq!(parse_retention_period("forever").unwrap_err(), "Invalid retention period: forever");
}

#[test]
fn retry_splits_at_thirty_seconds() {
    assert_eq!(retry_plan(0).unwrap_err(), "Recording has no audio samples");
    assert_eq!(retry_plan(1), Ok(RetryMode::SingleShot));
    assert_eq!(retry_plan(480_000), Ok(RetryMode::SingleShot));
    assert_eq!(retry_plan(480_001), Ok(RetryMode::Chunked));
    assert_eq!(check_retry_transcription("").unwrap_err(), "Recording contains no speech");
    assert!(check_retry_transcription("hello").is_ok());
    assert_eq!(entry_not_found(-3), "History entry -3 not found");
    assert_eq!(entry_not_found(12), "History entry 12 not found");
}

#[test]
fn receipts_are_trusted_only_from_the_target() {
    assert!(is_trusted_receipt(Some(10), Some(10), Some(11)));
    assert!(is_trusted_receipt(Some(11), Some(10), Some(11)));
    assert!(!is_trusted_receipt(Some(12), Some(10), Some(11)));
    assert!(!is_trusted_receipt(None, None, None));
}

#[test]
fn rearming_is_bounded() {
    assert_eq!(rearm_decision(true, false, false, 0), RearmDecision::NotNeeded);
    assert_eq!(rearm_decision(false, true, false, 0), RearmDecision::NotNeeded);
    assert_eq!(rearm_decision(false, false, true, 0), RearmDecision::NotNeeded);
    assert_eq!(rearm_decision(false, false, false, MAX_REARMS - 1), RearmDecision::Rearm);
    assert_eq!(rearm_decision(false, false, false, MAX_REARMS), RearmDecision::BudgetExhausted);
    assert_eq!(rearm_decision(false, false, false, MAX_REARMS + 1), RearmDecision::Silent);
    let count = (0..100u32)
        .filter(|c| rearm_decision(false, false, false, *c) == RearmDecision::Rearm)
        .count();
    assert_eq!(count, MAX_REARMS as usize);
}

#[test]
fn settling_restores_only_our_clipboard() {
    let p = settle_plan(true, true, false, 5, 5);
    assert!(p.auto_submit && p.touch_clipboard);
    let p = settle_plan(true, false, false, 5, 6);
    assert!(!p.auto_submit && !p.touch_clipboard);
    let p = settle_plan(false, true, true, 5, 5);
    assert!(!p.auto_submit && !p.touch_clipboard);
}

#[test]
fn probes_report_gaps_past_their_slack() {
    assert!(!suspend_detected(5000, 5000));
    assert!(suspend_detected(5001, 1000));
    assert!(suspend_detected(1000, 5001));
    assert!(!heartbeat_late(35_000));
    assert!(heartbeat_late(35_001));
}

#[test]
fn signals_map_to_bindings() {
    assert_eq!(signal_binding(10, 10, 12), Some(("transcribe_with_post_process", "SIGUSR1")));
    assert_eq!(signal_binding(12, 10, 12), Some(("transcribe", "SIGUSR2")));
    assert_eq!(signal_binding(2, 10, 12), None);
}

#[test]
fn avx2_check_reports_the_missing_instruction_set() {
    assert!(check_avx2_support(Some(true)).is_ok());
    assert!(check_avx2_support(None).is_ok());
    assert_eq!(check_avx2_support(Some(false)).unwrap_err(), AVX2_MESSAGE);
}

#[test]
fn parakeet_params_and_engine_state() {
    assert!(!ParakeetModelParams::fp32().loads_quantized());
    assert!(ParakeetModelParams::int8().loads_quantized());
    assert!(ParakeetModelParams::quantized(QuantizationType::Int8).loads_quantized());
    assert!(!ParakeetModelParams::default().loads_quantized());
    let mut e = ParakeetEngine::new();
    assert!(e.check_loaded().is_err());
    e.model_loaded("/models/parakeet");
    assert!(e.check_loaded().is_ok());
    e.unload_model();
    assert!(e.check_loaded().is_err());
}

fn strings(tag: &str) -> TrayStrings {
    TrayStrings {
        settings: format!("{tag} settings"),
        check_updates: format!("{tag} updates"),
        quit: format!("{tag} quit"),
        cancel: format!("{tag} cancel"),
    }
}

#[test]
fn tray_strings_follow_the_locale_language() {
    assert_eq!(get_language_code("en-US"), "en");
    assert_eq!(get_language_code("pt_BR"), "pt");
    assert_eq!(get_language_code("de"), "de");
    let table = vec![
        TrayTranslation { code: "en".to_string(), strings: strings("en") },
        TrayTranslation { code: "de".to_string(), strings: strings("de") },
    ];
    assert_eq!(get_tray_translations(&table, Some("de-AT")).quit, "de quit");
    assert_eq!(get_tray_translations(&table, Some("fr_FR")).quit, "en quit");
    assert_eq!(get_tray_translations(&table, None).settings, "en settings");
}
