use dictum_core::ipc_protocol::{
    check_protocol_version, check_transcribe_request, classify_line, decode_error, error_response,
    line_too_long_error, plan_wav_decode, respond, route, success_response, wav_open_error, ErrorKind,
    IpcMethod, LineAction, RpcError, SampleEncoding, WavDecodePlan, WavSampleFormat, MAX_LINE_BYTES,
};
use dictum_core::engine_gate::{EngineGate, EngineJobKind};
use dictum_core::ipc_protocol::{busy_error, line_response, transcribe_file_refusal, LineParse};
use serde_json::Value;

#[test]
fn error_response_carries_stable_kind() {
    let err = RpcError::new(ErrorKind::Busy, "another transcription is in progress".to_string());
    let raw = error_response(&Value::from(3).to_string(), &err);
    let v: Value = serde_json::from_str(&raw).unwrap();
    assert_eq!(v["error"]["code"], 1000);
    assert_eq!(v["error"]["data"]["kind"], "busy");
    assert_eq!(v["id"], 3);
}

#[test]
fn success_response_round_trips() {
    let mut result = serde_json::Map::new();
    result.insert("text".to_string(), Value::from("hi"));
    let raw = success_response(&Value::from("abc").to_string(), &Value::Object(result).to_string());
    let v: Value = serde_json::from_str(&raw).unwrap();
    assert_eq!(v["result"]["text"], "hi");
    assert_eq!(v["id"], "abc");
    assert_eq!(v["jsonrpc"], "2.0");
}

#[test]
fn error_response_text_is_exact_and_escapes_the_message() {
    let err = RpcError::new(ErrorKind::ParseError, "bad \"line\"\n".to_string());
    let raw = error_response("null", &err);
    assert_eq!(
        raw,
        "{\"error\":{\"code\":-32700,\"data\":{\"kind\":\"parse-error\"},\"message\":\"bad \\\"line\\\"\\n\"},\"id\":null,\"jsonrpc\":\"2.0\"}"
    );
    let v: Value = serde_json::from_str(&raw).unwrap();
    assert_eq!(v["error"]["message"], "bad \"line\"\n");
    assert!(v["id"].is_null());
}

#[test]
fn every_kind_has_its_code_and_string() {
    let table = [
        (ErrorKind::ParseError, -32700, "parse-error"),
        (ErrorKind::InvalidRequest, -32600, "invalid-request"),
        (ErrorKind::MethodNotFound, -32601, "method-not-found"),
        (ErrorKind::InvalidParams, -32602, "invalid-params"),
        (ErrorKind::Busy, 1000, "busy"),
        (ErrorKind::SetupRequired, 1001, "setup-required"),
        (ErrorKind::ModelNotInstalled, 1002, "model-not-installed"),
        (ErrorKind::ModelLoadFailed, 1003, "model-load-failed"),
        (ErrorKind::UnsupportedAudio, 1004, "unsupported-audio"),
        (ErrorKind::FileNotFound, 1005, "file-not-found"),
        (ErrorKind::Internal, 1006, "internal-error"),
        (ErrorKind::ProtocolMismatch, 1007, "protocol-mismatch"),
    ];
    for (kind, code, text) in table {
        assert_eq!(kind.code(), code);
        assert_eq!(kind.kind_str(), text);
    }
}

#[test]
fn notifications_get_no_response() {
    assert!(respond(None, Ok("{}".to_string())).is_none());
    let answer = respond(Some("7"), Ok("{\"a\":1}".to_string())).unwrap();
    assert_eq!(answer, "{\"id\":7,\"jsonrpc\":\"2.0\",\"result\":{\"a\":1}}");
}

#[test]
fn routes_known_methods_and_rejects_others() {
    assert_eq!(route("initialize").unwrap(), IpcMethod::Initialize);
    assert_eq!(route("status").unwrap(), IpcMethod::Status);
    assert_eq!(route("models.list").unwrap(), IpcMethod::ModelsList);
    assert_eq!(route("transcribe.file").unwrap(), IpcMethod::TranscribeFile);
    let err = route("status2").unwrap_err();
    assert_eq!(err.kind, ErrorKind::MethodNotFound);
    assert_eq!(err.message, "unknown method 'status2'");
}

#[test]
fn protocol_version_mismatch_only_when_requested() {
    assert!(check_protocol_version(None).is_ok());
    assert!(check_protocol_version(Some(1)).is_ok());
    let err = check_protocol_version(Some(2)).unwrap_err();
    assert_eq!(err.kind, ErrorKind::ProtocolMismatch);
    assert_eq!(err.message, "client requested protocol version 2, server speaks 1");
}

#[test]
fn transcribe_request_checks_in_order() {
    let e = check_transcribe_request(false, "", false).unwrap_err();
    assert_eq!(e.kind, ErrorKind::InvalidParams);
    assert_eq!(e.message, "path must be absolute");
    let e = check_transcribe_request(true, "", true).unwrap_err();
    assert_eq!(e.kind, ErrorKind::SetupRequired);
    assert_eq!(e.message, "no model selected \u{2014} pick one in the Handy app");
    let e = check_transcribe_request(true, "small", false).unwrap_err();
    assert_eq!(e.kind, ErrorKind::ModelNotInstalled);
    assert_eq!(e.message, "model 'small' is not downloaded");
    assert!(check_transcribe_request(true, "small", true).is_ok());
}

#[test]
fn rejects_unsupported_bit_depth() {
    let err = plan_wav_decode(1, 16_000, 100, WavSampleFormat::Int, 8).unwrap_err();
    assert_eq!(err.kind, ErrorKind::UnsupportedAudio);
    assert_eq!(err.message, "unsupported sample format: 8-bit Int");
}

#[test]
fn wav_header_checks() {
    let e = plan_wav_decode(0, 16_000, 100, WavSampleFormat::Int, 16).unwrap_err();
    assert_eq!(e.message, "unsupported channel count: 0");
    let e = plan_wav_decode(9, 16_000, 100, WavSampleFormat::Int, 16).unwrap_err();
    assert_eq!(e.message, "unsupported channel count: 9");
    let e = plan_wav_decode(1, 7_999, 100, WavSampleFormat::Int, 16).unwrap_err();
    assert_eq!(e.message, "unsupported sample rate: 7999 Hz");
    let e = plan_wav_decode(1, 192_001, 100, WavSampleFormat::Int, 16).unwrap_err();
    assert_eq!(e.message, "unsupported sample rate: 192001 Hz");
    let e = plan_wav_decode(1, 8_000, 8_000 * 7_201, WavSampleFormat::Float, 32).unwrap_err();
    assert_eq!(e.message, "audio longer than 7200s");
    // Exactly two hours is accepted; one frame more is not.
    assert!(plan_wav_decode(1, 16_000, 115_200_000, WavSampleFormat::Int, 16).is_ok());
    let e = plan_wav_decode(1, 16_000, 115_200_001, WavSampleFormat::Int, 16).unwrap_err();
    assert_eq!(e.message, "audio longer than 7200s");
    assert_eq!(
        plan_wav_decode(1, 16_000, 1_600, WavSampleFormat::Int, 16).unwrap(),
        WavDecodePlan { encoding: SampleEncoding::I16, downmix: false, resample: false }
    );
    assert_eq!(
        plan_wav_decode(2, 48_000, 24_000, WavSampleFormat::Float, 32).unwrap(),
        WavDecodePlan { encoding: SampleEncoding::F32, downmix: true, resample: true }
    );
    assert_eq!(
        plan_wav_decode(8, 192_000, 10, WavSampleFormat::Int, 24).unwrap().encoding,
        SampleEncoding::I24
    );
    let e = plan_wav_decode(1, 16_000, 10, WavSampleFormat::Float, 16).unwrap_err();
    assert_eq!(e.message, "unsupported sample format: 16-bit Float");
}

#[test]
fn wav_open_errors() {
    let e = wav_open_error("/tmp/x.wav", true, "ignored");
    assert_eq!(e.kind, ErrorKind::FileNotFound);
    assert_eq!(e.message, "/tmp/x.wav: not found");
    let e = wav_open_error("/tmp/x.wav", false, "bad header");
    assert_eq!(e.kind, ErrorKind::UnsupportedAudio);
    assert_eq!(e.message, "/tmp/x.wav: bad header");
    let e = decode_error("eof");
    assert_eq!(e.message, "decode failed: eof");
}

#[test]
fn line_framing() {
    assert_eq!(classify_line(0, false, true), LineAction::Close);
    assert_eq!(classify_line(MAX_LINE_BYTES, false, false), LineAction::TooLong);
    assert_eq!(classify_line(MAX_LINE_BYTES, true, false), LineAction::Handle);
    assert_eq!(classify_line(2, true, true), LineAction::Skip);
    assert_eq!(classify_line(20, true, false), LineAction::Handle);
    let e = line_too_long_error();
    assert_eq!(e.kind, ErrorKind::InvalidRequest);
    assert_eq!(e.message, "request line too long");
}

#[test]
fn error_messages_are_escaped_as_json_strings() {
    let err = RpcError::new(ErrorKind::InvalidParams, "bad \"path\"\\\n\u{1}é".to_string());
    assert_eq!(
        error_response("5", &err),
        "{\"error\":{\"code\":-32602,\"data\":{\"kind\":\"invalid-params\"},\"message\":\"bad \\\"path\\\"\\\\\\n\\u0001é\"},\"id\":5,\"jsonrpc\":\"2.0\"}"
    );
    let parsed: Value = serde_json::from_str(&error_response("5", &err)).unwrap();
    assert_eq!(parsed["error"]["message"], "bad \"path\"\\\n\u{1}é");
}

#[test]
fn busy_answer_names_the_engine_holder() {
    let mut gate = EngineGate::new(9);
    let _dictation = gate.reserve_dictation().unwrap();
    let busy = gate.try_reserve(EngineJobKind::Ipc).unwrap_err();
    let err = busy_error(&busy);
    assert_eq!(err.kind, ErrorKind::Busy);
    assert_eq!(err.message, "the transcription engine is busy with dictation");
}

#[test]
fn request_lines_are_answered_by_parse_outcome() {
    let r = line_response(LineParse::NotJson { detail: "expected value".to_string() }).unwrap();
    let v: Value = serde_json::from_str(&r).unwrap();
    assert_eq!(v["error"]["code"], -32700);
    assert_eq!(v["id"], Value::Null);
    assert_eq!(v["error"]["message"], "invalid JSON: expected value");
    let r = line_response(LineParse::NotRequest { id: Some("7".to_string()), detail: "missing field `method`".to_string() })
        .unwrap();
    let v: Value = serde_json::from_str(&r).unwrap();
    assert_eq!(v["error"]["code"], -32600);
    assert_eq!(v["id"], 7);
    let r = line_response(LineParse::NotRequest { id: None, detail: "x".to_string() }).unwrap();
    assert!(r.contains("\"id\":null"));
    assert_eq!(line_response(LineParse::Request { id: None, outcome: Ok("{}".to_string()) }), None);
    assert_eq!(
        line_response(LineParse::Request { id: Some("1".to_string()), outcome: Ok("{}".to_string()) }).unwrap(),
        "{\"id\":1,\"jsonrpc\":\"2.0\",\"result\":{}}"
    );
    assert!(!r.contains('\n'));
}

#[test]
fn transcribe_file_refusals_follow_the_step_order() {
    let invalid = || RpcError::new(ErrorKind::InvalidParams, "path must be absolute".to_string());
    let bad_audio = || RpcError::new(ErrorKind::UnsupportedAudio, "decode failed: eof".to_string());
    let mut gate = EngineGate::new(3);
    let _held = gate.try_reserve(EngineJobKind::Retry).unwrap();
    let busy = gate.try_reserve(EngineJobKind::Ipc).unwrap_err();
    let e = transcribe_file_refusal(Err(invalid()), Err(bad_audio()), None, Some("x".to_string()), None).unwrap();
    assert_eq!(e.kind, ErrorKind::InvalidParams);
    let e = transcribe_file_refusal(Ok(()), Err(bad_audio()), None, Some("x".to_string()), None).unwrap();
    assert_eq!(e.kind, ErrorKind::UnsupportedAudio);
    let e = transcribe_file_refusal(Ok(()), Ok(()), Some(busy), Some("x".to_string()), None).unwrap();
    assert_eq!(e.kind, ErrorKind::Busy);
    assert_eq!(e.message, "the transcription engine is busy with a history retranscription");
    let e = transcribe_file_refusal(Ok(()), Ok(()), None, Some("no file".to_string()), Some("y".to_string())).unwrap();
    assert_eq!(e.kind, ErrorKind::ModelLoadFailed);
    assert_eq!(e.message, "no file");
    let e = transcribe_file_refusal(Ok(()), Ok(()), None, None, Some("boom".to_string())).unwrap();
    assert_eq!(e.kind, ErrorKind::Internal);
    assert!(transcribe_file_refusal(Ok(()), Ok(()), None, None, None).is_none());
}
