//! The local IPC API's JSON-RPC 2.0 protocol: the stable error taxonomy,
//! method routing, request checks, line framing, and the exact text of
//! success and error responses.
//!
//! Framing is newline-delimited JSON, one message per line. Request ids and
//! results are carried as the JSON text the transport parsed or built; error
//! messages are JSON-quoted with serde_json.

use vstd::prelude::*;
use vstd::string::*;
use crate::engine_gate::{job_kind_text, EngineBusy};
use crate::text::{decimal_digits, decimal_i64, decimal_text, decimal_u64, digit_char, str_eq};

verus! {

/// Protocol version spoken by this server.
pub const PROTOCOL_VERSION: u64 = 1;

/// Hard cap on a single request line, in bytes.
pub const MAX_LINE_BYTES: u64 = 262144;

/// Engine sample rate the transcription engine expects.
pub const TARGET_SAMPLE_RATE: u32 = 16000;

/// Longest accepted input, in seconds.
pub const MAX_AUDIO_SECS: u64 = 7200;

/// Stable, machine-readable failure kinds. The numeric code and the kind
/// string are part of the public contract; messages are not.
#[derive(Debug, Clone, Copy, PartialEq, Eq, Structural)]
pub enum ErrorKind {
    ParseError,
    InvalidRequest,
    MethodNotFound,
    InvalidParams,
    Busy,
    SetupRequired,
    ModelNotInstalled,
    ModelLoadFailed,
    UnsupportedAudio,
    FileNotFound,
    Internal,
    ProtocolMismatch,
}

/// The numeric JSON-RPC code of each kind.
pub open spec fn error_code(kind: ErrorKind) -> int {
    match kind {
        ErrorKind::ParseError => -32700,
        ErrorKind::InvalidRequest => -32600,
        ErrorKind::MethodNotFound => -32601,
        ErrorKind::InvalidParams => -32602,
        ErrorKind::Busy => 1000,
        ErrorKind::SetupRequired => 1001,
        ErrorKind::ModelNotInstalled => 1002,
        ErrorKind::ModelLoadFailed => 1003,
        ErrorKind::UnsupportedAudio => 1004,
        ErrorKind::FileNotFound => 1005,
        ErrorKind::Internal => 1006,
        ErrorKind::ProtocolMismatch => 1007,
    }
}

/// The kebab-case kind string of each kind.
pub open spec fn kind_text(kind: ErrorKind) -> Seq<char> {
    match kind {
        ErrorKind::ParseError => "parse-error"@,
        ErrorKind::InvalidRequest => "invalid-request"@,
        ErrorKind::MethodNotFound => "method-not-found"@,
        ErrorKind::InvalidParams => "invalid-params"@,
        ErrorKind::Busy => "busy"@,
        ErrorKind::SetupRequired => "setup-required"@,
        ErrorKind::ModelNotInstalled => "model-not-installed"@,
        ErrorKind::ModelLoadFailed => "model-load-failed"@,
        ErrorKind::UnsupportedAudio => "unsupported-audio"@,
        ErrorKind::FileNotFound => "file-not-found"@,
        ErrorKind::Internal => "internal-error"@,
        ErrorKind::ProtocolMismatch => "protocol-mismatch"@,
    }
}

impl ErrorKind {
    /// The numeric JSON-RPC error code.
    pub fn code(self) -> (res: i64)
        ensures
            res == error_code(self),
    {
        match self {
            ErrorKind::ParseError => -32700,
            ErrorKind::InvalidRequest => -32600,
            ErrorKind::MethodNotFound => -32601,
            ErrorKind::InvalidParams => -32602,
            ErrorKind::Busy => 1000,
            ErrorKind::SetupRequired => 1001,
            ErrorKind::ModelNotInstalled => 1002,
            ErrorKind::ModelLoadFailed => 1003,
            ErrorKind::UnsupportedAudio => 1004,
            ErrorKind::FileNotFound => 1005,
            ErrorKind::Internal => 1006,
            ErrorKind::ProtocolMismatch => 1007,
        }
    }

    /// The stable kind string carried in `error.data.kind`.
    pub fn kind_str(self) -> (res: &'static str)
        ensures
            res@ == kind_text(self),
    {
        match self {
            ErrorKind::ParseError => "parse-error",
            ErrorKind::InvalidRequest => "invalid-request",
            ErrorKind::MethodNotFound => "method-not-found",
            ErrorKind::InvalidParams => "invalid-params",
            ErrorKind::Busy => "busy",
            ErrorKind::SetupRequired => "setup-required",
            ErrorKind::ModelNotInstalled => "model-not-installed",
            ErrorKind::ModelLoadFailed => "model-load-failed",
            ErrorKind::UnsupportedAudio => "unsupported-audio",
            ErrorKind::FileNotFound => "file-not-found",
            ErrorKind::Internal => "internal-error",
            ErrorKind::ProtocolMismatch => "protocol-mismatch",
        }
    }
}

/// A service-level failure carried back to the client as a JSON-RPC error
/// object with `data.kind` set to the stable kind string.
#[derive(Debug)]
pub struct RpcError {
    pub kind: ErrorKind,
    pub message: String,
}

impl RpcError {
    /// A failure of `kind` with a human-readable `message`.
    pub fn new(kind: ErrorKind, message: String) -> (res: RpcError)
        ensures
            res.kind == kind,
            res.message@ == message@,
    {
        RpcError { kind, message }
    }
}

/// A lowercase hexadecimal digit.
pub open spec fn hex_digit(d: nat) -> char {
    if d < 10 {
        digit_char(d)
    } else if d == 10 {
        'a'
    } else if d == 11 {
        'b'
    } else if d == 12 {
        'c'
    } else if d == 13 {
        'd'
    } else if d == 14 {
        'e'
    } else {
        'f'
    }
}

/// How serde_json writes one character inside a JSON string: the quote and
/// the backslash escaped with a backslash, backspace, tab, line feed, form
/// feed and carriage return as `\b \t \n \f \r`, the other control
/// characters below U+0020 as `\u00XX` (lowercase hex), everything else as
/// it is.
pub open spec fn json_escape_char(c: char) -> Seq<char> {
    let v = c as u32;
    if c == '"' {
        seq!['\\', '"']
    } else if c == '\\' {
        seq!['\\', '\\']
    } else if v == 0x08 {
        seq!['\\', 'b']
    } else if v == 0x09 {
        seq!['\\', 't']
    } else if v == 0x0A {
        seq!['\\', 'n']
    } else if v == 0x0C {
        seq!['\\', 'f']
    } else if v == 0x0D {
        seq!['\\', 'r']
    } else if v < 0x20 {
        seq!['\\', 'u', '0', '0', hex_digit((v / 16) as nat), hex_digit((v % 16) as nat)]
    } else {
        seq![c]
    }
}

/// The escaped contents of a JSON string holding `s`.
pub open spec fn json_escape(s: Seq<char>) -> Seq<char>
    decreases s.len(),
{
    if s.len() == 0 {
        Seq::empty()
    } else {
        json_escape(s.drop_last()) + json_escape_char(s.last())
    }
}

/// The JSON string literal serde_json writes for `s`: the escaped contents
/// between double quotes.
pub open spec fn json_string_literal(s: Seq<char>) -> Seq<char> {
    seq!['"'] + json_escape(s) + seq!['"']
}

/// serde_json's `to_string` on a string slice: the JSON string literal for
/// `s`, escaped as its serializer escapes strings. Serializing a `str`
/// cannot fail.
#[verifier::external_body]
fn json_quote(s: &str) -> (res: String)
    ensures
        res@ == json_string_literal(s@),
{
    match serde_json::to_string(s) {
        Ok(text) => text,
        Err(_) => String::new(),
    }
}

/// Exact text of an error response for the request whose id is the JSON
/// text `id`: keys in serde_json's sorted order.
pub open spec fn error_response_text(id: Seq<char>, kind: ErrorKind, message: Seq<char>) -> Seq<char> {
    "{\"error\":{\"code\":"@ + decimal_text(error_code(kind)) + ",\"data\":{\"kind\":\""@
        + kind_text(kind) + "\"},\"message\":"@ + json_string_literal(message) + "},\"id\":"@ + id
        + ",\"jsonrpc\":\"2.0\"}"@
}

/// Exact text of a success response carrying the JSON text `result`.
pub open spec fn success_response_text(id: Seq<char>, result: Seq<char>) -> Seq<char> {
    "{\"id\":"@ + id + ",\"jsonrpc\":\"2.0\",\"result\":"@ + result + "}"@
}

/// Serialize a success response for the request id `id` (JSON text).
pub fn success_response(id: &str, result: &str) -> (res: String)
    ensures
        res@ == success_response_text(id@, result@),
{
    let mut s = String::from_str("{\"id\":");
    s.append(id);
    s.append(",\"jsonrpc\":\"2.0\",\"result\":");
    s.append(result);
    s.append("}");
    s
}

/// Serialize an error response for the request id `id` (JSON text; `null`
/// for requests that could not be parsed).
pub fn error_response(id: &str, error: &RpcError) -> (res: String)
    ensures
        res@ == error_response_text(id@, error.kind, error.message@),
{
    let code = decimal_i64(error.kind.code());
    let message = json_quote(error.message.as_str());
    let mut s = String::from_str("{\"error\":{\"code\":");
    s.append(code.as_str());
    s.append(",\"data\":{\"kind\":\"");
    s.append(error.kind.kind_str());
    s.append("\"},\"message\":");
    s.append(message.as_str());
    s.append("},\"id\":");
    s.append(id);
    s.append(",\"jsonrpc\":\"2.0\"}");
    s
}

/// The answer to a request line: none for a notification (a request without
/// an id), else the success or error response for its id.
pub fn respond(id: Option<&str>, result: Result<String, RpcError>) -> (res: Option<String>)
    ensures
        match id {
            None => res is None,
            Some(i) => res matches Some(text) && text@ == match result {
                Ok(value) => success_response_text(i@, value@),
                Err(e) => error_response_text(i@, e.kind, e.message@),
            },
        },
{
    match id {
        None => None,
        Some(i) => match result {
            Ok(value) => Some(success_response(i, value.as_str())),
            Err(e) => Some(error_response(i, &e)),
        },
    }
}

/// What parsing one request line gave, with the method's outcome for a
/// request. Ids and results are JSON text.
#[derive(Debug)]
pub enum LineParse {
    /// The line is not JSON; the parser's complaint.
    NotJson { detail: String },
    /// The line is JSON but not a JSON-RPC request: the id it carried, if
    /// any, and the complaint.
    NotRequest { id: Option<String>, detail: String },
    /// A request: its id (absent for a notification) and what the method
    /// answered.
    Request { id: Option<String>, outcome: Result<String, RpcError> },
}

/// The response to one request line: a `parse-error` for a line that is not
/// JSON (answered with a `null` id), an `invalid-request` for JSON that is
/// not a request (answered with the id it carried, else `null`), and for a
/// request the method's answer, or nothing for a notification.
pub fn line_response(parse: LineParse) -> (res: Option<String>)
    ensures
        match parse {
            LineParse::NotJson { detail } => res matches Some(t) && t@ == error_response_text(
                "null"@,
                ErrorKind::ParseError,
                "invalid JSON: "@ + detail@,
            ),
            LineParse::NotRequest { id, detail } => res matches Some(t) && t@ == error_response_text(
                match id {
                    Some(i) => i@,
                    None => "null"@,
                },
                ErrorKind::InvalidRequest,
                "invalid request: "@ + detail@,
            ),
            LineParse::Request { id, outcome } => match id {
                None => res is None,
                Some(i) => res matches Some(t) && t@ == match outcome {
                    Ok(v) => success_response_text(i@, v@),
                    Err(e) => error_response_text(i@, e.kind, e.message@),
                },
            },
        },
{
    match parse {
        LineParse::NotJson { detail } => Some(error_response("null", &parse_error(detail.as_str()))),
        LineParse::NotRequest { id, detail } => {
            let err = invalid_request_error(detail.as_str());
            match id {
                Some(i) => Some(error_response(i.as_str(), &err)),
                None => Some(error_response("null", &err)),
            }
        },
        LineParse::Request { id, outcome } => match id {
            Some(i) => respond(Some(i.as_str()), outcome),
            None => None,
        },
    }
}

/// Whether a text holds no line feed, so it travels as one line.
pub open spec fn single_line(s: Seq<char>) -> bool {
    forall|i: int| 0 <= i < s.len() ==> s[i] != '\n'
}

proof fn lemma_single_line_concat(a: Seq<char>, b: Seq<char>)
    requires
        single_line(a),
        single_line(b),
    ensures
        single_line(a + b),
{
    assert forall|i: int| 0 <= i < (a + b).len() implies (a + b)[i] != '\n' by {
        if i < a.len() {
            assert((a + b)[i] == a[i]);
        } else {
            assert((a + b)[i] == b[i - a.len()]);
        }
    }
}

proof fn lemma_digits_single_line(n: nat)
    ensures
        single_line(decimal_digits(n)),
    decreases n,
{
    if n >= 10 {
        lemma_digits_single_line(n / 10);
        let d = decimal_digits(n / 10);
        let full = d.push(digit_char(n % 10));
        assert forall|i: int| 0 <= i < full.len() implies #[trigger] full[i] != '\n' by {
            if i < d.len() {
                assert(full[i] == d[i]);
            }
        }
    }
}

proof fn lemma_escape_single_line(s: Seq<char>)
    ensures
        single_line(json_escape(s)),
    decreases s.len(),
{
    if s.len() > 0 {
        lemma_escape_single_line(s.drop_last());
        let c = s.last();
        let v = c as u32;
        let e = json_escape_char(c);
        assert(single_line(e)) by {
            if v < 0x20 && !(v == 0x08 || v == 0x09 || v == 0x0A || v == 0x0C || v == 0x0D) {
                let hi = hex_digit((v / 16) as nat);
                let lo = hex_digit((v % 16) as nat);
                assert(hi != '\n');
                assert(lo != '\n');
            }
            if v >= 0x20 && c != '"' && c != '\\' {
                assert(c != '\n');
            }
        }
        lemma_single_line_concat(json_escape(s.drop_last()), e);
    }
}

proof fn lemma_kind_text_single_line(kind: ErrorKind)
    ensures
        single_line(kind_text(kind)),
{
    reveal_strlit("parse-error");
    reveal_strlit("invalid-request");
    reveal_strlit("method-not-found");
    reveal_strlit("invalid-params");
    reveal_strlit("busy");
    reveal_strlit("setup-required");
    reveal_strlit("model-not-installed");
    reveal_strlit("model-load-failed");
    reveal_strlit("unsupported-audio");
    reveal_strlit("file-not-found");
    reveal_strlit("internal-error");
    reveal_strlit("protocol-mismatch");
}

/// Law: every response is one line of JSON. A success or error response
/// holds no line feed whenever its id and result texts hold none (as the
/// compact JSON the transport writes never does); an error's message may
/// hold any characters, since it is escaped.
pub proof fn law_responses_are_single_lines(id: Seq<char>, result: Seq<char>, kind: ErrorKind, message: Seq<char>)
    requires
        single_line(id),
        single_line(result),
    ensures
        single_line(success_response_text(id, result)),
        single_line(error_response_text(id, kind, message)),
{
    reveal_strlit("{\"id\":");
    reveal_strlit(",\"jsonrpc\":\"2.0\",\"result\":");
    reveal_strlit("}");
    reveal_strlit("{\"error\":{\"code\":");
    reveal_strlit(",\"data\":{\"kind\":\"");
    reveal_strlit("\"},\"message\":");
    reveal_strlit("},\"id\":");
    reveal_strlit(",\"jsonrpc\":\"2.0\"}");
    let p1 = "{\"id\":"@;
    let p2 = ",\"jsonrpc\":\"2.0\",\"result\":"@;
    let p3 = "}"@;
    assert(single_line(p1));
    assert(single_line(p2));
    assert(single_line(p3));
    lemma_single_line_concat(p1, id);
    lemma_single_line_concat(p1 + id, p2);
    lemma_single_line_concat(p1 + id + p2, result);
    lemma_single_line_concat(p1 + id + p2 + result, p3);

    let q1 = "{\"error\":{\"code\":"@;
    let q2 = ",\"data\":{\"kind\":\""@;
    let q3 = "\"},\"message\":"@;
    let q4 = "},\"id\":"@;
    let q5 = ",\"jsonrpc\":\"2.0\"}"@;
    assert(single_line(q1));
    assert(single_line(q2));
    assert(single_line(q3));
    assert(single_line(q4));
    assert(single_line(q5));
    let code = decimal_text(error_code(kind));
    assert(single_line(code)) by {
        if error_code(kind) < 0 {
            lemma_digits_single_line((-error_code(kind)) as nat);
            lemma_single_line_concat(seq!['-'], decimal_digits((-error_code(kind)) as nat));
        } else {
            lemma_digits_single_line(error_code(kind) as nat);
        }
    }
    lemma_kind_text_single_line(kind);
    lemma_escape_single_line(message);
    let lit = json_string_literal(message);
    lemma_single_line_concat(seq!['"'], json_escape(message));
    lemma_single_line_concat(seq!['"'] + json_escape(message), seq!['"']);
    lemma_single_line_concat(q1, code);
    lemma_single_line_concat(q1 + code, q2);
    lemma_single_line_concat(q1 + code + q2, kind_text(kind));
    lemma_single_line_concat(q1 + code + q2 + kind_text(kind), q3);
    lemma_single_line_concat(q1 + code + q2 + kind_text(kind) + q3, lit);
    lemma_single_line_concat(q1 + code + q2 + kind_text(kind) + q3 + lit, q4);
    lemma_single_line_concat(q1 + code + q2 + kind_text(kind) + q3 + lit + q4, id);
    lemma_single_line_concat(q1 + code + q2 + kind_text(kind) + q3 + lit + q4 + id, q5);
}

/// The methods of the IPC API.
#[derive(Debug, Clone, Copy, PartialEq, Eq, Structural)]
pub enum IpcMethod {
    Initialize,
    Status,
    ModelsList,
    TranscribeFile,
}

/// The method a name routes to, if any.
pub open spec fn method_for(name: Seq<char>) -> Option<IpcMethod> {
    if name == "initialize"@ {
        Some(IpcMethod::Initialize)
    } else if name == "status"@ {
        Some(IpcMethod::Status)
    } else if name == "models.list"@ {
        Some(IpcMethod::ModelsList)
    } else if name == "transcribe.file"@ {
        Some(IpcMethod::TranscribeFile)
    } else {
        None
    }
}

/// Route a request's method name; unknown names fail with
/// `method-not-found` naming the method.
pub fn route(method: &str) -> (res: Result<IpcMethod, RpcError>)
    ensures
        match method_for(method@) {
            Some(m) => res == Ok::<IpcMethod, RpcError>(m),
            None => res matches Err(e) && e.kind == ErrorKind::MethodNotFound
                && e.message@ == "unknown method '"@ + method@ + "'"@,
        },
{
    if str_eq(method, "initialize") {
        Ok(IpcMethod::Initialize)
    } else if str_eq(method, "status") {
        Ok(IpcMethod::Status)
    } else if str_eq(method, "models.list") {
        Ok(IpcMethod::ModelsList)
    } else if str_eq(method, "transcribe.file") {
        Ok(IpcMethod::TranscribeFile)
    } else {
        let mut m = String::from_str("unknown method '");
        m.append(method);
        m.append("'");
        Err(RpcError::new(ErrorKind::MethodNotFound, m))
    }
}

/// The `initialize` handshake's version check: fails with
/// `protocol-mismatch` only when the client explicitly requests a version
/// this server does not speak.
pub fn check_protocol_version(requested: Option<u64>) -> (res: Result<(), RpcError>)
    ensures
        match requested {
            Some(v) if v != PROTOCOL_VERSION => res matches Err(e) && e.kind
                == ErrorKind::ProtocolMismatch && e.message@ == "client requested protocol version "@
                + decimal_digits(v as nat) + ", server speaks "@ + decimal_digits(
                PROTOCOL_VERSION as nat,
            ),
            _ => res is Ok,
        },
{
    match requested {
        Some(v) => {
            if v != PROTOCOL_VERSION {
                let mut m = String::from_str("client requested protocol version ");
                let got = decimal_u64(v);
                m.append(got.as_str());
                m.append(", server speaks ");
                let ours = decimal_u64(PROTOCOL_VERSION);
                m.append(ours.as_str());
                return Err(RpcError::new(ErrorKind::ProtocolMismatch, m));
            }
            Ok(())
        },
        None => Ok(()),
    }
}

/// The cheap checks of `transcribe.file`, in the order the method makes
/// them before any decode work: an absolute path, a selected model, and an
/// installed model.
pub fn check_transcribe_request(path_is_absolute: bool, model_id: &str, model_installed: bool) -> (res: Result<(), RpcError>)
    ensures
        !path_is_absolute ==> (res matches Err(e) && e.kind == ErrorKind::InvalidParams
            && e.message@ == "path must be absolute"@),
        path_is_absolute && model_id@.len() == 0 ==> (res matches Err(e) && e.kind
            == ErrorKind::SetupRequired && e.message@
            == "no model selected \u{2014} pick one in the Handy app"@),
        path_is_absolute && model_id@.len() > 0 && !model_installed ==> (res matches Err(e)
            && e.kind == ErrorKind::ModelNotInstalled && e.message@ == "model '"@ + model_id@
            + "' is not downloaded"@),
        path_is_absolute && model_id@.len() > 0 && model_installed ==> res is Ok,
{
    if !path_is_absolute {
        return Err(RpcError::new(ErrorKind::InvalidParams, String::from_str("path must be absolute")));
    }
    if model_id.is_empty() {
        return Err(
            RpcError::new(
                ErrorKind::SetupRequired,
                String::from_str("no model selected \u{2014} pick one in the Handy app"),
            ),
        );
    }
    if !model_installed {
        let mut m = String::from_str("model '");
        m.append(model_id);
        m.append("' is not downloaded");
        return Err(RpcError::new(ErrorKind::ModelNotInstalled, m));
    }
    Ok(())
}

/// The `busy` error for a request refused by the engine lock, naming the
/// job that holds the engine.
pub fn busy_error(busy: &EngineBusy) -> (res: RpcError)
    ensures
        res.kind == ErrorKind::Busy,
        res.message@ == "the transcription engine is busy with "@ + job_kind_text(busy.holder),
{
    RpcError::new(ErrorKind::Busy, busy.message())
}

/// The refusal a step of `transcribe.file` yields, as `(kind, message)`.
pub open spec fn step_refusal(e: RpcError) -> Option<(ErrorKind, Seq<char>)> {
    Some((e.kind, e.message@))
}

/// The first refusal of `transcribe.file`, in the order its steps run: the
/// request checks, opening and decoding the audio, reserving the engine
/// (`busy`), loading the model (`model-load-failed`), and the transcription
/// itself (`internal-error`). `None` when every step succeeded. Steps after
/// a failed one do not run, so their outcomes are not looked at.
pub open spec fn transcribe_file_refusal_spec(
    checks: Result<(), RpcError>,
    audio: Result<(), RpcError>,
    busy: Option<EngineBusy>,
    load_error: Option<Seq<char>>,
    engine_error: Option<Seq<char>>,
) -> Option<(ErrorKind, Seq<char>)> {
    match checks {
        Err(e) => step_refusal(e),
        Ok(_) => match audio {
            Err(e) => step_refusal(e),
            Ok(_) => match busy {
                Some(b) => Some(
                    (ErrorKind::Busy, "the transcription engine is busy with "@ + job_kind_text(b.holder)),
                ),
                None => match load_error {
                    Some(m) => Some((ErrorKind::ModelLoadFailed, m)),
                    None => match engine_error {
                        Some(m) => Some((ErrorKind::Internal, m)),
                        None => None,
                    },
                },
            },
        },
    }
}

/// The refusal `transcribe.file` answers with, from the outcome of each of
/// its steps.
pub fn transcribe_file_refusal(
    checks: Result<(), RpcError>,
    audio: Result<(), RpcError>,
    busy: Option<EngineBusy>,
    load_error: Option<String>,
    engine_error: Option<String>,
) -> (res: Option<RpcError>)
    ensures
        match transcribe_file_refusal_spec(
            checks,
            audio,
            busy,
            match load_error { Some(m) => Some(m@), None => None },
            match engine_error { Some(m) => Some(m@), None => None },
        ) {
            Some((k, m)) => res matches Some(e) && e.kind == k && e.message@ == m,
            None => res is None,
        },
{
    if let Err(e) = checks {
        return Some(e);
    }
    if let Err(e) = audio {
        return Some(e);
    }
    if let Some(b) = busy {
        return Some(busy_error(&b));
    }
    if let Some(m) = load_error {
        return Some(RpcError::new(ErrorKind::ModelLoadFailed, m));
    }
    match engine_error {
        Some(m) => Some(RpcError::new(ErrorKind::Internal, m)),
        None => None,
    }
}

/// Sample storage of a PCM WAV file.
#[derive(Debug, Clone, Copy, PartialEq, Eq, Structural)]
pub enum WavSampleFormat {
    Float,
    Int,
}

/// How the samples of an accepted WAV file are read.
#[derive(Debug, Clone, Copy, PartialEq, Eq, Structural)]
pub enum SampleEncoding {
    /// 32-bit float samples, used as they are.
    F32,
    /// 16-bit integers, scaled by 1/32768.
    I16,
    /// 24-bit integers, scaled by 1/8388608.
    I24,
    /// 32-bit integers, scaled by 1/2147483648.
    I32,
}

/// What decoding an accepted WAV file involves.
#[derive(Debug, Clone, Copy, PartialEq, Eq, Structural)]
pub struct WavDecodePlan {
    pub encoding: SampleEncoding,
    /// Average the channels of each frame into one sample.
    pub downmix: bool,
    /// Resample from the file's rate to [`TARGET_SAMPLE_RATE`].
    pub resample: bool,
}

/// The encoding for a sample format and bit depth, if supported.
pub open spec fn encoding_for(format: WavSampleFormat, bits: u16) -> Option<SampleEncoding> {
    match format {
        WavSampleFormat::Float => if bits == 32 { Some(SampleEncoding::F32) } else { None },
        WavSampleFormat::Int => if bits == 16 {
            Some(SampleEncoding::I16)
        } else if bits == 24 {
            Some(SampleEncoding::I24)
        } else if bits == 32 {
            Some(SampleEncoding::I32)
        } else {
            None
        },
    }
}

/// The name of a sample format as its `Debug` form prints it.
pub open spec fn format_text(format: WavSampleFormat) -> Seq<char> {
    match format {
        WavSampleFormat::Float => "Float"@,
        WavSampleFormat::Int => "Int"@,
    }
}

/// The audio contract of `transcribe.file`: PCM WAV with 1 to 8 channels,
/// 8 kHz to 192 kHz, at most two hours, and 16-, 24- or 32-bit integer or
/// 32-bit float samples.
pub open spec fn in_audio_contract(channels: u16, sample_rate: u32, frames: u32, format: WavSampleFormat, bits: u16) -> bool {
    &&& 1 <= channels <= 8
    &&& 8000 <= sample_rate <= 192000
    &&& frames <= 7200 * sample_rate
    &&& (format == WavSampleFormat::Float && bits == 32 || format == WavSampleFormat::Int && (bits == 16 || bits
        == 24 || bits == 32))
}

/// Law: the sample formats the audio contract accepts are exactly 32-bit
/// float and 16-, 24- and 32-bit integer, each read with its own width:
/// float as it is, integers as 16-, 24- and 32-bit values (scaled by
/// 1/2^15, 1/2^23 and 1/2^31).
pub proof fn law_audio_contract(format: WavSampleFormat, bits: u16)
    ensures
        encoding_for(WavSampleFormat::Float, 32) == Some(SampleEncoding::F32),
        encoding_for(WavSampleFormat::Int, 16) == Some(SampleEncoding::I16),
        encoding_for(WavSampleFormat::Int, 24) == Some(SampleEncoding::I24),
        encoding_for(WavSampleFormat::Int, 32) == Some(SampleEncoding::I32),
        encoding_for(format, bits) is Some <==> (format == WavSampleFormat::Float && bits == 32 || format
            == WavSampleFormat::Int && (bits == 16 || bits == 24 || bits == 32)),
{
}

/// Check a WAV header against the audio contract (1 to 8 channels, 8 kHz to
/// 192 kHz, at most two hours, 16/24/32-bit integer or 32-bit float samples)
/// and plan its normalisation to 16 kHz mono. Each refusal is an
/// `unsupported-audio` error naming what was refused.
pub fn plan_wav_decode(
    channels: u16,
    sample_rate: u32,
    frames: u32,
    format: WavSampleFormat,
    bits_per_sample: u16,
) -> (res: Result<WavDecodePlan, RpcError>)
    ensures
        (channels == 0 || channels > 8) ==> (res matches Err(e) && e.kind
            == ErrorKind::UnsupportedAudio && e.message@ == "unsupported channel count: "@
            + decimal_digits(channels as nat)),
        !(channels == 0 || channels > 8) && !(8000 <= sample_rate <= 192000) ==> (res matches Err(e)
            && e.kind == ErrorKind::UnsupportedAudio && e.message@ == "unsupported sample rate: "@
            + decimal_digits(sample_rate as nat) + " Hz"@),
        !(channels == 0 || channels > 8) && 8000 <= sample_rate <= 192000 && frames
            > MAX_AUDIO_SECS * sample_rate ==> (res matches Err(e) && e.kind == ErrorKind::UnsupportedAudio
            && e.message@ == "audio longer than "@ + decimal_digits(MAX_AUDIO_SECS as nat) + "s"@),
        !(channels == 0 || channels > 8) && 8000 <= sample_rate <= 192000 && frames
            <= MAX_AUDIO_SECS * sample_rate ==> match encoding_for(format, bits_per_sample) {
            Some(enc) => res == Ok::<WavDecodePlan, RpcError>(
                WavDecodePlan {
                    encoding: enc,
                    downmix: channels != 1,
                    resample: sample_rate != TARGET_SAMPLE_RATE,
                },
            ),
            None => res matches Err(e) && e.kind == ErrorKind::UnsupportedAudio && e.message@
                == "unsupported sample format: "@ + decimal_digits(bits_per_sample as nat)
                + "-bit "@ + format_text(format),
        },
        in_audio_contract(channels, sample_rate, frames, format, bits_per_sample) <==> res is Ok,
        res matches Ok(p) ==> {
            &&& p.downmix == (channels != 1)
            &&& p.resample == (sample_rate != 16000)
            &&& (format == WavSampleFormat::Float ==> p.encoding == SampleEncoding::F32)
            &&& (format == WavSampleFormat::Int && bits_per_sample == 16 ==> p.encoding == SampleEncoding::I16)
            &&& (format == WavSampleFormat::Int && bits_per_sample == 24 ==> p.encoding == SampleEncoding::I24)
            &&& (format == WavSampleFormat::Int && bits_per_sample == 32 ==> p.encoding == SampleEncoding::I32)
        },
{
    proof {
        law_audio_contract(format, bits_per_sample);
    }
    if channels == 0 || channels > 8 {
        let mut m = String::from_str("unsupported channel count: ");
        let d = decimal_u64(channels as u64);
        m.append(d.as_str());
        return Err(RpcError::new(ErrorKind::UnsupportedAudio, m));
    }
    if !(8000 <= sample_rate && sample_rate <= 192000) {
        let mut m = String::from_str("unsupported sample rate: ");
        let d = decimal_u64(sample_rate as u64);
        m.append(d.as_str());
        m.append(" Hz");
        return Err(RpcError::new(ErrorKind::UnsupportedAudio, m));
    }
    if (frames as u64) > MAX_AUDIO_SECS * (sample_rate as u64) {
        let mut m = String::from_str("audio longer than ");
        let d = decimal_u64(MAX_AUDIO_SECS);
        m.append(d.as_str());
        m.append("s");
        return Err(RpcError::new(ErrorKind::UnsupportedAudio, m));
    }
    let encoding = match format {
        WavSampleFormat::Float => if bits_per_sample == 32 { Some(SampleEncoding::F32) } else { None },
        WavSampleFormat::Int => if bits_per_sample == 16 {
            Some(SampleEncoding::I16)
        } else if bits_per_sample == 24 {
            Some(SampleEncoding::I24)
        } else if bits_per_sample == 32 {
            Some(SampleEncoding::I32)
        } else {
            None
        },
    };
    match encoding {
        Some(encoding) => Ok(
            WavDecodePlan {
                encoding,
                downmix: channels != 1,
                resample: sample_rate != TARGET_SAMPLE_RATE,
            },
        ),
        None => {
            let mut m = String::from_str("unsupported sample format: ");
            let d = decimal_u64(bits_per_sample as u64);
            m.append(d.as_str());
            m.append("-bit ");
            match format {
                WavSampleFormat::Float => m.append("Float"),
                WavSampleFormat::Int => m.append("Int"),
            }
            Err(RpcError::new(ErrorKind::UnsupportedAudio, m))
        },
    }
}

/// The error for a WAV file that could not be opened: `file-not-found` when
/// the path does not exist, else `unsupported-audio` with the reader's
/// complaint.
pub fn wav_open_error(path: &str, not_found: bool, detail: &str) -> (res: RpcError)
    ensures
        not_found ==> res.kind == ErrorKind::FileNotFound && res.message@ == path@ + ": not found"@,
        !not_found ==> res.kind == ErrorKind::UnsupportedAudio && res.message@ == path@ + ": "@
            + detail@,
{
    let mut m = String::from_str(path);
    if not_found {
        m.append(": not found");
        RpcError::new(ErrorKind::FileNotFound, m)
    } else {
        m.append(": ");
        m.append(detail);
        RpcError::new(ErrorKind::UnsupportedAudio, m)
    }
}

/// The error for samples that failed to decode.
pub fn decode_error(detail: &str) -> (res: RpcError)
    ensures
        res.kind == ErrorKind::UnsupportedAudio,
        res.message@ == "decode failed: "@ + detail@,
{
    let mut m = String::from_str("decode failed: ");
    m.append(detail);
    RpcError::new(ErrorKind::UnsupportedAudio, m)
}

/// What the connection loop does with one read.
#[derive(Debug, Clone, Copy, PartialEq, Eq, Structural)]
pub enum LineAction {
    /// The client disconnected or the read failed: close the connection.
    Close,
    /// The line filled the cap without a newline: answer `invalid-request`
    /// with a `null` id, then close (there is no way to resync).
    TooLong,
    /// A blank line: ignore it.
    Skip,
    /// Parse and dispatch the line.
    Handle,
}

/// Classify one read of `bytes_read` bytes (0 at end of stream).
pub fn classify_line(bytes_read: u64, ends_with_newline: bool, is_blank: bool) -> (res: LineAction)
    ensures
        res == (if bytes_read == 0 {
            LineAction::Close
        } else if bytes_read >= MAX_LINE_BYTES && !ends_with_newline {
            LineAction::TooLong
        } else if is_blank {
            LineAction::Skip
        } else {
            LineAction::Handle
        }),
{
    if bytes_read == 0 {
        LineAction::Close
    } else if bytes_read >= MAX_LINE_BYTES && !ends_with_newline {
        LineAction::TooLong
    } else if is_blank {
        LineAction::Skip
    } else {
        LineAction::Handle
    }
}

/// The error sent for an over-long request line.
pub fn line_too_long_error() -> (res: RpcError)
    ensures
        res.kind == ErrorKind::InvalidRequest,
        res.message@ == "request line too long"@,
{
    RpcError::new(ErrorKind::InvalidRequest, String::from_str("request line too long"))
}

/// The error for a line that is not valid JSON.
pub fn parse_error(detail: &str) -> (res: RpcError)
    ensures
        res.kind == ErrorKind::ParseError,
        res.message@ == "invalid JSON: "@ + detail@,
{
    let mut m = String::from_str("invalid JSON: ");
    m.append(detail);
    RpcError::new(ErrorKind::ParseError, m)
}

/// The error for valid JSON that is not a valid JSON-RPC request.
pub fn invalid_request_error(detail: &str) -> (res: RpcError)
    ensures
        res.kind == ErrorKind::InvalidRequest,
        res.message@ == "invalid request: "@ + detail@,
{
    let mut m = String::from_str("invalid request: ");
    m.append(detail);
    RpcError::new(ErrorKind::InvalidRequest, m)
}

/// Length and two distinguishing characters of each kind string.
spec fn kind_fingerprint(kind: ErrorKind) -> (int, char, char) {
    match kind {
        ErrorKind::ParseError => (11, 'p', 'r'),
        ErrorKind::InvalidRequest => (15, 'i', 'v'),
        ErrorKind::MethodNotFound => (16, 'm', 't'),
        ErrorKind::InvalidParams => (14, 'i', 'v'),
        ErrorKind::Busy => (4, 'b', 's'),
        ErrorKind::SetupRequired => (14, 's', 't'),
        ErrorKind::ModelNotInstalled => (19, 'm', 'd'),
        ErrorKind::ModelLoadFailed => (17, 'm', 'd'),
        ErrorKind::UnsupportedAudio => (17, 'u', 's'),
        ErrorKind::FileNotFound => (14, 'f', 'l'),
        ErrorKind::Internal => (14, 'i', 't'),
        ErrorKind::ProtocolMismatch => (17, 'p', 'o'),
    }
}

proof fn lemma_kind_fingerprint(kind: ErrorKind)
    ensures
        kind_fingerprint(kind) == (kind_text(kind).len() as int, kind_text(kind)[0], kind_text(kind)[2]),
{
    reveal_strlit("parse-error");
    reveal_strlit("invalid-request");
    reveal_strlit("method-not-found");
    reveal_strlit("invalid-params");
    reveal_strlit("busy");
    reveal_strlit("setup-required");
    reveal_strlit("model-not-installed");
    reveal_strlit("model-load-failed");
    reveal_strlit("unsupported-audio");
    reveal_strlit("file-not-found");
    reveal_strlit("internal-error");
    reveal_strlit("protocol-mismatch");
}

/// Law: every error kind has a distinct code and a distinct kind string, and
/// the standard JSON-RPC codes are negative while application codes run
/// from 1000 to 1007.
pub proof fn law_error_codes_are_distinct(a: ErrorKind, b: ErrorKind)
    ensures
        a != b ==> error_code(a) != error_code(b),
        a != b ==> kind_text(a) != kind_text(b),
        error_code(a) < 0 || 1000 <= error_code(a) <= 1007,
{
    lemma_kind_fingerprint(a);
    lemma_kind_fingerprint(b);
    if a != b && kind_text(a) == kind_text(b) {
        assert(kind_fingerprint(a) == kind_fingerprint(b));
        assert(kind_fingerprint(a).1 == kind_fingerprint(b).1);
    }
}

} // verus!
