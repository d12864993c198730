//! Decisions of the transcription manager: which language and task a run
//! uses on each engine family, custom-word prompting, idle unloading, model
//! loading, compute-device selection, and the events the UI is sent.
//!
//! The engines, threads and clocks live with the caller; these functions
//! take what they observe as plain values and say what to do.

use vstd::prelude::*;
use vstd::string::*;
use crate::text::{decimal_digits, decimal_u64, join_strings, join_with, str_eq, string_views};

verus! {

// ---------------------------------------------------------------------------
// Events sent to the UI
// ---------------------------------------------------------------------------

/// Model lifecycle notification (`model-state-changed`).
#[derive(Debug)]
pub struct ModelStateEvent {
    pub event_type: String,
    pub model_id: Option<String>,
    pub model_name: Option<String>,
    pub error: Option<String>,
}

fn opt_string(s: Option<&str>) -> (res: Option<String>)
    ensures
        match s {
            Some(v) => res matches Some(r) && r@ == v@,
            None => res is None,
        },
{
    match s {
        Some(v) => Some(String::from_str(v)),
        None => None,
    }
}

impl ModelStateEvent {
    /// An event of type `event_type` about `model_id`.
    pub fn new(event_type: &str, model_id: Option<&str>, model_name: Option<&str>, error: Option<&str>) -> (res: ModelStateEvent)
        ensures
            res.event_type@ == event_type@,
            res.model_id.is_some() == model_id.is_some(),
            model_id matches Some(m) ==> res.model_id->0@ == m@,
            res.model_name.is_some() == model_name.is_some(),
            model_name matches Some(m) ==> res.model_name->0@ == m@,
            res.error.is_some() == error.is_some(),
            error matches Some(m) ==> res.error->0@ == m@,
    {
        ModelStateEvent {
            event_type: String::from_str(event_type),
            model_id: opt_string(model_id),
            model_name: opt_string(model_name),
            error: opt_string(error),
        }
    }
}

/// Live transcription snapshot for the overlay: the committed, append-only
/// prefix and the tentative suffix the model may still rewrite.
#[derive(Debug)]
pub struct StreamTextEvent {
    pub committed: String,
    pub tentative: String,
}

/// Phase of the streaming overlay card.
#[derive(Debug, Clone, Copy, PartialEq, Eq, Structural)]
pub enum StreamPhase {
    /// Receiving audio / live text.
    Listening,
    /// Finalizing or post-processing: show a spinner.
    Working,
}

/// Which kind of work the spinner is labelled with.
#[derive(Debug, Clone, Copy, PartialEq, Eq, Structural)]
pub enum StreamWorkKind {
    Transcribing,
    Polishing,
}

/// Switches the streaming overlay's phase; `kind` is present only when the
/// phase is `Working`.
#[derive(Debug, Clone, Copy, PartialEq, Eq, Structural)]
pub struct StreamPhaseEvent {
    pub phase: StreamPhase,
    pub kind: Option<StreamWorkKind>,
}

/// The event that switches the overlay to a working spinner of `kind`.
pub fn stream_working_event(kind: StreamWorkKind) -> (res: StreamPhaseEvent)
    ensures
        res == (StreamPhaseEvent { phase: StreamPhase::Working, kind: Some(kind) }),
{
    StreamPhaseEvent { phase: StreamPhase::Working, kind: Some(kind) }
}

// ---------------------------------------------------------------------------
// Languages and tasks
// ---------------------------------------------------------------------------

/// The language a transcribe-cpp or Cohere run asks for: none for `auto`,
/// `zh` for both Chinese scripts, otherwise the language as given.
pub open spec fn requested_language_spec(validated: Seq<char>) -> Option<Seq<char>> {
    if validated == "auto"@ {
        None
    } else if validated == "zh-Hans"@ || validated == "zh-Hant"@ {
        Some("zh"@)
    } else {
        Some(validated)
    }
}

/// The language requested for a run, from the validated language intent.
pub fn requested_language(validated: &str) -> (res: Option<String>)
    ensures
        match requested_language_spec(validated@) {
            Some(l) => res matches Some(r) && r@ == l,
            None => res is None,
        },
{
    if str_eq(validated, "auto") {
        None
    } else if str_eq(validated, "zh-Hans") || str_eq(validated, "zh-Hant") {
        Some(String::from_str("zh"))
    } else {
        Some(String::from_str(validated))
    }
}

/// Keep a requested language only if the loaded model advertises it;
/// otherwise (and always for language-agnostic models, which advertise none)
/// the run auto-detects.
pub fn advertised_language(requested: Option<String>, model_languages: &Vec<String>) -> (res: Option<String>)
    ensures
        match requested {
            Some(l) => if string_views(model_languages@).contains(l@) {
                res matches Some(r) && r@ == l@
            } else {
                res is None
            },
            None => res is None,
        },
{
    match requested {
        Some(l) => {
            let mut i: usize = 0;
            while i < model_languages.len()
                invariant
                    0 <= i <= model_languages@.len(),
                    requested == Some(l),
                    forall|k: int| 0 <= k < i ==> model_languages@[k]@ != l@,
                decreases model_languages@.len() - i,
            {
                if model_languages[i] == l {
                    assert(string_views(model_languages@)[i as int] == l@);
                    assert(string_views(model_languages@).contains(l@));
                    return Some(l);
                }
                i = i + 1;
            }
            assert forall|k: int| 0 <= k < string_views(model_languages@).len() implies string_views(
                model_languages@,
            )[k] != l@ by {
                assert(string_views(model_languages@)[k] == model_languages@[k]@);
            }
            None
        },
        None => None,
    }
}

/// The task of a transcribe-cpp run.
#[derive(Debug, Clone, Copy, PartialEq, Eq, Structural)]
pub enum Task {
    Transcribe,
    Translate,
}

/// Whether a transcribe-cpp run translates to English: only when the user
/// asked for it, the model advertises translation, and the source language
/// is not already English.
pub open spec fn translates_to_english(
    translate_to_english: bool,
    model_supports_translate: bool,
    source_language: Option<Seq<char>>,
) -> bool {
    translate_to_english && model_supports_translate && source_language != Some("en"@)
}

/// A transcribe-cpp run's task and translation target: translate with an
/// explicit English target, or transcribe with none.
pub fn cpp_translation_task(
    translate_to_english: bool,
    model_supports_translate: bool,
    source_language: Option<&str>,
) -> (res: (Task, Option<String>))
    ensures
        translates_to_english(
            translate_to_english,
            model_supports_translate,
            match source_language { Some(s) => Some(s@), None => None },
        ) ==> res.0 == Task::Translate && (res.1 matches Some(t) && t@ == "en"@),
        !translates_to_english(
            translate_to_english,
            model_supports_translate,
            match source_language { Some(s) => Some(s@), None => None },
        ) ==> res.0 == Task::Transcribe && res.1 is None,
{
    let source_is_english = match source_language {
        Some(s) => str_eq(s, "en"),
        None => false,
    };
    if translate_to_english && model_supports_translate && !source_is_english {
        (Task::Translate, Some(String::from_str("en")))
    } else {
        (Task::Transcribe, None)
    }
}

/// The language a SenseVoice run asks for: `zh` for Chinese in any script,
/// `en`, `ja`, `ko` and `yue` as given, auto-detection otherwise.
pub open spec fn sense_voice_language_spec(validated: Seq<char>) -> Option<Seq<char>> {
    if validated == "zh"@ || validated == "zh-Hans"@ || validated == "zh-Hant"@ {
        Some("zh"@)
    } else if validated == "en"@ || validated == "ja"@ || validated == "ko"@ || validated == "yue"@ {
        Some(validated)
    } else {
        None
    }
}

/// Law: a SenseVoice run asks for every language SenseVoice knows: English,
/// Japanese, Korean and Cantonese as selected, Chinese in any script as
/// `zh`; any other selection (including `auto`) auto-detects.
pub proof fn law_sense_voice_languages(validated: Seq<char>)
    ensures
        sense_voice_language_spec("en"@) == Some("en"@),
        sense_voice_language_spec("ja"@) == Some("ja"@),
        sense_voice_language_spec("ko"@) == Some("ko"@),
        sense_voice_language_spec("yue"@) == Some("yue"@),
        sense_voice_language_spec("zh"@) == Some("zh"@),
        sense_voice_language_spec("zh-Hans"@) == Some("zh"@),
        sense_voice_language_spec("zh-Hant"@) == Some("zh"@),
        sense_voice_language_spec("auto"@) is None,
        sense_voice_language_spec(validated) is None <==> !(validated == "en"@ || validated == "ja"@
            || validated == "ko"@ || validated == "yue"@ || validated == "zh"@ || validated == "zh-Hans"@
            || validated == "zh-Hant"@),
{
    reveal_strlit("en");
    reveal_strlit("ja");
    reveal_strlit("ko");
    reveal_strlit("yue");
    reveal_strlit("zh");
    reveal_strlit("zh-Hans");
    reveal_strlit("zh-Hant");
    reveal_strlit("auto");
    assert("en"@.len() == 2);
    assert("ja"@.len() == 2);
    assert("ko"@.len() == 2);
    assert("yue"@.len() == 3);
    assert("zh"@.len() == 2);
    assert("zh-Hans"@.len() == 7);
    assert("zh-Hant"@.len() == 7);
    assert("auto"@.len() == 4);
    assert("en"@[0] != "ja"@[0]);
    assert("en"@ != "ja"@);
    assert("en"@[0] != "ko"@[0]);
    assert("en"@ != "ko"@);
    assert("en"@ != "yue"@);
    assert("en"@[0] != "zh"@[0]);
    assert("en"@ != "zh"@);
    assert("en"@ != "zh-Hans"@);
    assert("en"@ != "zh-Hant"@);
    assert("ja"@[0] != "ko"@[0]);
    assert("ja"@ != "ko"@);
    assert("ja"@ != "yue"@);
    assert("ja"@[0] != "zh"@[0]);
    assert("ja"@ != "zh"@);
    assert("ja"@ != "zh-Hans"@);
    assert("ja"@ != "zh-Hant"@);
    assert("ko"@ != "yue"@);
    assert("ko"@[0] != "zh"@[0]);
    assert("ko"@ != "zh"@);
    assert("ko"@ != "zh-Hans"@);
    assert("ko"@ != "zh-Hant"@);
    assert("yue"@ != "zh"@);
    assert("yue"@ != "zh-Hans"@);
    assert("yue"@ != "zh-Hant"@);
    assert("zh"@ != "zh-Hans"@);
    assert("zh"@ != "zh-Hant"@);
    assert("zh-Hans"@[6] != "zh-Hant"@[6]);
    assert("zh-Hans"@ != "zh-Hant"@);
    assert("auto"@ != "en"@);
    assert("auto"@ != "ja"@);
    assert("auto"@ != "ko"@);
    assert("auto"@ != "yue"@);
    assert("auto"@ != "zh"@);
    assert("auto"@ != "zh-Hans"@);
    assert("auto"@ != "zh-Hant"@);
}

/// The language a SenseVoice run asks for.
pub fn sense_voice_language(validated: &str) -> (res: Option<String>)
    ensures
        match sense_voice_language_spec(validated@) {
            Some(l) => res matches Some(r) && r@ == l,
            None => res is None,
        },
        (validated@ == "en"@ || validated@ == "ja"@ || validated@ == "ko"@ || validated@ == "yue"@) ==> (
        res matches Some(r) && r@ == validated@),
        (validated@ == "zh"@ || validated@ == "zh-Hans"@ || validated@ == "zh-Hant"@) ==> (res matches Some(
            r,
        ) && r@ == "zh"@),
{
    proof {
        law_sense_voice_languages(validated@);
    }
    if str_eq(validated, "zh") || str_eq(validated, "zh-Hans") || str_eq(validated, "zh-Hant") {
        Some(String::from_str("zh"))
    } else if str_eq(validated, "en") || str_eq(validated, "ja") || str_eq(validated, "ko") || str_eq(
        validated,
        "yue",
    ) {
        Some(String::from_str(validated))
    } else {
        None
    }
}

/// The language a Canary run asks for: none for `auto`, otherwise the
/// language as given (Canary takes the Chinese script codes as they are).
pub fn canary_language(validated: &str) -> (res: Option<String>)
    ensures
        validated@ == "auto"@ ==> res is None,
        validated@ != "auto"@ ==> (res matches Some(r) && r@ == validated@),
{
    if str_eq(validated, "auto") {
        None
    } else {
        Some(String::from_str(validated))
    }
}

/// The decode prompt for a whisper-family run: the custom words joined with
/// `, `, only when there are custom words and the model takes a prompt.
pub fn whisper_initial_prompt(custom_words: &Vec<String>, model_takes_initial_prompt: bool) -> (res: Option<String>)
    ensures
        (custom_words@.len() == 0 || !model_takes_initial_prompt) ==> res is None,
        (custom_words@.len() > 0 && model_takes_initial_prompt) ==> (res matches Some(p) && p@
            == join_with(string_views(custom_words@), ", "@)),
{
    if custom_words.len() == 0 || !model_takes_initial_prompt {
        None
    } else {
        Some(join_strings(custom_words, ", "))
    }
}

/// Timestamp granularity requested from a transcribe-cpp run.
#[derive(Debug, Clone, Copy, PartialEq, Eq, Structural)]
pub enum TimestampKind {
    NoTimestamps,
    Segment,
}

/// Whisper-family models (those taking a decode prompt) run with segment
/// timestamps, which keeps long-form decoding with a prompt stable; other
/// architectures run without.
pub fn run_timestamps(model_takes_initial_prompt: bool) -> (res: TimestampKind)
    ensures
        res == (if model_takes_initial_prompt { TimestampKind::Segment } else { TimestampKind::NoTimestamps }),
{
    if model_takes_initial_prompt {
        TimestampKind::Segment
    } else {
        TimestampKind::NoTimestamps
    }
}

/// Whether fuzzy custom-word correction runs on the result: when there are
/// custom words that were not already handed to the model as a prompt.
pub fn needs_fuzzy_correction(has_custom_words: bool, model_takes_initial_prompt: bool) -> (res: bool)
    ensures
        res == (has_custom_words && !model_takes_initial_prompt),
{
    has_custom_words && !model_takes_initial_prompt
}

/// Everything a transcribe-cpp run is configured with.
#[derive(Debug)]
pub struct CppRunPlan {
    pub task: Task,
    /// The source language, when the model advertises the requested one.
    pub language: Option<String>,
    /// The target language, English when translating.
    pub target_language: Option<String>,
    pub timestamps: TimestampKind,
    /// The whisper decode prompt (the custom words), when the model takes one.
    pub initial_prompt: Option<String>,
}

/// The source language of a transcribe-cpp run: the requested language when
/// the model advertises it, auto-detection otherwise.
pub open spec fn cpp_run_language(validated: Seq<char>, model_languages: Seq<Seq<char>>) -> Option<Seq<char>> {
    match requested_language_spec(validated) {
        Some(l) => if model_languages.contains(l) {
            Some(l)
        } else {
            None
        },
        None => None,
    }
}

fn opt_view(o: &Option<String>) -> (res: Option<&str>)
    ensures
        match o {
            Some(s) => res matches Some(r) && r@ == s@,
            None => res is None,
        },
{
    match o {
        Some(s) => Some(s.as_str()),
        None => None,
    }
}

/// The configuration of a transcribe-cpp run from the validated language,
/// what the loaded model advertises (languages, translation, a decode
/// prompt), the custom words and the translate setting.
pub fn cpp_run_plan(
    validated_language: &str,
    model_languages: &Vec<String>,
    model_supports_translate: bool,
    model_takes_initial_prompt: bool,
    custom_words: &Vec<String>,
    translate_to_english: bool,
) -> (res: CppRunPlan)
    ensures
        match cpp_run_language(validated_language@, string_views(model_languages@)) {
            Some(l) => res.language matches Some(r) && r@ == l,
            None => res.language is None,
        },
        translates_to_english(
            translate_to_english,
            model_supports_translate,
            cpp_run_language(validated_language@, string_views(model_languages@)),
        ) ==> res.task == Task::Translate && (res.target_language matches Some(t) && t@ == "en"@),
        !translates_to_english(
            translate_to_english,
            model_supports_translate,
            cpp_run_language(validated_language@, string_views(model_languages@)),
        ) ==> res.task == Task::Transcribe && res.target_language is None,
        res.timestamps == (if model_takes_initial_prompt {
            TimestampKind::Segment
        } else {
            TimestampKind::NoTimestamps
        }),
        (custom_words@.len() == 0 || !model_takes_initial_prompt) ==> res.initial_prompt is None,
        (custom_words@.len() > 0 && model_takes_initial_prompt) ==> (res.initial_prompt matches Some(p)
            && p@ == join_with(string_views(custom_words@), ", "@)),
{
    let requested = requested_language(validated_language);
    let language = advertised_language(requested, model_languages);
    let (task, target_language) = cpp_translation_task(
        translate_to_english,
        model_supports_translate,
        opt_view(&language),
    );
    CppRunPlan {
        task,
        language,
        target_language,
        timestamps: run_timestamps(model_takes_initial_prompt),
        initial_prompt: whisper_initial_prompt(custom_words, model_takes_initial_prompt),
    }
}

/// Law: custom words reach a run exactly one way: as the decode prompt of a
/// model that takes one, or through fuzzy correction afterwards.
pub proof fn law_custom_words_used_once(has_custom_words: bool, takes_prompt: bool)
    ensures
        has_custom_words ==> (takes_prompt != (has_custom_words && !takes_prompt)),
        !has_custom_words ==> !(has_custom_words && !takes_prompt),
{
}

// ---------------------------------------------------------------------------
// Loading, idle unloading, and the engine lease
// ---------------------------------------------------------------------------

/// The engine family a model runs on.
#[derive(Debug, Clone, Copy, PartialEq, Eq, Structural)]
pub enum EngineType {
    TranscribeCpp,
    Parakeet,
    Moonshine,
    MoonshineStreaming,
    SenseVoice,
    GigaAM,
    Canary,
    Cohere,
}

/// The checks before loading a model: it must be known to the model
/// registry and downloaded.
pub fn load_precheck(model_id: &str, model_known: bool, is_downloaded: bool) -> (res: Result<(), String>)
    ensures
        !model_known ==> (res matches Err(m) && m@ == "Model not found: "@ + model_id@),
        model_known && !is_downloaded ==> (res matches Err(m) && m@ == "Model not downloaded"@),
        model_known && is_downloaded ==> res is Ok,
{
    if !model_known {
        let mut m = String::from_str("Model not found: ");
        m.append(model_id);
        return Err(m);
    }
    if !is_downloaded {
        return Err(String::from_str("Model not downloaded"));
    }
    Ok(())
}

/// How load failures name an engine family.
pub open spec fn engine_label(engine: EngineType) -> Seq<char> {
    match engine {
        EngineType::TranscribeCpp => "whisper"@,
        EngineType::Parakeet => "parakeet"@,
        EngineType::Moonshine => "moonshine"@,
        EngineType::MoonshineStreaming => "moonshine streaming"@,
        EngineType::SenseVoice => "SenseVoice"@,
        EngineType::GigaAM => "gigaam"@,
        EngineType::Canary => "canary"@,
        EngineType::Cohere => "cohere"@,
    }
}

fn engine_label_str(engine: EngineType) -> (res: &'static str)
    ensures
        res@ == engine_label(engine),
{
    match engine {
        EngineType::TranscribeCpp => "whisper",
        EngineType::Parakeet => "parakeet",
        EngineType::Moonshine => "moonshine",
        EngineType::MoonshineStreaming => "moonshine streaming",
        EngineType::SenseVoice => "SenseVoice",
        EngineType::GigaAM => "gigaam",
        EngineType::Canary => "canary",
        EngineType::Cohere => "cohere",
    }
}

/// The message (and `loading_failed` event error) when an engine fails to
/// load a model.
pub fn load_failure_message(engine: EngineType, model_id: &str, detail: &str) -> (res: String)
    ensures
        res@ == "Failed to load "@ + engine_label(engine) + " model "@ + model_id@ + ": "@ + detail@,
{
    let mut m = String::from_str("Failed to load ");
    m.append(engine_label_str(engine));
    m.append(" model ");
    m.append(model_id);
    m.append(": ");
    m.append(detail);
    m
}

/// The message when a loaded whisper-family model cannot open a session.
pub fn session_failure_message(model_id: &str, detail: &str) -> (res: String)
    ensures
        res@ == "Failed to create session for whisper model "@ + model_id@ + ": "@ + detail@,
{
    let mut m = String::from_str("Failed to create session for whisper model ");
    m.append(model_id);
    m.append(": ");
    m.append(detail);
    m
}

/// How transcription failures name an engine family.
pub open spec fn engine_failure_label(engine: EngineType) -> Seq<char> {
    match engine {
        EngineType::TranscribeCpp => "transcribe-cpp"@,
        EngineType::Parakeet => "Parakeet"@,
        EngineType::Moonshine => "Moonshine"@,
        EngineType::MoonshineStreaming => "Moonshine streaming"@,
        EngineType::SenseVoice => "SenseVoice"@,
        EngineType::GigaAM => "GigaAM"@,
        EngineType::Canary => "Canary"@,
        EngineType::Cohere => "Cohere"@,
    }
}

fn engine_failure_label_str(engine: EngineType) -> (res: &'static str)
    ensures
        res@ == engine_failure_label(engine),
{
    match engine {
        EngineType::TranscribeCpp => "transcribe-cpp",
        EngineType::Parakeet => "Parakeet",
        EngineType::Moonshine => "Moonshine",
        EngineType::MoonshineStreaming => "Moonshine streaming",
        EngineType::SenseVoice => "SenseVoice",
        EngineType::GigaAM => "GigaAM",
        EngineType::Canary => "Canary",
        EngineType::Cohere => "Cohere",
    }
}

/// The error of a run the engine refused or failed.
pub fn transcription_failure_message(engine: EngineType, detail: &str) -> (res: String)
    ensures
        res@ == engine_failure_label(engine) + " transcription failed: "@ + detail@,
{
    let mut m = String::from_str(engine_failure_label_str(engine));
    m.append(" transcription failed: ");
    m.append(detail);
    m
}

/// What a panicking engine leaves behind: the `unloaded` event's error and
/// the error the transcription returns. The engine is dropped (it is in an
/// unknown state) and the model reloads on the next attempt.
pub fn engine_panic_messages(panic_message: &str) -> (res: (String, String))
    ensures
        res.0@ == "Engine panicked: "@ + panic_message@,
        res.1@ == "Transcription engine panicked: "@ + panic_message@
            + ". The model has been unloaded and will reload on next attempt."@,
{
    let mut event = String::from_str("Engine panicked: ");
    event.append(panic_message);
    let mut err = String::from_str("Transcription engine panicked: ");
    err.append(panic_message);
    err.append(". The model has been unloaded and will reload on next attempt.");
    (event, err)
}

/// Whether a background model load should start: not while one runs, and not
/// when a model is already loaded.
pub fn should_initiate_model_load(is_loading: bool, model_loaded: bool) -> (res: bool)
    ensures
        res == (!is_loading && !model_loaded),
{
    !is_loading && !model_loaded
}

/// Proof that this caller marked a model load as in progress; finishing it
/// clears the flag.
#[derive(Debug)]
pub struct LoadingGuard {
    _private: (),
}

/// Whether a model load is in progress.
pub struct LoadingState {
    is_loading: bool,
}

impl View for LoadingState {
    type V = bool;

    closed spec fn view(&self) -> bool {
        self.is_loading
    }
}

impl LoadingState {
    /// No load in progress.
    pub fn new() -> (res: LoadingState)
        ensures
            !res@,
    {
        LoadingState { is_loading: false }
    }

    /// Mark a load as starting unless one is already in progress.
    pub fn try_start_loading(&mut self) -> (res: Option<LoadingGuard>)
        ensures
            old(self)@ ==> res is None && final(self)@,
            !old(self)@ ==> res is Some && final(self)@,
    {
        if self.is_loading {
            return None;
        }
        self.is_loading = true;
        Some(LoadingGuard { _private: () })
    }

    /// The load marked by `guard` is over.
    pub fn finish_loading(&mut self, guard: LoadingGuard)
        ensures
            !final(self)@,
    {
        let _ = guard;
        self.is_loading = false;
    }

    /// Whether a load is in progress.
    pub fn is_loading(&self) -> (res: bool)
        ensures
            res == self@,
    {
        self.is_loading
    }
}

/// Abstract state of the manager's engine slot.
pub struct SlotModel {
    /// An engine sits in the slot.
    pub present: bool,
    /// The engine is leased out to the streaming worker.
    pub leased: bool,
    /// The engine is taken out for a batch run.
    pub in_run: bool,
    /// The model the current engine was loaded for.
    pub current: Option<Seq<char>>,
}

/// The slot after a model finished loading.
pub open spec fn slot_after_load(m: SlotModel, model_id: Seq<char>) -> SlotModel {
    SlotModel { present: true, current: Some(model_id), ..m }
}

/// The slot after unloading: no engine, no current model.
pub open spec fn slot_after_unload(m: SlotModel) -> SlotModel {
    SlotModel { present: false, current: None, ..m }
}

/// The slot after a batch run takes the engine out (when there is one).
pub open spec fn slot_after_take(m: SlotModel) -> SlotModel {
    if m.present {
        SlotModel { present: false, in_run: true, ..m }
    } else {
        m
    }
}

/// The slot after a batch run ends: the engine is put back, unless the
/// engine panicked, in which case it is dropped (its state is unknown) and
/// no model is current, so the next attempt reloads.
pub open spec fn slot_after_run(m: SlotModel, panicked: bool) -> SlotModel {
    if panicked {
        SlotModel { in_run: false, current: None, ..m }
    } else {
        SlotModel { present: true, in_run: false, ..m }
    }
}

/// The slot after the streaming worker leases the engine (when there is one).
pub open spec fn slot_after_lease(m: SlotModel) -> SlotModel {
    if m.present {
        SlotModel { present: false, leased: true, ..m }
    } else {
        m
    }
}

/// The slot after the streaming worker ends: the leased engine goes back
/// only if the model it was leased for is still the current one; otherwise
/// it is dropped.
pub open spec fn slot_after_return(m: SlotModel, leased_for: Seq<char>) -> SlotModel {
    SlotModel {
        present: m.present || m.current == Some(leased_for),
        leased: false,
        ..m
    }
}

/// The manager's engine slot: whether an engine is in it, leased to the
/// streaming worker or out for a batch run, and the model it was loaded for.
pub struct EngineSlot {
    present: bool,
    leased: bool,
    in_run: bool,
    current_model: Option<String>,
}

impl View for EngineSlot {
    type V = SlotModel;

    closed spec fn view(&self) -> SlotModel {
        SlotModel {
            present: self.present,
            leased: self.leased,
            in_run: self.in_run,
            current: match &self.current_model {
                Some(m) => Some(m@),
                None => None,
            },
        }
    }
}

impl EngineSlot {
    /// An empty slot.
    pub fn new() -> (res: EngineSlot)
        ensures
            res@ == (SlotModel { present: false, leased: false, in_run: false, current: None }),
    {
        EngineSlot { present: false, leased: false, in_run: false, current_model: None }
    }

    /// A model finished loading and its engine is in the slot.
    pub fn model_loaded(&mut self, model_id: &str)
        ensures
            final(self)@ == slot_after_load(old(self)@, model_id@),
    {
        self.present = true;
        self.current_model = Some(String::from_str(model_id));
    }

    /// The model was unloaded.
    pub fn unload(&mut self)
        ensures
            final(self)@ == slot_after_unload(old(self)@),
    {
        self.present = false;
        self.current_model = None;
    }

    /// Take the engine out for a batch run; false when there is none.
    pub fn take_for_run(&mut self) -> (res: bool)
        ensures
            res == old(self)@.present,
            final(self)@ == slot_after_take(old(self)@),
    {
        if self.present {
            self.present = false;
            self.in_run = true;
            true
        } else {
            false
        }
    }

    /// A batch run ended, normally or by a panic of the engine.
    pub fn run_finished(&mut self, panicked: bool)
        ensures
            final(self)@ == slot_after_run(old(self)@, panicked),
    {
        self.in_run = false;
        if panicked {
            self.current_model = None;
        } else {
            self.present = true;
        }
    }

    /// Lease the engine to the streaming worker; false when there is none.
    pub fn lease_for_stream(&mut self) -> (res: bool)
        ensures
            res == old(self)@.present,
            final(self)@ == slot_after_lease(old(self)@),
    {
        if self.present {
            self.present = false;
            self.leased = true;
            true
        } else {
            false
        }
    }

    /// The streaming worker ended with the engine leased for `leased_for`.
    pub fn return_lease(&mut self, leased_for: &str)
        ensures
            final(self)@ == slot_after_return(old(self)@, leased_for@),
    {
        let still_current = match &self.current_model {
            Some(c) => str_eq(c.as_str(), leased_for),
            None => false,
        };
        if still_current {
            self.present = true;
        }
        self.leased = false;
    }

    /// Whether a model counts as loaded: the engine is in the slot or leased.
    pub fn is_model_loaded(&self) -> (res: bool)
        ensures
            res == (self@.present || self@.leased),
    {
        self.present || self.leased
    }

    /// The model the current engine was loaded for.
    pub fn current_model(&self) -> (res: Option<String>)
        ensures
            match self@.current {
                Some(m) => res matches Some(r) && r@ == m,
                None => res is None,
            },
    {
        match &self.current_model {
            Some(m) => Some(m.clone()),
            None => None,
        }
    }
}

/// Law: an engine that panicked during a run is dropped and no model stays
/// current, so the next transcription reloads; a run that ends normally
/// puts the engine back with the same model current.
pub proof fn law_engine_panic_drops_the_engine(m: SlotModel)
    requires
        m.present,
    ensures
        !slot_after_run(slot_after_take(m), true).present,
        slot_after_run(slot_after_take(m), true).current is None,
        slot_after_run(slot_after_take(m), false).present,
        slot_after_run(slot_after_take(m), false).current == m.current,
{
}

/// Law: a model counts as loaded while its engine is leased to the
/// streaming worker, and the leased engine comes back only if the model it
/// was leased for is still current: after an unload or a switch it is
/// dropped.
pub proof fn law_lease_returns_only_to_the_same_model(m: SlotModel, leased_for: Seq<char>, other: Seq<char>)
    requires
        m.present,
        m.current == Some(leased_for),
        other != leased_for,
    ensures
        slot_after_lease(m).present || slot_after_lease(m).leased,
        slot_after_return(slot_after_lease(m), leased_for).present,
        !slot_after_return(slot_after_unload(slot_after_lease(m)), leased_for).present,
        slot_after_return(slot_after_load(slot_after_lease(m), other), leased_for).current == Some(other),
        !slot_after_return(slot_after_lease(m), leased_for).leased,
{
}

/// The abstract form of a model-state event.
pub open spec fn event_view(e: ModelStateEvent) -> (Seq<char>, Option<Seq<char>>, Option<Seq<char>>, Option<Seq<char>>) {
    (
        e.event_type@,
        match e.model_id { Some(x) => Some(x@), None => None },
        match e.model_name { Some(x) => Some(x@), None => None },
        match e.error { Some(x) => Some(x@), None => None },
    )
}

/// The events a model load sends, in order: `loading_started`, then, when
/// the model is known (`model_name` given), `loading_failed` with the
/// failure or `loading_completed`. An unknown model sends only the start.
pub open spec fn load_event_views(
    model_id: Seq<char>,
    model_name: Option<Seq<char>>,
    failure: Option<Seq<char>>,
) -> Seq<(Seq<char>, Option<Seq<char>>, Option<Seq<char>>, Option<Seq<char>>)> {
    let started = ("loading_started"@, Some(model_id), None::<Seq<char>>, None::<Seq<char>>);
    match model_name {
        None => seq![started],
        Some(name) => match failure {
            Some(f) => seq![started, ("loading_failed"@, Some(model_id), Some(name), Some(f))],
            None => seq![started, ("loading_completed"@, Some(model_id), Some(name), None::<Seq<char>>)],
        },
    }
}

/// The events of one model load.
pub fn load_events(model_id: &str, model_name: Option<&str>, failure: Option<&str>) -> (res: Vec<ModelStateEvent>)
    ensures
        res@.map_values(|e: ModelStateEvent| event_view(e)) == load_event_views(
            model_id@,
            match model_name { Some(n) => Some(n@), None => None },
            match failure { Some(f) => Some(f@), None => None },
        ),
{
    let mut out: Vec<ModelStateEvent> = Vec::new();
    out.push(ModelStateEvent::new("loading_started", Some(model_id), None, None));
    match model_name {
        None => {},
        Some(name) => match failure {
            Some(f) => out.push(ModelStateEvent::new("loading_failed", Some(model_id), Some(name), Some(f))),
            None => out.push(ModelStateEvent::new("loading_completed", Some(model_id), Some(name), None)),
        },
    }
    assert(out@.map_values(|e: ModelStateEvent| event_view(e)) =~= load_event_views(
        model_id@,
        match model_name { Some(n) => Some(n@), None => None },
        match failure { Some(f) => Some(f@), None => None },
    ));
    out
}

/// A model is reported loaded while the engine sits in the manager or is
/// leased out to the streaming worker.
pub fn is_model_loaded(engine_present: bool, engine_leased: bool) -> (res: bool)
    ensures
        res == (engine_present || engine_leased),
{
    engine_present || engine_leased
}

/// Whether a leased engine goes back to the manager when the streaming
/// worker ends: only if the model it was loaded for is still the current one.
pub fn engine_still_current(current_model: Option<&str>, leased_for: &str) -> (res: bool)
    ensures
        res == (current_model matches Some(c) && c@ == leased_for@),
{
    match current_model {
        Some(c) => str_eq(c, leased_for),
        None => false,
    }
}

/// What the idle watcher does on one tick.
#[derive(Debug, Clone, Copy, PartialEq, Eq, Structural)]
pub enum IdleAction {
    /// Nothing to do.
    Wait,
    /// Recording is in progress: keep the idle timer fresh.
    TouchActivity,
    /// The model has been idle past the limit: unload it.
    Unload,
}

/// One tick of the idle watcher. The `Immediately` policy is handled after
/// each transcription, never here; while recording the timer is kept fresh;
/// otherwise a loaded model idle for longer than the limit is unloaded.
pub fn idle_watch_action(
    unload_immediately: bool,
    limit_seconds: Option<u64>,
    is_recording: bool,
    now_ms: u64,
    last_activity_ms: u64,
    model_loaded: bool,
) -> (res: IdleAction)
    requires
        limit_seconds matches Some(l) ==> l <= u64::MAX / 1000,
    ensures
        res == (if unload_immediately {
            IdleAction::Wait
        } else if is_recording {
            IdleAction::TouchActivity
        } else {
            match limit_seconds {
                Some(l) => if now_ms - last_activity_ms > l * 1000 && model_loaded {
                    IdleAction::Unload
                } else {
                    IdleAction::Wait
                },
                None => IdleAction::Wait,
            }
        }),
{
    if unload_immediately {
        return IdleAction::Wait;
    }
    if is_recording {
        return IdleAction::TouchActivity;
    }
    match limit_seconds {
        Some(limit) => {
            let idle_ms = now_ms.saturating_sub(last_activity_ms);
            let limit_ms = limit * 1000;
            if idle_ms > limit_ms && model_loaded {
                IdleAction::Unload
            } else {
                IdleAction::Wait
            }
        },
        None => IdleAction::Wait,
    }
}

/// Whether to unload right after a transcription: under the `Immediately`
/// policy, when a model is loaded.
pub fn should_unload_immediately(unload_immediately: bool, model_loaded: bool) -> (res: bool)
    ensures
        res == (unload_immediately && model_loaded),
{
    unload_immediately && model_loaded
}

/// The early answers of a batch transcription: empty audio transcribes to
/// the empty string, and without a loaded engine the call fails. `None` means
/// run the engine.
pub fn transcribe_precheck(audio_len: usize, engine_loaded: bool) -> (res: Option<Result<String, String>>)
    ensures
        audio_len == 0 ==> (res matches Some(Ok(t)) && t@.len() == 0),
        audio_len > 0 && !engine_loaded ==> (res matches Some(Err(e)) && e@
            == "Model is not loaded for transcription."@),
        audio_len > 0 && engine_loaded ==> res is None,
{
    if audio_len == 0 {
        return Some(Ok(String::new()));
    }
    if !engine_loaded {
        return Some(Err(String::from_str("Model is not loaded for transcription.")));
    }
    None
}

// ---------------------------------------------------------------------------
// Compute devices and accelerators
// ---------------------------------------------------------------------------

/// A compute device registered with transcribe-cpp.
#[derive(Debug)]
pub struct DeviceInfo {
    /// Registry index, when the device can be addressed by one.
    pub index: Option<usize>,
    pub kind: String,
    pub name: String,
    pub description: String,
    pub memory_total: u64,
}

/// The compute backend a transcribe-cpp model is loaded on.
#[derive(Debug, Clone, Copy, PartialEq, Eq, Structural)]
pub enum Backend {
    Auto,
    Cpu,
    Metal,
    Cuda,
    Vulkan,
}

/// The backend that hosts a model on a device of `kind`, if any.
pub open spec fn backend_for_kind(kind: Seq<char>) -> Option<Backend> {
    if kind == "cpu"@ {
        Some(Backend::Cpu)
    } else if kind == "metal"@ {
        Some(Backend::Metal)
    } else if kind == "cuda"@ {
        Some(Backend::Cuda)
    } else if kind == "vulkan"@ {
        Some(Backend::Vulkan)
    } else {
        None
    }
}

fn backend_of_kind(kind: &str) -> (res: Option<Backend>)
    ensures
        res == backend_for_kind(kind@),
{
    if str_eq(kind, "cpu") {
        Some(Backend::Cpu)
    } else if str_eq(kind, "metal") {
        Some(Backend::Metal)
    } else if str_eq(kind, "cuda") {
        Some(Backend::Cuda)
    } else if str_eq(kind, "vulkan") {
        Some(Backend::Vulkan)
    } else {
        None
    }
}

/// Law: every device kind that can host a model gets the backend of its
/// own kind: `cpu` the CPU backend, and each GPU kind (`metal`, `cuda`,
/// `vulkan`) its GPU backend, never the CPU; other kinds host nothing.
pub proof fn law_device_kinds_keep_their_backend(kind: Seq<char>)
    ensures
        backend_for_kind("cpu"@) == Some(Backend::Cpu),
        backend_for_kind("metal"@) == Some(Backend::Metal),
        backend_for_kind("cuda"@) == Some(Backend::Cuda),
        backend_for_kind("vulkan"@) == Some(Backend::Vulkan),
        backend_for_kind(kind) is Some <==> (kind == "cpu"@ || kind == "metal"@ || kind == "cuda"@
            || kind == "vulkan"@),
        backend_for_kind(kind) == Some(Backend::Cpu) ==> kind == "cpu"@,
{
    reveal_strlit("cpu");
    reveal_strlit("metal");
    reveal_strlit("cuda");
    reveal_strlit("vulkan");
    assert("cpu"@.len() == 3);
    assert("metal"@.len() == 5);
    assert("cuda"@.len() == 4);
    assert("vulkan"@.len() == 6);
    assert("cpu"@ != "metal"@);
    assert("cpu"@ != "cuda"@);
    assert("cpu"@ != "vulkan"@);
    assert("metal"@ != "vulkan"@);
    assert("cuda"@ != "metal"@);
    assert("cuda"@ != "vulkan"@);
}

/// Resolve a device registry index to the backend and GPU device for a model
/// load. The backend follows the device's kind; CPU ignores the GPU device
/// (0). Fails when no device has the index or its kind cannot host a model.
pub fn resolve_device_index(devices: &Vec<DeviceInfo>, index: usize) -> (res: Result<(Backend, i32), String>)
    ensures
        forall|k: int|
            0 <= k < devices@.len() && devices@[k].index == Some(index) && (forall|j: int|
                0 <= j < k ==> devices@[j].index != Some(index)) ==> {
                &&& (#[trigger] devices@[k].kind@) == "metal"@ ==> res == Ok::<(Backend, i32), String>(
                    (Backend::Metal, index as i32),
                )
                &&& devices@[k].kind@ == "cuda"@ ==> res == Ok::<(Backend, i32), String>(
                    (Backend::Cuda, index as i32),
                )
                &&& devices@[k].kind@ == "vulkan"@ ==> res == Ok::<(Backend, i32), String>(
                    (Backend::Vulkan, index as i32),
                )
                &&& devices@[k].kind@ == "cpu"@ ==> res == Ok::<(Backend, i32), String>((Backend::Cpu, 0i32))
            },
        !(exists|k: int| 0 <= k < devices@.len() && devices@[k].index == Some(index)) ==> (res matches Err(
            e,
        ) && e@ == "No compute device with index "@ + decimal_digits(index as nat)
            + " (see --list-devices)"@),
        forall|k: int|
            0 <= k < devices@.len() && devices@[k].index == Some(index) && (forall|j: int|
                0 <= j < k ==> devices@[j].index != Some(index)) ==> match backend_for_kind(
                #[trigger] devices@[k].kind@,
            ) {
                Some(b) => res == Ok::<(Backend, i32), String>(
                    (b, if b == Backend::Cpu { 0i32 } else { index as i32 }),
                ),
                None => res matches Err(e) && e@ == "Device index "@ + decimal_digits(index as nat)
                    + " has kind '"@ + devices@[k].kind@ + "', which cannot host a model"@,
            },
{
    let mut i: usize = 0;
    while i < devices.len()
        invariant
            0 <= i <= devices@.len(),
            forall|j: int| 0 <= j < i ==> devices@[j].index != Some(index),
        decreases devices@.len() - i,
    {
        if devices[i].index == Some(index) {
            let kind = devices[i].kind.as_str();
            match backend_of_kind(kind) {
                Some(b) => {
                    let gpu_device: i32 = match b {
                        Backend::Cpu => 0,
                        _ => index as i32,
                    };
                    proof {
                        law_device_kinds_keep_their_backend(kind@);
                    }
                    return Ok((b, gpu_device));
                },
                None => {
                    let mut m = String::from_str("Device index ");
                    let d = decimal_u64(index as u64);
                    m.append(d.as_str());
                    m.append(" has kind '");
                    m.append(kind);
                    m.append("', which cannot host a model");
                    return Err(m);
                },
            }
        }
        i = i + 1;
    }
    let mut m = String::from_str("No compute device with index ");
    let d = decimal_u64(index as u64);
    m.append(d.as_str());
    m.append(" (see --list-devices)");
    Err(m)
}

/// The user's transcribe-cpp accelerator preference.
#[derive(Debug, Clone, Copy, PartialEq, Eq, Structural)]
pub enum TranscribeAccelerator {
    Auto,
    Cpu,
    Gpu,
}

/// The backend to load with: Auto and Cpu as chosen; Gpu asks for the
/// platform's GPU backend (Metal on macOS, else CUDA then Vulkan) that is
/// actually available, falling back to Auto so a load never fails for want
/// of a GPU backend.
pub fn select_transcribe_backend(
    setting: TranscribeAccelerator,
    macos: bool,
    metal_available: bool,
    cuda_available: bool,
    vulkan_available: bool,
) -> (res: Backend)
    ensures
        res == match setting {
            TranscribeAccelerator::Cpu => Backend::Cpu,
            TranscribeAccelerator::Auto => Backend::Auto,
            TranscribeAccelerator::Gpu => if macos {
                if metal_available { Backend::Metal } else { Backend::Auto }
            } else if cuda_available {
                Backend::Cuda
            } else if vulkan_available {
                Backend::Vulkan
            } else {
                Backend::Auto
            },
        },
{
    match setting {
        TranscribeAccelerator::Cpu => Backend::Cpu,
        TranscribeAccelerator::Auto => Backend::Auto,
        TranscribeAccelerator::Gpu => {
            if macos {
                if metal_available { Backend::Metal } else { Backend::Auto }
            } else if cuda_available {
                Backend::Cuda
            } else if vulkan_available {
                Backend::Vulkan
            } else {
                Backend::Auto
            }
        },
    }
}

/// Whether a device is a GPU (neither the CPU nor an accelerator pseudo-device).
pub open spec fn is_gpu_kind(kind: Seq<char>) -> bool {
    kind != "cpu"@ && kind != "accel"@
}

fn is_gpu(kind: &str) -> (res: bool)
    ensures
        res == is_gpu_kind(kind@),
{
    !str_eq(kind, "cpu") && !str_eq(kind, "accel")
}

/// The GPU device index for the next model load: the stored choice is
/// honoured only under the Gpu accelerator and while it still names a
/// registered GPU device; otherwise 0 (auto / first matching device).
pub fn resolve_gpu_device(setting: TranscribeAccelerator, gpu_device: i32, devices: &Vec<DeviceInfo>) -> (res: i32)
    ensures
        (setting != TranscribeAccelerator::Gpu || gpu_device <= 0) ==> res == 0,
        (setting == TranscribeAccelerator::Gpu && gpu_device > 0) ==> res == (if exists|k: int|
            0 <= k < devices@.len() && devices@[k].index == Some(gpu_device as usize) && is_gpu_kind(
                #[trigger] devices@[k].kind@,
            ) {
            gpu_device
        } else {
            0i32
        }),
{
    if setting != TranscribeAccelerator::Gpu || gpu_device <= 0 {
        return 0;
    }
    let wanted = gpu_device as usize;
    let mut i: usize = 0;
    while i < devices.len()
        invariant
            0 <= i <= devices@.len(),
            wanted == gpu_device as usize,
            setting == TranscribeAccelerator::Gpu,
            gpu_device > 0,
            forall|j: int| 0 <= j < i ==> !(devices@[j].index == Some(wanted) && is_gpu_kind(#[trigger] devices@[j].kind@)),
        decreases devices@.len() - i,
    {
        if devices[i].index == Some(wanted) && is_gpu(devices[i].kind.as_str()) {
            return gpu_device;
        }
        i = i + 1;
    }
    0
}

/// A GPU the settings UI offers.
#[derive(Debug)]
pub struct GpuDeviceOption {
    /// The device's registry index, as fed back for selection.
    pub id: i32,
    pub name: String,
    pub total_vram_mb: usize,
}

/// The name a device is shown under: its description, or its name when the
/// description is empty.
pub open spec fn device_label(d: DeviceInfo) -> Seq<char> {
    if d.description@.len() == 0 { d.name@ } else { d.description@ }
}

/// The option a GPU device is offered as: `(id, label, memory in MiB)`.
pub open spec fn gpu_option(d: DeviceInfo) -> (i32, Seq<char>, usize) {
    (
        (match d.index { Some(x) => x, None => 0usize }) as i32,
        device_label(d),
        (d.memory_total / 1048576) as usize,
    )
}

/// The options offered for a list of devices: one per GPU device, in order.
pub open spec fn gpu_options(devices: Seq<DeviceInfo>) -> Seq<(i32, Seq<char>, usize)>
    decreases devices.len(),
{
    if devices.len() == 0 {
        Seq::empty()
    } else if is_gpu_kind(devices.last().kind@) {
        gpu_options(devices.drop_last()).push(gpu_option(devices.last()))
    } else {
        gpu_options(devices.drop_last())
    }
}

/// The abstract form of an offered option.
pub open spec fn option_view(o: GpuDeviceOption) -> (i32, Seq<char>, usize) {
    (o.id, o.name@, o.total_vram_mb)
}

/// The GPU devices offered in the settings UI: every device that is neither
/// the CPU nor an accelerator, in registry order, with its registry index (0
/// when it has none), its label, and its memory in whole MiB.
pub fn gpu_device_options(devices: &Vec<DeviceInfo>) -> (res: Vec<GpuDeviceOption>)
    ensures
        res@.map_values(|o: GpuDeviceOption| option_view(o)) == gpu_options(devices@),
{
    let mut out: Vec<GpuDeviceOption> = Vec::new();
    let mut i: usize = 0;
    while i < devices.len()
        invariant
            0 <= i <= devices@.len(),
            out@.map_values(|o: GpuDeviceOption| option_view(o)) == gpu_options(devices@.take(i as int)),
        decreases devices@.len() - i,
    {
        let d = &devices[i];
        proof {
            assert(devices@.take(i + 1).drop_last() == devices@.take(i as int));
            assert(devices@.take(i + 1).last() == *d);
        }
        if is_gpu(d.kind.as_str()) {
            let id = match d.index {
                Some(x) => x,
                None => 0,
            } as i32;
            let name = if d.description.as_str().is_empty() {
                d.name.clone()
            } else {
                d.description.clone()
            };
            let vram = (d.memory_total / 1048576) as usize;
            let ghost before = out@.map_values(|o: GpuDeviceOption| option_view(o));
            out.push(GpuDeviceOption { id, name, total_vram_mb: vram });
            assert(out@.map_values(|o: GpuDeviceOption| option_view(o)) =~= before.push(gpu_option(*d)));
        }
        i = i + 1;
    }
    assert(devices@.take(devices@.len() as int) == devices@);
    out
}

/// The text of one `--list-devices` line.
pub open spec fn device_line(d: DeviceInfo) -> Seq<char> {
    "index="@ + (match d.index { Some(x) => decimal_digits(x as nat), None => "-"@ }) + " kind="@
        + d.kind@ + " name="@ + device_label(d) + " vram="@ + decimal_digits(d.memory_total as nat / 1048576)
        + "MB"@
}

/// Human-readable list of the registered compute devices, one line each.
pub fn describe_compute_devices(devices: &Vec<DeviceInfo>) -> (res: Vec<String>)
    ensures
        res@.len() == devices@.len(),
        forall|k: int| 0 <= k < devices@.len() ==> #[trigger] res@[k]@ == device_line(devices@[k]),
{
    let mut out: Vec<String> = Vec::new();
    let mut i: usize = 0;
    while i < devices.len()
        invariant
            0 <= i <= devices@.len(),
            out@.len() == i,
            forall|k: int| 0 <= k < i ==> #[trigger] out@[k]@ == device_line(devices@[k]),
        decreases devices@.len() - i,
    {
        let d = &devices[i];
        let mut line = String::from_str("index=");
        match d.index {
            Some(x) => {
                let s = decimal_u64(x as u64);
                line.append(s.as_str());
            },
            None => line.append("-"),
        }
        line.append(" kind=");
        line.append(d.kind.as_str());
        line.append(" name=");
        if d.description.as_str().is_empty() {
            line.append(d.name.as_str());
        } else {
            line.append(d.description.as_str());
        }
        line.append(" vram=");
        let v = decimal_u64(d.memory_total / 1048576);
        line.append(v.as_str());
        line.append("MB");
        out.push(line);
        i = i + 1;
    }
    out
}

/// Which accelerators this build offers.
#[derive(Debug)]
pub struct AvailableAccelerators {
    pub transcribe: Vec<String>,
    pub ort: Vec<String>,
    pub gpu_devices: Vec<GpuDeviceOption>,
}

/// The accelerators offered: `auto`, `cpu` and `gpu` for transcribe-cpp, the
/// ONNX Runtime providers compiled in, and the GPU devices.
pub fn get_available_accelerators(ort: Vec<String>, devices: &Vec<DeviceInfo>) -> (res: AvailableAccelerators)
    ensures
        string_views(res.transcribe@) == seq!["auto"@, "cpu"@, "gpu"@],
        res.ort@ == ort@,
        res.gpu_devices@.map_values(|o: GpuDeviceOption| option_view(o)) == gpu_options(devices@),
{
    let mut transcribe: Vec<String> = Vec::new();
    transcribe.push(String::from_str("auto"));
    transcribe.push(String::from_str("cpu"));
    transcribe.push(String::from_str("gpu"));
    assert(string_views(transcribe@) =~= seq!["auto"@, "cpu"@, "gpu"@]);
    AvailableAccelerators { transcribe, ort, gpu_devices: gpu_device_options(devices) }
}

} // verus!
