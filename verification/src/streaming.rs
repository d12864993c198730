//! Streaming transcription sessions: which modes paste text while the user
//! speaks, what the streaming worker does with each command it receives, and
//! what a finished session keeps and pastes.
//!
//! In the live-paste modes every chunk recognised while recording is pasted
//! at once; when the session finishes, the chunker returns the whole text, and
//! only the part beyond what was already pasted (the remainder) is pasted.

use vstd::prelude::*;
use vstd::string::*;
use vstd::utf8::*;
use crate::scan::{trim, trim_chars, trim_end, trim_start, TrimSet};
use crate::text::{chars_of, join_strings, join_with, string_from_chars, string_views};

verus! {

/// How recordings are transcribed.
#[derive(Debug, Clone, Copy, PartialEq, Eq, Structural)]
pub enum TranscriptionMode {
    /// One batch transcription after recording stops.
    Standard,
    /// Voice-activity chunks transcribed and pasted while recording.
    Stream,
    /// Voice-activity chunks transcribed while recording, pasted at the end.
    BatchStream,
    /// Fixed-length chunks transcribed and pasted while recording.
    Realtime,
}

/// Whether a mode pastes each recognised chunk as soon as it is transcribed.
pub fn pastes_live(mode: TranscriptionMode) -> (res: bool)
    ensures
        res == (mode == TranscriptionMode::Stream || mode == TranscriptionMode::Realtime),
{
    mode == TranscriptionMode::Stream || mode == TranscriptionMode::Realtime
}

/// How a streaming session cuts the audio into chunks.
#[derive(Debug, Clone, Copy, PartialEq, Eq, Structural)]
pub enum ChunkingKind {
    /// Chunks of about the configured length, cut at low-energy frames.
    EnergyAdaptive,
    /// Chunks cut at pauses found by voice-activity detection.
    VoiceActivity,
}

/// The chunking of a streaming mode. The standard mode has no streaming
/// session.
pub fn chunking_for(mode: TranscriptionMode) -> (res: ChunkingKind)
    requires
        mode != TranscriptionMode::Standard,
    ensures
        mode == TranscriptionMode::Realtime ==> res == ChunkingKind::EnergyAdaptive,
        mode != TranscriptionMode::Realtime ==> res == ChunkingKind::VoiceActivity,
{
    match mode {
        TranscriptionMode::Realtime => ChunkingKind::EnergyAdaptive,
        _ => ChunkingKind::VoiceActivity,
    }
}

/// `s` without leading and trailing white space (as `str::trim`).
fn trimmed(s: &str) -> (res: String)
    ensures
        res@ == trim(s@, TrimSet::WhiteSpace),
{
    let cs = chars_of(s);
    let t = trim_chars(cs.as_slice(), TrimSet::WhiteSpace);
    string_from_chars(t.as_slice())
}

// ---------------------------------------------------------------------------
// The remainder of a live-pasted session
// ---------------------------------------------------------------------------

/// Whether the already-pasted text ends, counted in UTF-8 bytes, at a
/// character boundary of the full text (or beyond its end). Taking the
/// remainder at a position inside a character is impossible.
pub open spec fn remainder_in_bounds(full: Seq<char>, pasted: Seq<char>) -> bool {
    encode_utf8(full).len() > encode_utf8(pasted).len() ==> is_char_boundary(
        encode_utf8(full),
        encode_utf8(pasted).len() as int,
    )
}

/// The text still to paste: the full text past the byte length of what was
/// already pasted, trimmed; nothing when the full text is not longer.
pub open spec fn live_remainder_spec(full: Seq<char>, pasted: Seq<char>) -> Seq<char> {
    let bytes = encode_utf8(full);
    let k = encode_utf8(pasted).len();
    if bytes.len() > k {
        trim(decode_utf8(bytes.subrange(k as int, bytes.len() as int)), TrimSet::WhiteSpace)
    } else {
        Seq::empty()
    }
}

/// The part of the session's full text that was not pasted yet.
pub fn live_remainder(full_text: &str, already_pasted: &str) -> (res: String)
    requires
        remainder_in_bounds(full_text@, already_pasted@),
    ensures
        res@ == live_remainder_spec(full_text@, already_pasted@),
{
    let k = already_pasted.as_bytes().len();
    let n = full_text.as_bytes().len();
    assert(full_text.spec_bytes() == encode_utf8(full_text@));
    assert(already_pasted.spec_bytes() == encode_utf8(already_pasted@));
    if n > k {
        let (_, tail) = full_text.split_at(k);
        proof {
            encode_utf8_decode_utf8(tail@);
        }
        trimmed(tail)
    } else {
        String::new()
    }
}

proof fn lemma_encode_utf8_concat(a: Seq<char>, b: Seq<char>)
    ensures
        encode_utf8(a + b) == encode_utf8(a) + encode_utf8(b),
    decreases a.len(),
{
    if a.len() == 0 {
        assert(a + b =~= b);
        assert(encode_utf8(a) + encode_utf8(b) =~= encode_utf8(b));
    } else {
        lemma_encode_utf8_concat(a.drop_first(), b);
        assert((a + b).drop_first() =~= a.drop_first() + b);
        assert((a + b)[0] == a[0]);
        assert(encode_utf8(a + b) =~= encode_utf8(a) + encode_utf8(b));
    }
}

proof fn lemma_encode_utf8_nonempty(a: Seq<char>)
    requires
        a.len() > 0,
    ensures
        encode_utf8(a).len() > 0,
{
    assert(encode_scalar(a[0] as u32).len() > 0);
}

proof fn lemma_boundary_after_prefix(a: Seq<char>, b: Seq<char>)
    ensures
        is_char_boundary(encode_utf8(a + b), encode_utf8(a).len() as int),
    decreases a.len(),
{
    let bytes = encode_utf8(a + b);
    encode_utf8_valid_utf8(a + b);
    if a.len() > 0 {
        lemma_encode_utf8_concat(a, b);
        lemma_encode_utf8_nonempty(a);
        encode_utf8_first_scalar(a + b);
        lemma_boundary_after_prefix(a.drop_first(), b);
        assert((a + b).drop_first() =~= a.drop_first() + b);
        assert((a + b)[0] == a[0]);
        let first = encode_scalar(a[0] as u32);
        assert(bytes == first + encode_utf8(a.drop_first() + b));
        assert(pop_first_scalar(bytes) =~= encode_utf8(a.drop_first() + b));
        assert(encode_utf8(a) == first + encode_utf8(a.drop_first()));
    }
}

/// Law: when the full text of a live session is what was already pasted
/// followed by more text, the remainder can always be taken, and it is
/// exactly that further text, trimmed: nothing is pasted twice or lost.
pub proof fn law_remainder_completes_live_paste(pasted: Seq<char>, rest: Seq<char>)
    ensures
        remainder_in_bounds(pasted + rest, pasted),
        live_remainder_spec(pasted + rest, pasted) == trim(rest, TrimSet::WhiteSpace),
{
    lemma_encode_utf8_concat(pasted, rest);
    lemma_boundary_after_prefix(pasted, rest);
    let bytes = encode_utf8(pasted + rest);
    let k = encode_utf8(pasted).len();
    assert(bytes.subrange(k as int, bytes.len() as int) =~= encode_utf8(rest));
    encode_utf8_decode_utf8(rest);
    if rest.len() > 0 {
        lemma_encode_utf8_nonempty(rest);
    } else {
        assert(trim_start(rest, TrimSet::WhiteSpace) == rest);
        assert(trim_end(rest, TrimSet::WhiteSpace) == rest);
    }
}

// ---------------------------------------------------------------------------
// The text of a streaming session
// ---------------------------------------------------------------------------

/// What the streaming worker has recognised so far: the non-empty chunk texts,
/// trimmed, in order.
pub struct StreamTranscript {
    feed_texts: Vec<String>,
}

impl View for StreamTranscript {
    type V = Seq<Seq<char>>;

    closed spec fn view(&self) -> Seq<Seq<char>> {
        string_views(self.feed_texts@)
    }
}

/// What a finished session keeps and pastes.
#[derive(Debug)]
pub struct StreamFinish {
    /// The session's text for history and post-processing, when not empty.
    pub combined_text: Option<String>,
    /// The text still to paste, in the live-paste modes.
    pub paste: Option<String>,
}

impl StreamTranscript {
    /// Nothing recognised yet.
    pub fn new() -> (res: StreamTranscript)
        ensures
            res@ == Seq::<Seq<char>>::empty(),
    {
        let t = StreamTranscript { feed_texts: Vec::new() };
        assert(t@ =~= Seq::<Seq<char>>::empty());
        t
    }

    /// Record a chunk's text. Blank text is ignored; otherwise the trimmed
    /// text is kept and, in a live-paste mode, returned for pasting.
    pub fn record_feed(&mut self, text: &str, pastes_live: bool) -> (res: Option<String>)
        ensures
            trim(text@, TrimSet::WhiteSpace).len() == 0 ==> final(self)@ == old(self)@ && res is None,
            trim(text@, TrimSet::WhiteSpace).len() > 0 ==> final(self)@ == old(self)@.push(
                trim(text@, TrimSet::WhiteSpace),
            ),
            trim(text@, TrimSet::WhiteSpace).len() > 0 && pastes_live ==> (res matches Some(p) && p@
                == trim(text@, TrimSet::WhiteSpace)),
            !pastes_live ==> res is None,
    {
        let t = trimmed(text);
        if t.as_str().is_empty() {
            return None;
        }
        let ghost before = self@;
        let paste = if pastes_live {
            Some(t.clone())
        } else {
            None
        };
        self.feed_texts.push(t);
        assert(self@ =~= before.push(trim(text@, TrimSet::WhiteSpace)));
        paste
    }

    /// Everything pasted while recording, as one text: the chunks joined by
    /// single spaces.
    pub fn already_pasted(&self) -> (res: String)
        ensures
            res@ == join_with(self@, " "@),
    {
        join_strings(&self.feed_texts, " ")
    }

    /// Finish the session with the chunker's full text. Blank text leaves
    /// nothing; otherwise the trimmed text is the session's text, and in a
    /// live-paste mode the part not pasted yet is pasted, if not empty.
    pub fn finish(&self, text: &str, pastes_live: bool) -> (res: StreamFinish)
        requires
            pastes_live && trim(text@, TrimSet::WhiteSpace).len() > 0 ==> remainder_in_bounds(
                trim(text@, TrimSet::WhiteSpace),
                join_with(self@, " "@),
            ),
        ensures
            trim(text@, TrimSet::WhiteSpace).len() == 0 ==> res.combined_text is None && res.paste is None,
            trim(text@, TrimSet::WhiteSpace).len() > 0 ==> (res.combined_text matches Some(c) && c@
                == trim(text@, TrimSet::WhiteSpace)),
            !pastes_live ==> res.paste is None,
            pastes_live && trim(text@, TrimSet::WhiteSpace).len() > 0 ==> ({
                let r = live_remainder_spec(trim(text@, TrimSet::WhiteSpace), join_with(self@, " "@));
                if r.len() > 0 {
                    res.paste matches Some(p) && p@ == r
                } else {
                    res.paste is None
                }
            }),
    {
        let full = trimmed(text);
        if full.as_str().is_empty() {
            return StreamFinish { combined_text: None, paste: None };
        }
        let paste = if pastes_live {
            let already = self.already_pasted();
            let remainder = live_remainder(full.as_str(), already.as_str());
            if remainder.as_str().is_empty() {
                None
            } else {
                Some(remainder)
            }
        } else {
            None
        };
        StreamFinish { combined_text: Some(full), paste }
    }
}

// ---------------------------------------------------------------------------
// The streaming worker
// ---------------------------------------------------------------------------

/// A command sent to the streaming worker. Audio frames travel with `Feed`;
/// frames and the final command share one channel, so every frame fed before
/// `Finalize` is processed first.
#[derive(Debug, Clone, Copy, PartialEq, Eq, Structural)]
pub enum StreamCommand {
    Feed,
    Finalize,
    Cancel,
}

/// What the worker does with a command.
#[derive(Debug, Clone, Copy, PartialEq, Eq, Structural)]
pub enum WorkerAction {
    /// Feed the frame to the running stream (and show changed text).
    FeedStream,
    /// Discard the frame: no stream runs.
    DropFrame,
    /// Finalize the stream, reply with its text, and stop.
    FinalizeAndReply,
    /// Reply that no stream ran, so the caller transcribes in batch, and stop.
    ReplyNoStream,
    /// Reset the stream without producing text, and stop.
    ResetAndStop,
    /// Stop.
    Stop,
}

/// Whether an action ends the worker.
pub open spec fn stops_worker(a: WorkerAction) -> bool {
    !(a == WorkerAction::FeedStream || a == WorkerAction::DropFrame)
}

/// Whether an action answers a finalize request.
pub open spec fn replies(a: WorkerAction) -> bool {
    a == WorkerAction::FinalizeAndReply || a == WorkerAction::ReplyNoStream
}

/// The worker's answer to one command, with or without a running stream.
/// Frames feed a running stream and are discarded otherwise; `Finalize` is
/// answered (with the stream's text, or with "no stream") and ends the
/// worker; `Cancel` ends it without an answer.
pub fn worker_action(stream_running: bool, cmd: StreamCommand) -> (res: WorkerAction)
    ensures
        res == match cmd {
            StreamCommand::Feed => if stream_running {
                WorkerAction::FeedStream
            } else {
                WorkerAction::DropFrame
            },
            StreamCommand::Finalize => if stream_running {
                WorkerAction::FinalizeAndReply
            } else {
                WorkerAction::ReplyNoStream
            },
            StreamCommand::Cancel => if stream_running {
                WorkerAction::ResetAndStop
            } else {
                WorkerAction::Stop
            },
        },
        stops_worker(res) <==> cmd != StreamCommand::Feed,
        replies(res) <==> cmd == StreamCommand::Finalize,
{
    match cmd {
        StreamCommand::Feed => if stream_running {
            WorkerAction::FeedStream
        } else {
            WorkerAction::DropFrame
        },
        StreamCommand::Finalize => if stream_running {
            WorkerAction::FinalizeAndReply
        } else {
            WorkerAction::ReplyNoStream
        },
        StreamCommand::Cancel => if stream_running {
            WorkerAction::ResetAndStop
        } else {
            WorkerAction::Stop
        },
    }
}

/// How a streaming worker begins.
#[derive(Debug, Clone, Copy, PartialEq, Eq, Structural)]
pub enum StreamStart {
    /// The model was unloaded before streaming began: drain until finalize.
    NoEngine,
    /// The model cannot stream: give the engine back and drain until finalize.
    Unsupported,
    /// Begin the stream.
    Begin,
}

/// How the worker begins, from whether it got the engine and whether the
/// model streams.
pub fn stream_start(engine_taken: bool, supports_streaming: bool) -> (res: StreamStart)
    ensures
        !engine_taken ==> res == StreamStart::NoEngine,
        engine_taken && !supports_streaming ==> res == StreamStart::Unsupported,
        engine_taken && supports_streaming ==> res == StreamStart::Begin,
{
    if !engine_taken {
        StreamStart::NoEngine
    } else if !supports_streaming {
        StreamStart::Unsupported
    } else {
        StreamStart::Begin
    }
}

} // verus!
