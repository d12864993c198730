use dictum_core::streaming::{
    chunking_for, live_remainder, pastes_live, stream_start, worker_action, ChunkingKind, StreamCommand,
    StreamStart, StreamTranscript, TranscriptionMode, WorkerAction,
};

#[test]
fn live_paste_modes() {
    assert!(pastes_live(TranscriptionMode::Stream));
    assert!(pastes_live(TranscriptionMode::Realtime));
    assert!(!pastes_live(TranscriptionMode::BatchStream));
    assert!(!pastes_live(TranscriptionMode::Standard));
    assert_eq!(chunking_for(TranscriptionMode::Realtime), ChunkingKind::EnergyAdaptive);
    assert_eq!(chunking_for(TranscriptionMode::Stream), ChunkingKind::VoiceActivity);
    assert_eq!(chunking_for(TranscriptionMode::BatchStream), ChunkingKind::VoiceActivity);
}

#[test]
fn remainder_is_what_was_not_pasted() {
    assert_eq!(live_remainder("hello world again", "hello world"), "again");
    assert_eq!(live_remainder("héllo wörld", "héllo"), "wörld");
    assert_eq!(live_remainder("short", "much longer text"), "");
    assert_eq!(live_remainder("same", "same"), "");
}

#[test]
fn live_session_pastes_chunks_then_the_remainder() {
    let mut t = StreamTranscript::new();
    assert_eq!(t.record_feed("  hello ", true), Some("hello".to_string()));
    assert_eq!(t.record_feed("   ", true), None);
    assert_eq!(t.record_feed("world", true), Some("world".to_string()));
    assert_eq!(t.already_pasted(), "hello world");
    let done = t.finish(" hello world, how are you ", true);
    assert_eq!(done.combined_text.as_deref(), Some("hello world, how are you"));
    assert_eq!(done.paste.as_deref(), Some(", how are you"));
}

#[test]
fn batch_stream_session_pastes_nothing_live() {
    let mut t = StreamTranscript::new();
    assert_eq!(t.record_feed("hello", false), None);
    let done = t.finish("hello there", false);
    assert_eq!(done.combined_text.as_deref(), Some("hello there"));
    assert_eq!(done.paste, None);
    let empty = StreamTranscript::new().finish("  ", true);
    assert_eq!(empty.combined_text, None);
    assert_eq!(empty.paste, None);
}

#[test]
fn worker_answers_finalize_exactly_once() {
    assert_eq!(worker_action(true, StreamCommand::Feed), WorkerAction::FeedStream);
    assert_eq!(worker_action(false, StreamCommand::Feed), WorkerAction::DropFrame);
    assert_eq!(worker_action(true, StreamCommand::Finalize), WorkerAction::FinalizeAndReply);
    assert_eq!(worker_action(false, StreamCommand::Finalize), WorkerAction::ReplyNoStream);
    assert_eq!(worker_action(true, StreamCommand::Cancel), WorkerAction::ResetAndStop);
    assert_eq!(worker_action(false, StreamCommand::Cancel), WorkerAction::Stop);
    assert_eq!(stream_start(false, true), StreamStart::NoEngine);
    assert_eq!(stream_start(true, false), StreamStart::Unsupported);
    assert_eq!(stream_start(true, true), StreamStart::Begin);
}
