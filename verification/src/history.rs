//! Decisions of the history commands: the recording retention setting and
//! the checks around retranscribing a history entry.

use vstd::prelude::*;
use vstd::string::*;
use crate::text::str_eq;

verus! {

/// How long recordings are kept.
#[derive(Debug, Clone, Copy, PartialEq, Eq, Structural)]
pub enum RecordingRetentionPeriod {
    Never,
    PreserveLimit,
    Days3,
    Weeks2,
    Months3,
}

/// The retention period a settings value names, if any.
pub open spec fn retention_for(period: Seq<char>) -> Option<RecordingRetentionPeriod> {
    if period == "never"@ {
        Some(RecordingRetentionPeriod::Never)
    } else if period == "preserve_limit"@ {
        Some(RecordingRetentionPeriod::PreserveLimit)
    } else if period == "days3"@ {
        Some(RecordingRetentionPeriod::Days3)
    } else if period == "weeks2"@ {
        Some(RecordingRetentionPeriod::Weeks2)
    } else if period == "months3"@ {
        Some(RecordingRetentionPeriod::Months3)
    } else {
        None
    }
}

/// Parse the retention period sent by the settings UI.
pub fn parse_retention_period(period: &str) -> (res: Result<RecordingRetentionPeriod, String>)
    ensures
        match retention_for(period@) {
            Some(p) => res == Ok::<RecordingRetentionPeriod, String>(p),
            None => res matches Err(m) && m@ == "Invalid retention period: "@ + period@,
        },
{
    if str_eq(period, "never") {
        Ok(RecordingRetentionPeriod::Never)
    } else if str_eq(period, "preserve_limit") {
        Ok(RecordingRetentionPeriod::PreserveLimit)
    } else if str_eq(period, "days3") {
        Ok(RecordingRetentionPeriod::Days3)
    } else if str_eq(period, "weeks2") {
        Ok(RecordingRetentionPeriod::Weeks2)
    } else if str_eq(period, "months3") {
        Ok(RecordingRetentionPeriod::Months3)
    } else {
        let mut m = String::from_str("Invalid retention period: ");
        m.append(period);
        Err(m)
    }
}

/// Sample rate of recorded audio.
pub const RECORDING_SAMPLE_RATE: usize = 16000;

/// Longest recording transcribed in one shot, in seconds; longer ones are
/// transcribed in voice-activity chunks.
pub const SINGLE_SHOT_MAX_SECS: usize = 30;

/// How a history entry is retranscribed.
#[derive(Debug, Clone, Copy, PartialEq, Eq, Structural)]
pub enum RetryMode {
    /// One batch transcription of the whole recording.
    SingleShot,
    /// Voice-activity chunked transcription, for recordings over 30 s.
    Chunked,
}

/// The plan for retranscribing a recording of `sample_count` samples at
/// 16 kHz: a recording without samples is refused; up to 30 s goes in one
/// shot, longer in chunks.
pub fn retry_plan(sample_count: usize) -> (res: Result<RetryMode, String>)
    ensures
        sample_count == 0 ==> (res matches Err(m) && m@ == "Recording has no audio samples"@),
        0 < sample_count <= 480000 ==> res == Ok::<RetryMode, String>(RetryMode::SingleShot),
        sample_count > 480000 ==> res == Ok::<RetryMode, String>(RetryMode::Chunked),
{
    if sample_count == 0 {
        return Err(String::from_str("Recording has no audio samples"));
    }
    if sample_count <= RECORDING_SAMPLE_RATE * SINGLE_SHOT_MAX_SECS {
        Ok(RetryMode::SingleShot)
    } else {
        Ok(RetryMode::Chunked)
    }
}

/// A retranscription that produced no text is refused.
pub fn check_retry_transcription(transcription: &str) -> (res: Result<(), String>)
    ensures
        transcription@.len() == 0 ==> (res matches Err(m) && m@ == "Recording contains no speech"@),
        transcription@.len() > 0 ==> res is Ok,
{
    if transcription.is_empty() {
        return Err(String::from_str("Recording contains no speech"));
    }
    Ok(())
}

/// The error for a history entry that does not exist.
pub fn entry_not_found(id: i64) -> (res: String)
    ensures
        res@ == "History entry "@ + crate::text::decimal_text(id as int) + " not found"@,
{
    let mut m = String::from_str("History entry ");
    let d = crate::text::decimal_i64(id);
    m.append(d.as_str());
    m.append(" not found");
    m
}

} // verus!
