//! Background probes that make silent stalls visible: a watcher that notices
//! system suspend (or a hard stall) from jumps in the clocks across a one
//! second sleep, and a heartbeat on the async runtime that notices when its
//! ticks arrive late. The timers run with the caller; these decide.

use vstd::prelude::*;

verus! {

/// How long the suspend watcher sleeps between checks, in milliseconds.
pub const SUSPEND_TICK_MS: u64 = 1000;

/// A clock gap longer than this across one tick is reported, in milliseconds.
pub const SUSPEND_REPORT_GAP_MS: u64 = 5000;

/// The heartbeat interval, in milliseconds.
pub const HEARTBEAT_INTERVAL_MS: u64 = 30000;

/// How late a heartbeat may arrive before it is reported, in milliseconds.
pub const HEARTBEAT_SLACK_MS: u64 = 5000;

/// Whether one tick of the suspend watcher saw a suspend or stall: either
/// the wall clock or the monotonic clock advanced by more than the report
/// gap.
pub fn suspend_detected(wall_gap_ms: u64, mono_gap_ms: u64) -> (res: bool)
    ensures
        res == (wall_gap_ms > SUSPEND_REPORT_GAP_MS || mono_gap_ms > SUSPEND_REPORT_GAP_MS),
{
    wall_gap_ms > SUSPEND_REPORT_GAP_MS || mono_gap_ms > SUSPEND_REPORT_GAP_MS
}

/// Whether a heartbeat arriving `gap_ms` after the previous one is late:
/// more than the slack beyond the interval.
pub fn heartbeat_late(gap_ms: u64) -> (res: bool)
    ensures
        res == (gap_ms > HEARTBEAT_INTERVAL_MS + HEARTBEAT_SLACK_MS),
{
    gap_ms > HEARTBEAT_INTERVAL_MS + HEARTBEAT_SLACK_MS
}

} // verus!
