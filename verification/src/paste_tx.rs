//! Decisions of the reliable clipboard paste transaction.
//!
//! The transcript is published as a one-shot delayed-render clipboard
//! promise; the first read of it is the read receipt. A read counts only when
//! it comes from the process the paste chord was addressed to (foreground at
//! injection, or foreground now); after an untrusted read the promise is
//! re-armed, within a budget, so the target's own read stays observable. When
//! the transaction settles, the previous clipboard is restored only if the
//! clipboard is still ours, and auto-submit fires only after a trusted read.

use vstd::prelude::*;

verus! {

/// Upper bound on promise re-publications per transaction.
pub const MAX_REARMS: u32 = 10;

/// Whether a clipboard read by `reader_pid` is a trusted receipt: the reader
/// is identified and is the chord's target or the current foreground process.
/// An unidentifiable reader is never trusted.
pub fn is_trusted_receipt(reader_pid: Option<u32>, target_pid: Option<u32>, foreground_pid: Option<u32>) -> (res: bool)
    ensures
        res == (reader_pid matches Some(p) && (target_pid == Some(p) || foreground_pid == Some(p))),
{
    match reader_pid {
        Some(pid) => target_pid == Some(pid) || foreground_pid == Some(pid),
        None => false,
    }
}

/// What to do when asked to re-arm the promise.
#[derive(Debug, Clone, Copy, PartialEq, Eq, Structural)]
pub enum RearmDecision {
    /// A trusted receipt arrived, or the transaction is over: no tripwire
    /// needed any more.
    NotNeeded,
    /// The budget has just run out: say so once.
    BudgetExhausted,
    /// The budget ran out earlier: do nothing.
    Silent,
    /// Re-publish the promise.
    Rearm,
}

/// Decide a re-arm request from the transaction state and the number of
/// re-arms so far.
pub fn rearm_decision(cancelled: bool, ownership_lost: bool, receipt_after_injection: bool, rearm_count: u32) -> (res: RearmDecision)
    ensures
        res == (if cancelled || ownership_lost || receipt_after_injection {
            RearmDecision::NotNeeded
        } else if rearm_count == MAX_REARMS {
            RearmDecision::BudgetExhausted
        } else if rearm_count > MAX_REARMS {
            RearmDecision::Silent
        } else {
            RearmDecision::Rearm
        }),
{
    if cancelled || ownership_lost || receipt_after_injection {
        RearmDecision::NotNeeded
    } else if rearm_count >= MAX_REARMS {
        if rearm_count == MAX_REARMS {
            RearmDecision::BudgetExhausted
        } else {
            RearmDecision::Silent
        }
    } else {
        RearmDecision::Rearm
    }
}

/// What settling the transaction does.
#[derive(Debug, Clone, Copy, PartialEq, Eq, Structural)]
pub struct SettlePlan {
    /// Press the auto-submit key.
    pub auto_submit: bool,
    /// Restore (or settle) the clipboard; false leaves a clipboard someone
    /// else changed untouched.
    pub touch_clipboard: bool,
}

/// Settle a transaction: auto-submit only when enabled and the target
/// demonstrably read the transcript; touch the clipboard only while it is
/// still ours (ownership kept and the sequence number unchanged).
pub fn settle_plan(auto_submit_enabled: bool, receipt: bool, ownership_lost: bool, saved_sequence: u32, current_sequence: u32) -> (res: SettlePlan)
    ensures
        res.auto_submit == (auto_submit_enabled && receipt),
        res.touch_clipboard == (!ownership_lost && saved_sequence == current_sequence),
{
    SettlePlan {
        auto_submit: auto_submit_enabled && receipt,
        touch_clipboard: !ownership_lost && saved_sequence == current_sequence,
    }
}

/// Law: re-arming is bounded: from any count the promise is re-published
/// at most `MAX_REARMS - count` more times, and never once the budget is
/// spent.
pub proof fn law_rearm_budget(count: u32)
    ensures
        count >= MAX_REARMS ==> rearm_spec(count) != RearmDecision::Rearm,
        count < MAX_REARMS ==> rearm_spec(count) == RearmDecision::Rearm,
{
}

/// The decision for a live transaction without a trusted receipt.
pub open spec fn rearm_spec(count: u32) -> RearmDecision {
    if count == MAX_REARMS {
        RearmDecision::BudgetExhausted
    } else if count > MAX_REARMS {
        RearmDecision::Silent
    } else {
        RearmDecision::Rearm
    }
}

} // verus!
