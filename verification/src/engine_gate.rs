//! Single admission authority for the transcription engine.
//!
//! Every job that uses or mutates the loaded engine (dictation, history
//! retranscription, IPC calls, maintenance) must hold an [`EngineReservation`]
//! issued by an [`EngineGate`]. Background jobs get an immediate typed
//! [`EngineBusy`] instead of queueing; a dictation never fails while a
//! background job runs: it takes the single pending slot and receives the
//! engine atomically when the current holder's last handle is released.
//!
//! The lock is a plain state machine. Sharing it between threads (a mutex, a
//! condition variable for waiting on a handoff, releasing on drop) is the
//! caller's plumbing around these transitions; every transition here keeps
//! the lock well formed, so the lock is never observed free while a dictation
//! is pending.

use vstd::prelude::*;
use vstd::string::*;

verus! {

/// The kind of job holding (or requesting) the engine.
#[derive(Debug, Clone, Copy, PartialEq, Eq, Structural)]
pub enum EngineJobKind {
    /// A live dictation session.
    Dictation,
    /// Retranscription of a history entry.
    Retry,
    /// A `transcribe.file` request from the local IPC server.
    Ipc,
    /// The one-shot command-line transcription path.
    Cli,
    /// Idle unload, manual unload, model switching.
    Maintenance,
}

/// Human-readable description of a job kind, as used in busy messages.
pub open spec fn job_kind_text(kind: EngineJobKind) -> Seq<char> {
    match kind {
        EngineJobKind::Dictation => "dictation"@,
        EngineJobKind::Retry => "a history retranscription"@,
        EngineJobKind::Ipc => "an IPC transcription"@,
        EngineJobKind::Cli => "a command-line transcription"@,
        EngineJobKind::Maintenance => "engine maintenance"@,
    }
}

impl EngineJobKind {
    /// The description used when naming this job in messages.
    pub fn describe(self) -> (res: &'static str)
        ensures
            res@ == job_kind_text(self),
    {
        match self {
            EngineJobKind::Dictation => "dictation",
            EngineJobKind::Retry => "a history retranscription",
            EngineJobKind::Ipc => "an IPC transcription",
            EngineJobKind::Cli => "a command-line transcription",
            EngineJobKind::Maintenance => "engine maintenance",
        }
    }
}

/// Typed "engine is busy" failure naming the job that holds the engine.
#[derive(Debug)]
pub struct EngineBusy {
    pub holder: EngineJobKind,
}

impl EngineBusy {
    /// The user-facing message: `the transcription engine is busy with <holder>`.
    pub fn message(&self) -> (res: String)
        ensures
            res@ == "the transcription engine is busy with "@ + job_kind_text(self.holder),
    {
        let mut s = String::from_str("the transcription engine is busy with ");
        s.append(self.holder.describe());
        s
    }
}

/// Abstract state of a lock.
pub struct GateModel {
    /// Identity of the lock; reservations carry it.
    pub gate_id: u64,
    /// The token the next reservation will receive.
    pub next_token: u64,
    /// The job owning the engine: `(token, kind)`. `None` = free.
    pub holder: Option<(u64, EngineJobKind)>,
    /// Live handles (clones) of the holder's reservation.
    pub holder_handles: nat,
    /// Token of the dictation waiting for the handoff.
    pub pending: Option<u64>,
    /// Live handles of the pending dictation's reservation.
    pub pending_handles: nat,
}

impl GateModel {
    /// The lock invariant: a pending dictation implies a held lock, live
    /// reservations have live handles, and tokens are distinct and issued.
    pub open spec fn well_formed(self) -> bool {
        &&& self.next_token >= 1
        &&& (self.holder is None ==> self.pending is None && self.holder_handles == 0)
        &&& (self.holder matches Some((t, _)) ==> 1 <= t < self.next_token && self.holder_handles >= 1)
        &&& (self.pending is None ==> self.pending_handles == 0)
        &&& (self.pending matches Some(p) ==> {
            &&& 1 <= p < self.next_token
            &&& self.pending_handles >= 1
            &&& (self.holder matches Some((t, _)) && t != p)
        })
    }

    /// Whether `token` currently holds the engine.
    pub open spec fn is_holder(self, token: u64) -> bool {
        self.holder matches Some((t, _)) && t == token
    }

    /// The token holding the engine (meaningful when the lock is held).
    pub open spec fn holder_token(self) -> u64 {
        match self.holder {
            Some((t, _)) => t,
            None => 0,
        }
    }

    /// The kind of the job holding the engine, if any.
    pub open spec fn holder_kind(self) -> Option<EngineJobKind> {
        match self.holder {
            Some((_, k)) => Some(k),
            None => None,
        }
    }

    /// Outcome of a background reservation: the new token, or the busy holder.
    pub open spec fn try_reserve_outcome(self) -> Result<u64, EngineJobKind> {
        match self.holder {
            Some((_, k)) => Err(k),
            None => match self.pending {
                Some(_) => Err(EngineJobKind::Dictation),
                None => Ok(self.next_token),
            },
        }
    }

    /// State after a background reservation of `kind`.
    pub open spec fn after_try_reserve(self, kind: EngineJobKind) -> GateModel {
        match self.try_reserve_outcome() {
            Ok(t) => GateModel {
                next_token: (t + 1) as u64,
                holder: Some((t, kind)),
                holder_handles: 1,
                ..self
            },
            Err(_) => self,
        }
    }

    /// Outcome of a dictation reservation: the new token, or the busy holder
    /// when the pending slot is already taken.
    pub open spec fn reserve_dictation_outcome(self) -> Result<u64, EngineJobKind> {
        match self.holder {
            None => Ok(self.next_token),
            Some((_, k)) => match self.pending {
                Some(_) => Err(k),
                None => Ok(self.next_token),
            },
        }
    }

    /// State after a dictation reservation. A token is consumed either way.
    pub open spec fn after_reserve_dictation(self) -> GateModel {
        let t = self.next_token;
        let bumped = GateModel { next_token: (t + 1) as u64, ..self };
        match self.holder {
            None => GateModel {
                holder: Some((t, EngineJobKind::Dictation)),
                holder_handles: 1,
                ..bumped
            },
            Some(_) => match self.pending {
                Some(_) => bumped,
                None => GateModel { pending: Some(t), pending_handles: 1, ..bumped },
            },
        }
    }

    /// State after one more handle of `token`'s reservation is made.
    pub open spec fn after_clone(self, token: u64) -> GateModel {
        if self.is_holder(token) {
            GateModel { holder_handles: self.holder_handles + 1, ..self }
        } else if self.pending == Some(token) {
            GateModel { pending_handles: self.pending_handles + 1, ..self }
        } else {
            self
        }
    }

    /// State after one handle of `token`'s reservation is released. When the
    /// holder's last handle goes, a pending dictation takes the engine in the
    /// same step.
    pub open spec fn after_release(self, token: u64) -> GateModel {
        if self.is_holder(token) {
            if self.holder_handles > 1 {
                GateModel { holder_handles: (self.holder_handles - 1) as nat, ..self }
            } else {
                GateModel {
                    holder: match self.pending {
                        Some(p) => Some((p, EngineJobKind::Dictation)),
                        None => None,
                    },
                    holder_handles: self.pending_handles,
                    pending: None,
                    pending_handles: 0,
                    ..self
                }
            }
        } else if self.pending == Some(token) {
            if self.pending_handles > 1 {
                GateModel { pending_handles: (self.pending_handles - 1) as nat, ..self }
            } else {
                GateModel { pending: None, pending_handles: 0, ..self }
            }
        } else {
            self
        }
    }

    /// One step of waiting for `token` to become active: `Some(Ok)` once it
    /// holds the engine, `Some(Err(holder))` when the wait is given up, and
    /// `None` to keep waiting.
    pub open spec fn wait_outcome(self, token: u64, give_up: bool) -> Option<Result<(), EngineJobKind>> {
        if self.is_holder(token) {
            Some(Ok(()))
        } else if give_up {
            Some(Err(match self.holder {
                Some((_, k)) => k,
                None => EngineJobKind::Dictation,
            }))
        } else {
            None
        }
    }
}

/// Mutual exclusion plus a one-slot dictation handoff for engine jobs.
pub struct EngineGate {
    gate_id: u64,
    next_token: u64,
    holder: Option<(u64, EngineJobKind)>,
    holder_handles: u64,
    pending_dictation: Option<u64>,
    pending_handles: u64,
}

impl View for EngineGate {
    type V = GateModel;

    closed spec fn view(&self) -> GateModel {
        GateModel {
            gate_id: self.gate_id,
            next_token: self.next_token,
            holder: self.holder,
            holder_handles: self.holder_handles as nat,
            pending: self.pending_dictation,
            pending_handles: self.pending_handles as nat,
        }
    }
}

/// A handle to one logical engine job. Handles made with
/// [`EngineGate::clone_reservation`] share the job; the lock is released (with
/// handoff to a pending dictation) when the last handle is released.
#[derive(Debug)]
pub struct EngineReservation {
    gate_id: u64,
    token: u64,
}

impl View for EngineReservation {
    /// `(gate_id, token)`.
    type V = (u64, u64);

    closed spec fn view(&self) -> (u64, u64) {
        (self.gate_id, self.token)
    }
}

impl EngineGate {
    /// A free lock named `gate_id`. Reservations carry the name, so one
    /// issued by a lock with another name is refused by this one.
    pub fn new(gate_id: u64) -> (res: EngineGate)
        ensures
            res@ == (GateModel {
                gate_id,
                next_token: 1,
                holder: None,
                holder_handles: 0,
                pending: None,
                pending_handles: 0,
            }),
            res@.well_formed(),
    {
        EngineGate {
            gate_id,
            next_token: 1,
            holder: None,
            holder_handles: 0,
            pending_dictation: None,
            pending_handles: 0,
        }
    }

    /// Reserve the engine for a background job. Never waits and never queues:
    /// a held lock (or a pending dictation) yields an immediate [`EngineBusy`]
    /// naming the holder.
    pub fn try_reserve(&mut self, kind: EngineJobKind) -> (res: Result<EngineReservation, EngineBusy>)
        requires
            old(self)@.well_formed(),
            old(self)@.next_token < u64::MAX,
        ensures
            final(self)@.well_formed(),
            final(self)@ == old(self)@.after_try_reserve(kind),
            match old(self)@.try_reserve_outcome() {
                Ok(t) => res matches Ok(r) && r@ == (old(self)@.gate_id, t),
                Err(k) => res matches Err(b) && b.holder == k,
            },
    {
        if let Some((_, holder_kind)) = self.holder {
            return Err(EngineBusy { holder: holder_kind });
        }
        if self.pending_dictation.is_some() {
            return Err(EngineBusy { holder: EngineJobKind::Dictation });
        }
        let token = self.next_token;
        self.next_token = token + 1;
        self.holder = Some((token, kind));
        self.holder_handles = 1;
        Ok(EngineReservation { gate_id: self.gate_id, token })
    }

    /// Reserve the engine for a dictation session, capture-first: active at
    /// once when the lock is free, otherwise registered in the pending slot
    /// to receive the engine when the holder releases. Fails only when the
    /// pending slot is already taken.
    pub fn reserve_dictation(&mut self) -> (res: Result<EngineReservation, EngineBusy>)
        requires
            old(self)@.well_formed(),
            old(self)@.next_token < u64::MAX,
        ensures
            final(self)@.well_formed(),
            final(self)@ == old(self)@.after_reserve_dictation(),
            match old(self)@.reserve_dictation_outcome() {
                Ok(t) => res matches Ok(r) && r@ == (old(self)@.gate_id, t),
                Err(k) => res matches Err(b) && b.holder == k,
            },
    {
        let token = self.next_token;
        self.next_token = token + 1;
        match self.holder {
            None => {
                self.holder = Some((token, EngineJobKind::Dictation));
                self.holder_handles = 1;
                Ok(EngineReservation { gate_id: self.gate_id, token })
            },
            Some((_, holder_kind)) => {
                if self.pending_dictation.is_some() {
                    return Err(EngineBusy { holder: holder_kind });
                }
                self.pending_dictation = Some(token);
                self.pending_handles = 1;
                Ok(EngineReservation { gate_id: self.gate_id, token })
            },
        }
    }

    /// Whether the lock can still issue a fresh token (tokens are never
    /// reused, so a job's handles cannot be confused with a later job's).
    pub fn has_fresh_token(&self) -> (res: bool)
        ensures
            res == (self@.next_token < u64::MAX),
    {
        self.next_token < u64::MAX
    }

    /// Whether one more handle can be counted for the holding and the
    /// pending job.
    pub fn can_count_handle(&self) -> (res: bool)
        ensures
            res == (self@.holder_handles < u64::MAX && self@.pending_handles < u64::MAX),
    {
        self.holder_handles < u64::MAX && self.pending_handles < u64::MAX
    }

    /// The kind of job currently holding the engine, if any.
    pub fn holder_kind(&self) -> (res: Option<EngineJobKind>)
        ensures
            res == self@.holder_kind(),
    {
        match self.holder {
            Some((_, kind)) => Some(kind),
            None => None,
        }
    }

    /// Another handle to the same job as `reservation`. The job keeps the
    /// engine (or its pending slot) until every handle is released.
    pub fn clone_reservation(&mut self, reservation: &EngineReservation) -> (res: EngineReservation)
        requires
            old(self)@.well_formed(),
            old(self)@.holder_handles < u64::MAX,
            old(self)@.pending_handles < u64::MAX,
        ensures
            final(self)@.well_formed(),
            res@ == reservation@,
            final(self)@ == (if reservation@.0 == old(self)@.gate_id {
                old(self)@.after_clone(reservation@.1)
            } else {
                old(self)@
            }),
    {
        if reservation.gate_id == self.gate_id {
            let token = reservation.token;
            match self.holder {
                Some((t, _)) if t == token => {
                    self.holder_handles = self.holder_handles + 1;
                },
                _ => {
                    if self.pending_dictation == Some(token) {
                        self.pending_handles = self.pending_handles + 1;
                    }
                },
            }
        }
        EngineReservation { gate_id: reservation.gate_id, token: reservation.token }
    }

    /// Release one handle of `reservation`. When the holder's last handle is
    /// released and a dictation is pending, ownership passes to the dictation
    /// in the same step, so no other job can observe the lock free in between.
    /// A handle issued by another lock changes nothing.
    pub fn release(&mut self, reservation: EngineReservation)
        requires
            old(self)@.well_formed(),
        ensures
            final(self)@.well_formed(),
            final(self)@ == (if reservation@.0 == old(self)@.gate_id {
                old(self)@.after_release(reservation@.1)
            } else {
                old(self)@
            }),
    {
        if reservation.gate_id != self.gate_id {
            return;
        }
        let token = reservation.token;
        match self.holder {
            Some((held, _)) if held == token => {
                if self.holder_handles > 1 {
                    self.holder_handles = self.holder_handles - 1;
                } else {
                    self.holder = match self.pending_dictation {
                        Some(p) => Some((p, EngineJobKind::Dictation)),
                        None => None,
                    };
                    self.holder_handles = self.pending_handles;
                    self.pending_dictation = None;
                    self.pending_handles = 0;
                }
            },
            _ => {
                if self.pending_dictation == Some(token) {
                    if self.pending_handles > 1 {
                        self.pending_handles = self.pending_handles - 1;
                    } else {
                        self.pending_dictation = None;
                        self.pending_handles = 0;
                    }
                }
            },
        }
    }
}

impl EngineReservation {
    /// Whether this reservation currently holds `gate`.
    pub fn is_active(&self, gate: &EngineGate) -> (res: bool)
        ensures
            res == (self@.0 == gate@.gate_id && gate@.is_holder(self@.1)),
    {
        if self.gate_id != gate.gate_id {
            return false;
        }
        match gate.holder {
            Some((held, _)) => held == self.token,
            None => false,
        }
    }

    /// One step of waiting for this reservation to become active on `gate`:
    /// `Some(Ok(()))` once it holds the engine; otherwise, when the deadline
    /// has passed or the wait was cancelled, `Some(Err(..))` naming the
    /// current holder; otherwise `None` (keep waiting until the lock changes).
    pub fn wait_active_cancellable(&self, gate: &EngineGate, deadline_passed: bool, cancelled: bool) -> (res: Option<Result<(), EngineBusy>>)
        ensures
            match (if self@.0 == gate@.gate_id {
                gate@.wait_outcome(self@.1, deadline_passed || cancelled)
            } else {
                GateModel { holder: None, ..gate@ }.wait_outcome(self@.1, deadline_passed || cancelled)
            }) {
                Some(Ok(())) => res == Some(Ok::<(), EngineBusy>(())),
                Some(Err(k)) => res matches Some(Err(b)) && b.holder == k,
                None => res is None,
            },
    {
        if self.is_active(gate) {
            return Some(Ok(()));
        }
        if deadline_passed || cancelled {
            let holder = if self.gate_id == gate.gate_id {
                match gate.holder {
                    Some((_, kind)) => kind,
                    None => EngineJobKind::Dictation,
                }
            } else {
                EngineJobKind::Dictation
            };
            return Some(Err(EngineBusy { holder }));
        }
        None
    }

    /// Whether `other` is a handle of the same job as this reservation.
    pub fn same_session(&self, other: &EngineReservation) -> (res: bool)
        ensures
            res == (self@ == other@),
    {
        self.gate_id == other.gate_id && self.token == other.token
    }

    /// Whether this reservation was issued by `gate`.
    pub fn belongs_to(&self, gate: &EngineGate) -> (res: bool)
        ensures
            res == (self@.0 == gate@.gate_id),
    {
        self.gate_id == gate.gate_id
    }
}

/// A dictation reservation on a fresh lock of its own (named 0), for code
/// that needs a reservation without a full manager.
pub fn test_reservation() -> (res: EngineReservation)
    ensures
        res@ == (0u64, 1u64),
{
    let mut gate = EngineGate::new(0);
    match gate.try_reserve(EngineJobKind::Dictation) {
        Ok(r) => r,
        Err(_) => {
            proof {
                assert(false);
            }
            EngineReservation { gate_id: 0, token: 1 }
        },
    }
}

/// Law: the lock is never observed free while a dictation is pending.
pub proof fn law_pending_dictation_implies_held_gate(m: GateModel)
    requires
        m.well_formed(),
    ensures
        m.pending is Some ==> m.holder is Some,
{
}

/// Law: every transition keeps the lock well formed.
pub proof fn law_transitions_preserve_well_formedness(m: GateModel, kind: EngineJobKind, token: u64)
    requires
        m.well_formed(),
        m.next_token < u64::MAX,
    ensures
        m.after_try_reserve(kind).well_formed(),
        m.after_reserve_dictation().well_formed(),
        m.after_clone(token).well_formed(),
        m.after_release(token).well_formed(),
{
}

/// Law: on a free lock any job, background or dictation, gets the engine at
/// once under a fresh token.
pub proof fn law_free_gate_grants_the_engine(m: GateModel, kind: EngineJobKind)
    requires
        m.well_formed(),
        m.holder is None,
        m.next_token < u64::MAX,
    ensures
        m.try_reserve_outcome() == Ok::<u64, EngineJobKind>(m.next_token),
        m.after_try_reserve(kind).holder == Some((m.next_token, kind)),
        m.reserve_dictation_outcome() == Ok::<u64, EngineJobKind>(m.next_token),
        m.after_reserve_dictation().is_holder(m.next_token),
{
}

/// Law: a background job refused by a held lock is told who holds it, and
/// the refusal changes nothing.
pub proof fn law_busy_names_the_holder(m: GateModel, kind: EngineJobKind)
    requires
        m.well_formed(),
        m.holder is Some,
    ensures
        m.try_reserve_outcome() == Err::<u64, EngineJobKind>(m.holder_kind()->0),
        m.after_try_reserve(kind) == m,
{
}

/// Law: a dictation behind a running job is not refused; it takes the
/// pending slot and does not hold the engine yet.
pub proof fn law_dictation_pends_behind_a_running_job(m: GateModel)
    requires
        m.well_formed(),
        m.holder is Some,
        m.pending is None,
        m.next_token < u64::MAX,
    ensures
        m.reserve_dictation_outcome() == Ok::<u64, EngineJobKind>(m.next_token),
        m.after_reserve_dictation().pending == Some(m.next_token),
        m.after_reserve_dictation().holder == m.holder,
        !m.after_reserve_dictation().is_holder(m.next_token),
{
}

/// Law: while a dictation is pending, no background job can jump it; when
/// the holder's last handle is released the dictation owns the engine in the
/// same step, so a background job is still refused, now naming the dictation.
pub proof fn law_background_job_cannot_jump_a_pending_dictation(m: GateModel, kind: EngineJobKind)
    requires
        m.well_formed(),
        m.pending is Some,
        m.holder_handles == 1,
    ensures
        m.try_reserve_outcome() is Err,
        m.after_release(m.holder_token()).holder == Some((m.pending->0, EngineJobKind::Dictation)),
        m.after_release(m.holder_token()).pending is None,
        m.after_release(m.holder_token()).try_reserve_outcome()
            == Err::<u64, EngineJobKind>(EngineJobKind::Dictation),
{
}

/// Law: the pending slot holds a single dictation; a second one is refused
/// naming the current holder.
pub proof fn law_second_pending_dictation_is_refused(m: GateModel)
    requires
        m.well_formed(),
        m.pending is Some,
        m.next_token < u64::MAX,
    ensures
        m.reserve_dictation_outcome() == Err::<u64, EngineJobKind>(m.holder_kind()->0),
        m.after_reserve_dictation().holder == m.holder,
        m.after_reserve_dictation().pending == m.pending,
{
}

/// Law: handles of one job share ownership: releasing one of two handles
/// keeps the lock held, and making a handle and releasing it undoes nothing
/// but itself.
pub proof fn law_handles_share_ownership(m: GateModel, token: u64)
    requires
        m.well_formed(),
        m.is_holder(token) || m.pending == Some(token),
    ensures
        m.after_clone(token).after_release(token) == m,
        m.after_clone(token).after_release(token).holder == m.holder,
        m.is_holder(token) ==> m.after_clone(token).after_release(token).is_holder(token),
{
}

/// Law: reserving a free lock and releasing the reservation's only handle
/// leaves the lock free again.
pub proof fn law_reserve_then_release_frees_the_gate(m: GateModel, kind: EngineJobKind)
    requires
        m.well_formed(),
        m.holder is None,
        m.next_token < u64::MAX,
    ensures
        m.after_try_reserve(kind).after_release(m.next_token) == (GateModel {
            next_token: (m.next_token + 1) as u64,
            ..m
        }),
        m.after_try_reserve(kind).after_release(m.next_token).holder is None,
{
}

/// Law: a pending dictation released before the handoff leaves no trace:
/// once the holder also releases, the lock is free.
pub proof fn law_released_pending_dictation_leaves_no_handoff(m: GateModel)
    requires
        m.well_formed(),
        m.holder is Some,
        m.holder_handles == 1,
        m.pending is Some,
        m.pending_handles == 1,
    ensures
        m.after_release(m.pending->0).holder == m.holder,
        m.after_release(m.pending->0).after_release(m.holder_token()).holder is None,
        m.after_release(m.pending->0).after_release(m.holder_token()).pending is None,
{
}

/// Law: a waiter that already holds the engine is answered at once, and a
/// waiter that gives up is told who holds the engine.
pub proof fn law_wait_outcomes(m: GateModel, token: u64, give_up: bool)
    requires
        m.well_formed(),
    ensures
        m.is_holder(token) ==> m.wait_outcome(token, give_up) == Some(Ok::<(), EngineJobKind>(())),
        !m.is_holder(token) && give_up && m.holder is Some
            ==> m.wait_outcome(token, give_up) == Some(Err::<(), EngineJobKind>(m.holder_kind()->0)),
        !m.is_holder(token) && !give_up ==> m.wait_outcome(token, give_up) is None,
{
}

/// Law: a reservation never reuses a token: a granted background job or
/// dictation gets a token different from every token issued before, the
/// counter moves past it, and the new job holds the engine (a background
/// job, or a dictation on a free lock) or takes the pending slot (a
/// dictation behind a running job). A background job is refused exactly
/// when the engine is held or a dictation is pending; a dictation exactly
/// when the pending slot is taken.
pub proof fn law_reservations_are_fresh(m: GateModel, kind: EngineJobKind, earlier: u64)
    requires
        m.well_formed(),
        m.next_token < u64::MAX,
        earlier < m.next_token,
    ensures
        m.try_reserve_outcome() is Err <==> (m.holder is Some || m.pending is Some),
        m.reserve_dictation_outcome() is Err <==> (m.holder is Some && m.pending is Some),
        m.try_reserve_outcome() matches Ok(t) ==> t != earlier && m.after_try_reserve(kind).is_holder(t)
            && m.after_try_reserve(kind).next_token > t,
        m.reserve_dictation_outcome() matches Ok(t) ==> t != earlier && m.after_reserve_dictation().next_token
            > t && (m.holder is None ==> m.after_reserve_dictation().is_holder(t)) && (m.holder is Some
            ==> m.after_reserve_dictation().pending == Some(t) && !m.after_reserve_dictation().is_holder(t)),
{
}

} // verus!
