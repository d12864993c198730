//! Operation coordinator: the lifecycle of transcription operations.
//!
//! Rapidly toggling push-to-talk must not let a stale operation finish over
//! a newer one. The coordinator guarantees that only one operation is active
//! at a time, that starting a new operation marks the previous one stale,
//! that operations can check whether they are still current before doing
//! work, and that phase transitions only happen for the current operation.

use vstd::prelude::*;
use vstd::string::*;

verus! {

/// The current phase of the operation lifecycle.
#[derive(Debug)]
pub enum OperationPhase {
    /// No operation in progress.
    Idle,
    /// Currently recording audio.
    Recording { operation_id: u64, binding_id: String },
    /// Recording stopped, transcription in progress.
    Processing { operation_id: u64, binding_id: String },
}

/// Abstract phase: the binding id is seen as its characters.
pub enum PhaseModel {
    Idle,
    Recording(u64, Seq<char>),
    Processing(u64, Seq<char>),
}

impl PhaseModel {
    /// The operation this phase belongs to, if any.
    pub open spec fn operation_id(self) -> Option<u64> {
        match self {
            PhaseModel::Idle => None,
            PhaseModel::Recording(id, _) => Some(id),
            PhaseModel::Processing(id, _) => Some(id),
        }
    }
}

impl View for OperationPhase {
    type V = PhaseModel;

    open spec fn view(&self) -> PhaseModel {
        match self {
            OperationPhase::Idle => PhaseModel::Idle,
            OperationPhase::Recording { operation_id, binding_id } => PhaseModel::Recording(
                *operation_id,
                binding_id@,
            ),
            OperationPhase::Processing { operation_id, binding_id } => PhaseModel::Processing(
                *operation_id,
                binding_id@,
            ),
        }
    }
}

impl OperationPhase {
    /// The operation id this phase belongs to, if any.
    pub fn operation_id(&self) -> (res: Option<u64>)
        ensures
            res == self@.operation_id(),
    {
        match self {
            OperationPhase::Idle => None,
            OperationPhase::Recording { operation_id, .. } => Some(*operation_id),
            OperationPhase::Processing { operation_id, .. } => Some(*operation_id),
        }
    }

    /// Whether no operation is in progress.
    pub fn is_idle(&self) -> (res: bool)
        ensures
            res == (self@ is Idle),
    {
        match self {
            OperationPhase::Idle => true,
            _ => false,
        }
    }
}

/// Abstract state of the coordinator.
pub struct CoordinatorModel {
    /// The id the next operation will receive.
    pub next_operation_id: u64,
    /// The active operation id; 0 means none.
    pub active_operation_id: u64,
    pub phase: PhaseModel,
}

impl CoordinatorModel {
    /// The coordinator invariant: ids are issued in increasing order from 1,
    /// and the phase belongs to exactly the active operation (none when idle).
    pub open spec fn well_formed(self) -> bool {
        &&& self.next_operation_id >= 1
        &&& self.active_operation_id < self.next_operation_id
        &&& self.phase.operation_id() == (if self.active_operation_id == 0 {
            None::<u64>
        } else {
            Some(self.active_operation_id)
        })
    }

    /// State after a new recording operation starts for `binding`.
    pub open spec fn after_start_recording(self, binding: Seq<char>) -> CoordinatorModel {
        CoordinatorModel {
            next_operation_id: (self.next_operation_id + 1) as u64,
            active_operation_id: self.next_operation_id,
            phase: PhaseModel::Recording(self.next_operation_id, binding),
        }
    }

    /// Whether `id` may move from recording to processing.
    pub open spec fn can_process(self, id: u64) -> bool {
        self.active_operation_id == id && (self.phase matches PhaseModel::Recording(p, _) && p == id)
    }

    /// State after asking to move operation `id` to processing.
    pub open spec fn after_transition_to_processing(self, id: u64) -> CoordinatorModel {
        if self.can_process(id) {
            match self.phase {
                PhaseModel::Recording(p, b) => CoordinatorModel {
                    phase: PhaseModel::Processing(p, b),
                    ..self
                },
                _ => self,
            }
        } else {
            self
        }
    }

    /// State after operation `id` reports completion: only the active
    /// operation completes; a superseded one changes nothing.
    pub open spec fn after_complete(self, id: u64) -> CoordinatorModel {
        if self.active_operation_id == id {
            CoordinatorModel {
                active_operation_id: 0,
                phase: if self.phase.operation_id() == Some(id) {
                    PhaseModel::Idle
                } else {
                    self.phase
                },
                ..self
            }
        } else {
            self
        }
    }

    /// State after an explicit cancellation.
    pub open spec fn after_cancel(self) -> CoordinatorModel {
        CoordinatorModel { active_operation_id: 0, phase: PhaseModel::Idle, ..self }
    }
}

/// Coordinates transcription operations so that only one is active at a time.
pub struct OperationCoordinator {
    next_operation_id: u64,
    active_operation_id: u64,
    phase: OperationPhase,
}

impl View for OperationCoordinator {
    type V = CoordinatorModel;

    closed spec fn view(&self) -> CoordinatorModel {
        CoordinatorModel {
            next_operation_id: self.next_operation_id,
            active_operation_id: self.active_operation_id,
            phase: self.phase@,
        }
    }
}

impl OperationCoordinator {
    /// An idle coordinator; the first operation gets id 1.
    pub fn new() -> (res: OperationCoordinator)
        ensures
            res@ == (CoordinatorModel {
                next_operation_id: 1,
                active_operation_id: 0,
                phase: PhaseModel::Idle,
            }),
            res@.well_formed(),
    {
        OperationCoordinator { next_operation_id: 1, active_operation_id: 0, phase: OperationPhase::Idle }
    }

    /// Start a new recording operation for `binding_id` and return its id. An
    /// operation still in progress becomes stale.
    pub fn start_recording(&mut self, binding_id: &str) -> (res: u64)
        requires
            old(self)@.well_formed(),
            old(self)@.next_operation_id < u64::MAX,
        ensures
            final(self)@.well_formed(),
            res == old(self)@.next_operation_id,
            res >= 1,
            final(self)@ == old(self)@.after_start_recording(binding_id@),
    {
        let operation_id = self.next_operation_id;
        self.next_operation_id = operation_id + 1;
        self.active_operation_id = operation_id;
        self.phase = OperationPhase::Recording {
            operation_id,
            binding_id: String::from_str(binding_id),
        };
        operation_id
    }

    /// Move operation `operation_id` from recording to processing. Returns
    /// false, changing nothing, when the operation has been superseded or is
    /// not recording.
    pub fn transition_to_processing(&mut self, operation_id: u64) -> (res: bool)
        requires
            old(self)@.well_formed(),
        ensures
            final(self)@.well_formed(),
            res == old(self)@.can_process(operation_id),
            final(self)@ == old(self)@.after_transition_to_processing(operation_id),
    {
        if !self.is_active(operation_id) {
            return false;
        }
        let next = match &self.phase {
            OperationPhase::Recording { operation_id: phase_op_id, binding_id } => {
                if *phase_op_id == operation_id {
                    Some(OperationPhase::Processing { operation_id, binding_id: binding_id.clone() })
                } else {
                    None
                }
            },
            _ => None,
        };
        match next {
            Some(phase) => {
                self.phase = phase;
                true
            },
            None => false,
        }
    }

    /// Mark operation `operation_id` complete and return to idle. A
    /// superseded operation changes nothing.
    pub fn complete(&mut self, operation_id: u64)
        requires
            old(self)@.well_formed(),
        ensures
            final(self)@.well_formed(),
            final(self)@ == old(self)@.after_complete(operation_id),
    {
        if self.active_operation_id == operation_id {
            self.active_operation_id = 0;
            if self.phase.operation_id() == Some(operation_id) {
                self.phase = OperationPhase::Idle;
            }
        }
    }

    /// Cancel the current operation, if any, and return to idle.
    pub fn cancel(&mut self)
        requires
            old(self)@.well_formed(),
        ensures
            final(self)@.well_formed(),
            final(self)@ == old(self)@.after_cancel(),
    {
        self.active_operation_id = 0;
        self.phase = OperationPhase::Idle;
    }

    /// Whether `operation_id` is still the active operation.
    pub fn is_active(&self, operation_id: u64) -> (res: bool)
        ensures
            res == (self@.active_operation_id == operation_id),
    {
        self.active_operation_id == operation_id
    }

    /// The current phase of the lifecycle.
    pub fn current_phase(&self) -> (res: OperationPhase)
        ensures
            res@ == self@.phase,
    {
        match &self.phase {
            OperationPhase::Idle => OperationPhase::Idle,
            OperationPhase::Recording { operation_id, binding_id } => OperationPhase::Recording {
                operation_id: *operation_id,
                binding_id: binding_id.clone(),
            },
            OperationPhase::Processing { operation_id, binding_id } => OperationPhase::Processing {
                operation_id: *operation_id,
                binding_id: binding_id.clone(),
            },
        }
    }

    /// Whether any operation is active.
    pub fn has_active_operation(&self) -> (res: bool)
        ensures
            res == (self@.active_operation_id != 0),
    {
        self.active_operation_id != 0
    }

    /// The active operation id, if any.
    pub fn active_operation_id(&self) -> (res: Option<u64>)
        ensures
            res == (if self@.active_operation_id == 0 {
                None::<u64>
            } else {
                Some(self@.active_operation_id)
            }),
    {
        if self.active_operation_id == 0 {
            None
        } else {
            Some(self.active_operation_id)
        }
    }
}

/// Law: every lifecycle step keeps the coordinator well formed, so at most
/// one operation is active and the phase always belongs to it.
pub proof fn law_lifecycle_preserves_well_formedness(m: CoordinatorModel, binding: Seq<char>, id: u64)
    requires
        m.well_formed(),
        m.next_operation_id < u64::MAX,
    ensures
        m.after_start_recording(binding).well_formed(),
        m.after_transition_to_processing(id).well_formed(),
        m.after_complete(id).well_formed(),
        m.after_cancel().well_formed(),
{
}

/// Law: operation ids are unique: each start hands out an id never handed out
/// before, and a later start hands out a larger one.
pub proof fn law_operation_ids_are_fresh(m: CoordinatorModel, b1: Seq<char>, b2: Seq<char>)
    requires
        m.well_formed(),
        m.next_operation_id < u64::MAX - 1,
    ensures
        m.next_operation_id > m.active_operation_id,
        m.after_start_recording(b1).active_operation_id < m.after_start_recording(b1)
            .after_start_recording(b2).active_operation_id,
{
}

/// Law: starting a new operation makes the previous one stale: it is no
/// longer active, it cannot move to processing, and its completion changes
/// nothing.
pub proof fn law_new_operation_supersedes_the_old(m: CoordinatorModel, binding: Seq<char>, old_id: u64)
    requires
        m.well_formed(),
        m.next_operation_id < u64::MAX,
        old_id < m.next_operation_id,
    ensures
        m.after_start_recording(binding).active_operation_id != old_id,
        !m.after_start_recording(binding).can_process(old_id),
        m.after_start_recording(binding).after_complete(old_id) == m.after_start_recording(binding),
{
}

/// Law: a started operation goes recording, then processing, then idle with
/// no active operation.
pub proof fn law_operation_lifecycle(m: CoordinatorModel, binding: Seq<char>)
    requires
        m.well_formed(),
        m.next_operation_id < u64::MAX,
    ensures
        ({
            let id = m.next_operation_id;
            let rec = m.after_start_recording(binding);
            let proc = rec.after_transition_to_processing(id);
            let done = proc.after_complete(id);
            &&& rec.phase == PhaseModel::Recording(id, binding)
            &&& rec.can_process(id)
            &&& proc.phase == PhaseModel::Processing(id, binding)
            &&& !proc.can_process(id)
            &&& done.phase == PhaseModel::Idle
            &&& done.active_operation_id == 0
        }),
{
}

/// Law: cancellation always leaves the coordinator idle with nothing active,
/// whatever was running.
pub proof fn law_cancel_returns_to_idle(m: CoordinatorModel)
    requires
        m.well_formed(),
    ensures
        m.after_cancel().phase == PhaseModel::Idle,
        m.after_cancel().active_operation_id == 0,
        m.after_cancel().next_operation_id == m.next_operation_id,
{
}

/// Law: starting a recording hands out a non-zero id larger than every id
/// handed out before, makes it the only active operation (every earlier
/// one is stale), and records its binding.
pub proof fn law_start_recording_takes_over(m: CoordinatorModel, binding: Seq<char>, earlier: u64)
    requires
        m.well_formed(),
        m.next_operation_id < u64::MAX,
        earlier < m.next_operation_id,
    ensures
        ({
            let id = m.next_operation_id;
            let after = m.after_start_recording(binding);
            &&& id != 0
            &&& id > earlier
            &&& after.active_operation_id == id
            &&& after.active_operation_id != earlier
            &&& after.phase == PhaseModel::Recording(id, binding)
            &&& after.next_operation_id > id
        }),
{
}

} // verus!
