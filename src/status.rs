//! The persistent status of a VM and the power-state machine over it.
use vstd::prelude::*;
use crate::error::VmManageError;
use crate::model::Operation;

verus! {

/// The status code stored in the machine-core table.
pub type MachineState = i8;

pub const CREATED: MachineState = 1;
pub const RUNNING: MachineState = 2;
pub const PAUSED: MachineState = 3;
pub const STOPPED: MachineState = 4;
pub const DELETED: MachineState = 5;

/// The status of a VM.
#[derive(Debug, Clone, Copy, PartialEq, Eq, Structural)]
pub enum VmStatus {
    Created,
    Running,
    Paused,
    Stopped,
    Deleted,
}

impl VmStatus {
    pub open spec fn code_of(self) -> MachineState {
        match self {
            VmStatus::Created => CREATED,
            VmStatus::Running => RUNNING,
            VmStatus::Paused => PAUSED,
            VmStatus::Stopped => STOPPED,
            VmStatus::Deleted => DELETED,
        }
    }

    /// The code under which this status is stored.
    pub fn code(self) -> (r: MachineState)
        ensures
            r == self.code_of(),
    {
        match self {
            VmStatus::Created => CREATED,
            VmStatus::Running => RUNNING,
            VmStatus::Paused => PAUSED,
            VmStatus::Stopped => STOPPED,
            VmStatus::Deleted => DELETED,
        }
    }

    /// The status stored under `code`, if it is one of the five codes.
    pub fn from_code(code: MachineState) -> (r: Option<VmStatus>)
        ensures
            r is Some <==> CREATED <= code <= DELETED,
            r matches Some(s) ==> s.code_of() == code && s == status_of(code),
    {
        if code == CREATED {
            Some(VmStatus::Created)
        } else if code == RUNNING {
            Some(VmStatus::Running)
        } else if code == PAUSED {
            Some(VmStatus::Paused)
        } else if code == STOPPED {
            Some(VmStatus::Stopped)
        } else if code == DELETED {
            Some(VmStatus::Deleted)
        } else {
            None
        }
    }
}

/// The status stored under a valid code.
pub open spec fn status_of(code: MachineState) -> VmStatus {
    if code == RUNNING {
        VmStatus::Running
    } else if code == PAUSED {
        VmStatus::Paused
    } else if code == STOPPED {
        VmStatus::Stopped
    } else if code == DELETED {
        VmStatus::Deleted
    } else {
        VmStatus::Created
    }
}

/// The status a power operation leads to.
pub open spec fn target_of(op: Operation) -> VmStatus {
    match op {
        Operation::Start => VmStatus::Running,
        Operation::Pause => VmStatus::Paused,
        Operation::Resume => VmStatus::Running,
        Operation::Stop => VmStatus::Stopped,
    }
}

/// Whether a power operation is allowed from a status.
pub open spec fn allowed(op: Operation, from: VmStatus) -> bool {
    match op {
        Operation::Start => from == VmStatus::Created || from == VmStatus::Stopped,
        Operation::Pause => from == VmStatus::Running,
        Operation::Resume => from == VmStatus::Paused,
        Operation::Stop => from == VmStatus::Running || from == VmStatus::Paused,
    }
}

/// The error an agent failure of a power operation surfaces as.
pub open spec fn agent_error_of(op: Operation) -> VmManageError {
    match op {
        Operation::Start => VmManageError::MachineStart,
        Operation::Pause => VmManageError::MachinePause,
        Operation::Resume => VmManageError::MachineResume,
        Operation::Stop => VmManageError::MachineStop,
    }
}

/// The status after applying `op` to a VM in status `from`, or
/// `IllegalState` where the state machine forbids the change.
pub fn next_status(op: Operation, from: VmStatus) -> (r: Result<VmStatus, VmManageError>)
    ensures
        allowed(op, from) ==> r == Ok::<VmStatus, VmManageError>(target_of(op)),
        !allowed(op, from) ==> r == Err::<VmStatus, VmManageError>(VmManageError::IllegalState),
{
    let ok = match op {
        Operation::Start => from == VmStatus::Created || from == VmStatus::Stopped,
        Operation::Pause => from == VmStatus::Running,
        Operation::Resume => from == VmStatus::Paused,
        Operation::Stop => from == VmStatus::Running || from == VmStatus::Paused,
    };
    if !ok {
        return Err(VmManageError::IllegalState);
    }
    match op {
        Operation::Start => Ok(VmStatus::Running),
        Operation::Pause => Ok(VmStatus::Paused),
        Operation::Resume => Ok(VmStatus::Running),
        Operation::Stop => Ok(VmStatus::Stopped),
    }
}

/// The error an agent failure of `op` surfaces as.
pub fn agent_error(op: Operation) -> (r: VmManageError)
    ensures
        r == agent_error_of(op),
{
    match op {
        Operation::Start => VmManageError::MachineStart,
        Operation::Pause => VmManageError::MachinePause,
        Operation::Resume => VmManageError::MachineResume,
        Operation::Stop => VmManageError::MachineStop,
    }
}

/// A stored code read back gives the status it was written from.
pub proof fn lemma_code_round_trip(s: VmStatus)
    ensures
        CREATED <= s.code_of() <= DELETED,
        forall|t: VmStatus| t.code_of() == s.code_of() ==> t == s,
{
}

/// Deleted is terminal: no power operation leaves it, and every power
/// operation leads to a status other than deleted or created.
pub proof fn lemma_deleted_is_terminal(op: Operation)
    ensures
        !allowed(op, VmStatus::Deleted),
        target_of(op) != VmStatus::Deleted,
        target_of(op) != VmStatus::Created,
{
}

} // verus!
