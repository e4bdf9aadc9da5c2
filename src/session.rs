//! The protocol of one operation on one VM.
//!
//! Every operation runs as a `Session`: the session names the next outside
//! action (take the VM's lock, read a database row, call the agent or the
//! storage manager, remove a file, release the lock), the caller performs
//! it and reports the outcome as an `Event`, and the session decides what
//! comes next. The caller repeats until the session asks it to finish.
//!
//! All actions that touch the VM happen while its lock is held; the lock
//! is released on every path after it was taken, and the first failure is
//! the one reported, whatever compensation or release does afterwards.
use vstd::prelude::*;
use crate::boot::{boot_config, is_boot_config_for, BootConfig};
use crate::error::VmManageError;
use crate::ids::fresh_id;
use crate::kernel::{first_match, get_kernel_image_path, has_match, KernelItem};
use crate::layout::{lock_name, lock_name_of, PoolLayout, DEFAULT_LEASE_SECONDS};
use crate::model::{MachineCreateConfig, Operation};
use crate::status::{
    agent_error, agent_error_of, allowed, next_status, status_of, target_of, MachineState,
    VmStatus, CREATED, DELETED,
};

verus! {

/// The operation a session carries out.
#[derive(Debug)]
pub enum Task {
    Create(MachineCreateConfig),
    Power(Operation),
    Delete,
    ModifyMetadata(String),
    GetStatus,
    CreateSnapshot(u128),
    DeleteSnapshot(u128),
}

/// Where a session stands: the stage names the action it waits on.
#[derive(Debug, Clone, Copy, PartialEq, Eq, Structural)]
pub enum Stage {
    Acquire,
    LoadCore,
    ReadCatalog,
    CreateVolume,
    AttachVolume,
    NewMachine,
    Rebuild,
    Command,
    Shutdown,
    StopVmm,
    ExportConfig,
    DumpCore,
    InsertConfig,
    InsertCore,
    InsertVolume,
    UpdateCore,
    DeleteConfig,
    DeleteCore,
    ListVolumes,
    DeleteVolumeRow,
    DetachVolume,
    DeleteVolume,
    ListSnapshots,
    RemoveMem,
    RemoveVm,
    DeleteSnapshotRow,
    MakeSnapshotDir,
    InsertSnapshot,
    UndoDetach,
    UndoDelete,
    Release,
    Finished,
}

/// A command to the VM's hypervisor agent.
#[derive(Debug)]
pub enum AgentCommand {
    Start,
    Pause,
    Resume,
    Shutdown,
    StopVmm,
    UpdateMetadata(String),
    CreateSnapshot { mem_path: String, vm_path: String },
    DescribeInstance,
    ExportConfig,
}

/// What the caller is to do next. Database actions concern the session's
/// VM; the agent is the one rebuilt from the VM's stored core.
#[derive(Debug)]
pub enum Action {
    /// Grant a lease of `lease_seconds` and take the lock `name` under it.
    AcquireLock { name: String, lease_seconds: i64 },
    /// Read the VM's core and status.
    LoadCore,
    /// Read the kernel catalog afresh.
    ReadKernelCatalog,
    CreateVolume { size_mib: i32 },
    AttachVolume { volume: u128 },
    /// Initialise (not start) an agent with this configuration.
    NewMachine(BootConfig),
    /// Rebuild the agent from the loaded core.
    RebuildMachine,
    Agent(AgentCommand),
    /// Serialise the agent into a core.
    DumpCore,
    InsertConfig(MachineCreateConfig),
    /// Insert the dumped core with this status.
    InsertCore { status: MachineState },
    InsertVolume { volume: u128 },
    /// Overwrite the stored core with the dumped one, and the status.
    UpdateCore { status: MachineState },
    DeleteConfig,
    DeleteCore,
    ListVolumes,
    DeleteVolumeRow { volume: u128 },
    DetachVolume { volume: u128 },
    DeleteVolume { volume: u128 },
    ListSnapshots,
    RemoveFile { path: String },
    DeleteSnapshotRow { snapshot: u128 },
    /// Create a directory and its missing parents.
    MakeDir { path: String },
    InsertSnapshot { snapshot: u128, mem_path: String, vm_path: String },
    ReleaseLock,
    /// Report the result: the new VM or snapshot id, or the VM id.
    Finish(Result<u128, VmManageError>),
}

/// The outcome of the last action.
#[derive(Debug)]
pub enum Event {
    /// It succeeded with nothing to report.
    Done,
    /// It failed.
    Failed,
    /// What came back could not be decoded.
    Malformed,
    /// The core was read; its status code.
    Loaded(MachineState),
    /// No row holds the VM.
    Missing,
    /// The kernel catalog was read.
    Catalog(Vec<KernelItem>),
    /// A volume was created.
    Volume(u128),
    /// The volume was attached at this host device.
    Device(String),
    /// The ids of the rows that were listed.
    Ids(Vec<u128>),
}

/// One operation on one VM in progress.
#[derive(Debug)]
pub struct Session {
    pub vmid: u128,
    pub task: Task,
    pub layout: PoolLayout,
    pub stage: Stage,
    /// The failure to report once the lock is released.
    pub failure: Option<VmManageError>,
    /// The volume created for a new VM.
    pub volume: u128,
    pub kernel_path: String,
    pub device: String,
    /// Volumes or snapshots being removed, and how many are done.
    pub items: Vec<u128>,
    pub next: usize,
}

/// Whether the VM's lock is held while the session waits in `stage`.
pub open spec fn holds_lock(stage: Stage) -> bool {
    stage != Stage::Acquire && stage != Stage::Finished
}

/// Whether an action touches the VM, its rows, volumes or files.
pub open spec fn touches_vm(a: Action) -> bool {
    !(a is AcquireLock || a is ReleaseLock || a is Finish)
}

/// Whether `stage` belongs to the protocol of `task`.
pub open spec fn fits(stage: Stage, task: Task) -> bool {
    match stage {
        Stage::Acquire | Stage::Release | Stage::Finished => true,
        Stage::LoadCore | Stage::Rebuild => !(task is Create || task is DeleteSnapshot),
        Stage::ReadCatalog | Stage::CreateVolume | Stage::AttachVolume | Stage::NewMachine
        | Stage::InsertConfig | Stage::InsertCore | Stage::InsertVolume | Stage::UndoDetach
        | Stage::UndoDelete => task is Create,
        Stage::Command => task is Power || task is ModifyMetadata || task is GetStatus
            || task is CreateSnapshot,
        Stage::Shutdown | Stage::StopVmm | Stage::DeleteConfig | Stage::DeleteCore
        | Stage::ListVolumes | Stage::DeleteVolumeRow | Stage::DetachVolume | Stage::DeleteVolume
        | Stage::ListSnapshots => task is Delete,
        Stage::ExportConfig => task is GetStatus,
        Stage::DumpCore => task is Create || task is Power || task is Delete,
        Stage::UpdateCore => task is Power || task is Delete,
        Stage::RemoveMem | Stage::RemoveVm | Stage::DeleteSnapshotRow => task is Delete
            || task is DeleteSnapshot,
        Stage::MakeSnapshotDir | Stage::InsertSnapshot => task is CreateSnapshot,
    }
}

/// Whether the session stands on one of the removals of a list.
pub open spec fn in_volume_loop(stage: Stage) -> bool {
    stage == Stage::DeleteVolumeRow || stage == Stage::DetachVolume || stage == Stage::DeleteVolume
}

pub open spec fn in_snapshot_loop(stage: Stage) -> bool {
    stage == Stage::RemoveMem || stage == Stage::RemoveVm || stage == Stage::DeleteSnapshotRow
}

/// Whether a failure is already decided in `stage`.
pub open spec fn unwinding(stage: Stage) -> bool {
    stage == Stage::UndoDetach || stage == Stage::UndoDelete || stage == Stage::Release
        || stage == Stage::Finished
}

/// The snapshot the session is removing.
pub open spec fn current_snapshot(s: Session) -> u128 {
    match s.task {
        Task::DeleteSnapshot(sid) => sid,
        _ => s.items@[s.next as int],
    }
}

/// The id a successful session reports.
pub open spec fn result_id(s: Session) -> u128 {
    match s.task {
        Task::CreateSnapshot(sid) => sid,
        _ => s.vmid,
    }
}

/// The stage after the lock is taken.
pub open spec fn first_stage(task: Task) -> Stage {
    match task {
        Task::Create(_) => Stage::ReadCatalog,
        Task::DeleteSnapshot(_) => Stage::RemoveMem,
        _ => Stage::LoadCore,
    }
}

pub open spec fn moved_to(s: Session, stage: Stage) -> Session {
    Session { stage, ..s }
}

/// Give up with `err`: release the lock and report it.
pub open spec fn failed_with(s: Session, err: VmManageError) -> Session {
    Session { stage: Stage::Release, failure: Some(err), ..s }
}

/// Give up with `err` after the new VM's volume was created, attached or
/// not, undoing what was done on the storage manager first.
pub open spec fn undone_with(s: Session, stage: Stage, err: VmManageError) -> Session {
    Session { stage, failure: Some(err), ..s }
}

/// What a loaded status leads to.
pub open spec fn after_load(s: Session, st: VmStatus) -> Session {
    match s.task {
        Task::Power(op) => if allowed(op, st) {
            moved_to(s, Stage::Rebuild)
        } else {
            failed_with(s, VmManageError::IllegalState)
        },
        Task::CreateSnapshot(_) => if st == VmStatus::Paused {
            moved_to(s, Stage::MakeSnapshotDir)
        } else {
            failed_with(s, VmManageError::VmMemSnapshotCreate)
        },
        _ => if st == VmStatus::Deleted {
            failed_with(s, VmManageError::IllegalState)
        } else {
            moved_to(s, Stage::Rebuild)
        },
    }
}

pub open spec fn after_rebuild(task: Task) -> Stage {
    if task is Delete {
        Stage::Shutdown
    } else {
        Stage::Command
    }
}

pub open spec fn after_command(task: Task) -> Stage {
    match task {
        Task::Power(_) => Stage::DumpCore,
        Task::GetStatus => Stage::ExportConfig,
        Task::CreateSnapshot(_) => Stage::InsertSnapshot,
        _ => Stage::Release,
    }
}

/// The error an agent failure in `Stage::Command` surfaces as.
pub open spec fn command_error(task: Task) -> VmManageError {
    match task {
        Task::Power(op) => agent_error_of(op),
        Task::ModifyMetadata(_) => VmManageError::MachineMetadata,
        Task::CreateSnapshot(_) => VmManageError::VmMemSnapshotCreate,
        _ => VmManageError::MachineQuery,
    }
}

/// Start on a list of rows: the first of them, or `empty` if there is none.
pub open spec fn began_list(s: Session, ids: Vec<u128>, first: Stage, empty: Stage) -> Session {
    Session { stage: if ids@.len() > 0 { first } else { empty }, items: ids, next: 0, ..s }
}

/// Go on to the next row of the list: `again` for it, `done` after the last.
pub open spec fn went_on(s: Session, again: Stage, done: Stage) -> Session {
    Session {
        stage: if s.next + 1 < s.items@.len() { again } else { done },
        next: (s.next + 1) as usize,
        ..s
    }
}

/// The session after the outcome `e` of its pending action.
pub open spec fn next_of(s: Session, e: Event) -> Session {
    let done = e is Done;
    match s.stage {
        Stage::Acquire => if done {
            moved_to(s, first_stage(s.task))
        } else {
            Session { stage: Stage::Finished, failure: Some(VmManageError::LockUnavailable), ..s }
        },
        Stage::LoadCore => match e {
            Event::Loaded(code) => if CREATED <= code <= DELETED {
                after_load(s, status_of(code))
            } else {
                failed_with(s, VmManageError::DBFetching)
            },
            Event::Missing => failed_with(s, VmManageError::VmNotFound(s.vmid)),
            _ => failed_with(s, VmManageError::DBFetching),
        },
        Stage::ReadCatalog => match e {
            Event::Catalog(c) => match s.task {
                Task::Create(cfg) => if has_match(c@, cfg.kernel_name@, cfg.kernel_version@) {
                    Session {
                        stage: Stage::CreateVolume,
                        kernel_path: c@[first_match(c@, cfg.kernel_name@, cfg.kernel_version@)].path,
                        ..s
                    }
                } else {
                    failed_with(
                        s,
                        VmManageError::KernelNotFound { name: cfg.kernel_name, version: cfg.kernel_version },
                    )
                },
                _ => s,
            },
            Event::Malformed => failed_with(s, VmManageError::SerdeError),
            _ => failed_with(s, VmManageError::IoError),
        },
        Stage::CreateVolume => match e {
            Event::Volume(v) => Session { stage: Stage::AttachVolume, volume: v, ..s },
            _ => failed_with(s, VmManageError::ReqwestError),
        },
        Stage::AttachVolume => match e {
            Event::Device(d) => Session { stage: Stage::NewMachine, device: d, ..s },
            _ => undone_with(s, Stage::UndoDelete, VmManageError::ReqwestError),
        },
        Stage::NewMachine => if done {
            moved_to(s, Stage::DumpCore)
        } else {
            undone_with(s, Stage::UndoDetach, VmManageError::MachineCreate)
        },
        Stage::Rebuild => if done {
            moved_to(s, after_rebuild(s.task))
        } else {
            failed_with(s, VmManageError::MachineRebuild)
        },
        Stage::Command => if done {
            moved_to(s, after_command(s.task))
        } else {
            failed_with(s, command_error(s.task))
        },
        Stage::Shutdown => moved_to(s, Stage::StopVmm),
        Stage::StopVmm => if done {
            moved_to(s, Stage::DumpCore)
        } else {
            failed_with(s, VmManageError::MachineStop)
        },
        Stage::ExportConfig => if done {
            moved_to(s, Stage::Release)
        } else {
            failed_with(s, VmManageError::MachineQuery)
        },
        Stage::DumpCore => if done {
            moved_to(s, if s.task is Create { Stage::InsertConfig } else { Stage::UpdateCore })
        } else if s.task is Create {
            undone_with(s, Stage::UndoDetach, VmManageError::MachineDumpCore)
        } else {
            failed_with(s, VmManageError::MachineDumpCore)
        },
        Stage::InsertConfig => if done {
            moved_to(s, Stage::InsertCore)
        } else {
            undone_with(s, Stage::UndoDetach, VmManageError::DBInsertion)
        },
        Stage::InsertCore => if done {
            moved_to(s, Stage::InsertVolume)
        } else {
            undone_with(s, Stage::UndoDetach, VmManageError::DBInsertion)
        },
        Stage::InsertVolume => if done {
            moved_to(s, Stage::Release)
        } else {
            undone_with(s, Stage::UndoDetach, VmManageError::DBInsertion)
        },
        Stage::UpdateCore => if done {
            moved_to(s, if s.task is Delete { Stage::DeleteConfig } else { Stage::Release })
        } else {
            failed_with(s, VmManageError::DBUpdating)
        },
        Stage::DeleteConfig => if done {
            moved_to(s, Stage::DeleteCore)
        } else {
            failed_with(s, VmManageError::DBDeleting)
        },
        Stage::DeleteCore => if done {
            moved_to(s, Stage::ListVolumes)
        } else {
            failed_with(s, VmManageError::DBDeleting)
        },
        Stage::ListVolumes => match e {
            Event::Ids(ids) => began_list(s, ids, Stage::DeleteVolumeRow, Stage::ListSnapshots),
            _ => failed_with(s, VmManageError::DBFetching),
        },
        Stage::DeleteVolumeRow => if done {
            moved_to(s, Stage::DetachVolume)
        } else {
            failed_with(s, VmManageError::DBDeleting)
        },
        Stage::DetachVolume => if done {
            moved_to(s, Stage::DeleteVolume)
        } else {
            failed_with(s, VmManageError::ReqwestError)
        },
        Stage::DeleteVolume => if done {
            went_on(s, Stage::DeleteVolumeRow, Stage::ListSnapshots)
        } else {
            failed_with(s, VmManageError::ReqwestError)
        },
        Stage::ListSnapshots => match e {
            Event::Ids(ids) => began_list(s, ids, Stage::RemoveMem, Stage::Release),
            _ => failed_with(s, VmManageError::DBFetching),
        },
        Stage::RemoveMem => if done {
            moved_to(s, Stage::RemoveVm)
        } else {
            failed_with(s, VmManageError::IoError)
        },
        Stage::RemoveVm => if done {
            moved_to(s, Stage::DeleteSnapshotRow)
        } else {
            failed_with(s, VmManageError::IoError)
        },
        Stage::DeleteSnapshotRow => if !done {
            failed_with(s, VmManageError::DBDeleting)
        } else if s.task is DeleteSnapshot {
            moved_to(s, Stage::Release)
        } else {
            went_on(s, Stage::RemoveMem, Stage::Release)
        },
        Stage::MakeSnapshotDir => if done {
            moved_to(s, Stage::Rebuild)
        } else {
            failed_with(s, VmManageError::IoError)
        },
        Stage::InsertSnapshot => if done {
            moved_to(s, Stage::Release)
        } else {
            failed_with(s, VmManageError::DBInsertion)
        },
        Stage::UndoDetach => moved_to(s, Stage::UndoDelete),
        Stage::UndoDelete => moved_to(s, Stage::Release),
        Stage::Release => moved_to(s, Stage::Finished),
        Stage::Finished => s,
    }
}

/// Whether `a` is the action the session asks for in its stage.
pub open spec fn is_request(s: Session, a: Action) -> bool {
    match s.stage {
        Stage::Acquire => a matches Action::AcquireLock { name, lease_seconds } && name@ == lock_name_of(
            s.vmid,
        ) && lease_seconds == DEFAULT_LEASE_SECONDS,
        Stage::LoadCore => a is LoadCore,
        Stage::ReadCatalog => a is ReadKernelCatalog,
        Stage::CreateVolume => match s.task {
            Task::Create(cfg) => a == Action::CreateVolume { size_mib: cfg.volume_size_in_mib },
            _ => false,
        },
        Stage::AttachVolume => a == Action::AttachVolume { volume: s.volume },
        Stage::NewMachine => match s.task {
            Task::Create(cfg) => a matches Action::NewMachine(c) && is_boot_config_for(
                c,
                s.layout,
                s.vmid,
                s.kernel_path@,
                s.volume,
                s.device@,
                cfg,
            ),
            _ => false,
        },
        Stage::Rebuild => a is RebuildMachine,
        Stage::Command => match s.task {
            Task::Power(op) => a == Action::Agent(
                match op {
                    Operation::Start => AgentCommand::Start,
                    Operation::Pause => AgentCommand::Pause,
                    Operation::Resume => AgentCommand::Resume,
                    Operation::Stop => AgentCommand::Shutdown,
                },
            ),
            Task::ModifyMetadata(m) => a == Action::Agent(AgentCommand::UpdateMetadata(m)),
            Task::GetStatus => a == Action::Agent(AgentCommand::DescribeInstance),
            Task::CreateSnapshot(sid) => a matches Action::Agent(
                AgentCommand::CreateSnapshot { mem_path, vm_path },
            ) && mem_path@ == s.layout.mem_snapshot_path_of(s.vmid, sid) && vm_path@
                == s.layout.vm_snapshot_path_of(s.vmid, sid),
            _ => false,
        },
        Stage::Shutdown => a == Action::Agent(AgentCommand::Shutdown),
        Stage::StopVmm => a == Action::Agent(AgentCommand::StopVmm),
        Stage::ExportConfig => a == Action::Agent(AgentCommand::ExportConfig),
        Stage::DumpCore => a is DumpCore,
        Stage::InsertConfig => match s.task {
            Task::Create(cfg) => a == Action::InsertConfig(cfg),
            _ => false,
        },
        Stage::InsertCore => a == Action::InsertCore { status: CREATED },
        Stage::InsertVolume => a == Action::InsertVolume { volume: s.volume },
        Stage::UpdateCore => match s.task {
            Task::Power(op) => a == Action::UpdateCore { status: target_of(op).code_of() },
            _ => a == Action::UpdateCore { status: DELETED },
        },
        Stage::DeleteConfig => a is DeleteConfig,
        Stage::DeleteCore => a is DeleteCore,
        Stage::ListVolumes => a is ListVolumes,
        Stage::DeleteVolumeRow => a == Action::DeleteVolumeRow { volume: s.items@[s.next as int] },
        Stage::DetachVolume => a == Action::DetachVolume { volume: s.items@[s.next as int] },
        Stage::DeleteVolume => a == Action::DeleteVolume { volume: s.items@[s.next as int] },
        Stage::ListSnapshots => a is ListSnapshots,
        Stage::RemoveMem => a matches Action::RemoveFile { path } && path@
            == s.layout.mem_snapshot_path_of(s.vmid, current_snapshot(s)),
        Stage::RemoveVm => a matches Action::RemoveFile { path } && path@
            == s.layout.vm_snapshot_path_of(s.vmid, current_snapshot(s)),
        Stage::DeleteSnapshotRow => a == Action::DeleteSnapshotRow { snapshot: current_snapshot(s) },
        Stage::MakeSnapshotDir => a matches Action::MakeDir { path } && path@
            == s.layout.snapshot_dir_of(s.vmid),
        Stage::InsertSnapshot => match s.task {
            Task::CreateSnapshot(sid) => a matches Action::InsertSnapshot {
                snapshot,
                mem_path,
                vm_path,
            } && snapshot == sid && mem_path@ == s.layout.mem_snapshot_path_of(s.vmid, sid)
                && vm_path@ == s.layout.vm_snapshot_path_of(s.vmid, sid),
            _ => false,
        },
        Stage::UndoDetach => a == Action::DetachVolume { volume: s.volume },
        Stage::UndoDelete => a == Action::DeleteVolume { volume: s.volume },
        Stage::Release => a is ReleaseLock,
        Stage::Finished => a == Action::Finish(
            match s.failure {
                Some(err) => Err(err),
                None => Ok(result_id(s)),
            },
        ),
    }
}

impl Session {
    /// The invariant every session keeps.
    pub open spec fn wf(self) -> bool {
        &&& fits(self.stage, self.task)
        &&& self.next <= self.items@.len() <= usize::MAX
        &&& in_volume_loop(self.stage) ==> self.next < self.items@.len()
        &&& (in_snapshot_loop(self.stage) && !(self.task is DeleteSnapshot)) ==> self.next
            < self.items@.len()
        &&& self.failure is Some ==> unwinding(self.stage)
        &&& (self.stage == Stage::UndoDetach || self.stage == Stage::UndoDelete)
            ==> self.failure is Some
    }

    /// A session for `task` on VM `vmid`, about to take the VM's lock.
    pub fn new(vmid: u128, task: Task, layout: PoolLayout) -> (r: Session)
        ensures
            r.wf(),
            r.vmid == vmid,
            r.task == task,
            r.layout == layout,
            r.stage == Stage::Acquire,
            r.failure is None,
    {
        Session {
            vmid,
            task,
            layout,
            stage: Stage::Acquire,
            failure: None,
            volume: 0,
            kernel_path: String::new(),
            device: String::new(),
            items: Vec::new(),
            next: 0,
        }
    }

    /// A session that creates a VM under a fresh id.
    pub fn create(config: MachineCreateConfig, layout: PoolLayout) -> (r: Session)
        ensures
            r.wf(),
            r.task == Task::Create(config),
            r.layout == layout,
            r.stage == Stage::Acquire,
            r.failure is None,
    {
        Session::new(fresh_id(), Task::Create(config), layout)
    }

    /// A session that snapshots VM `vmid` under a fresh snapshot id.
    pub fn create_snapshot(vmid: u128, layout: PoolLayout) -> (r: Session)
        ensures
            r.wf(),
            r.vmid == vmid,
            r.task is CreateSnapshot,
            r.layout == layout,
            r.stage == Stage::Acquire,
            r.failure is None,
    {
        Session::new(vmid, Task::CreateSnapshot(fresh_id()), layout)
    }

    /// Whether the session has nothing left to do.
    pub fn is_finished(&self) -> (r: bool)
        ensures
            r == (self.stage == Stage::Finished),
    {
        self.stage == Stage::Finished
    }

    fn current_snapshot(&self) -> (r: u128)
        requires
            self.wf(),
            in_snapshot_loop(self.stage),
        ensures
            r == current_snapshot(*self),
    {
        match &self.task {
            Task::DeleteSnapshot(sid) => *sid,
            _ => self.items[self.next],
        }
    }

    /// The action the session waits on.
    pub fn request(&self) -> (a: Action)
        requires
            self.wf(),
        ensures
            is_request(*self, a),
    {
        match self.stage {
            Stage::Acquire => Action::AcquireLock {
                name: lock_name(self.vmid),
                lease_seconds: DEFAULT_LEASE_SECONDS,
            },
            Stage::LoadCore => Action::LoadCore,
            Stage::ReadCatalog => Action::ReadKernelCatalog,
            Stage::CreateVolume => match &self.task {
                Task::Create(cfg) => Action::CreateVolume { size_mib: cfg.volume_size_in_mib },
                _ => Action::ReleaseLock,
            },
            Stage::AttachVolume => Action::AttachVolume { volume: self.volume },
            Stage::NewMachine => match &self.task {
                Task::Create(cfg) => Action::NewMachine(
                    boot_config(
                        &self.layout,
                        self.vmid,
                        self.kernel_path.clone(),
                        self.volume,
                        self.device.clone(),
                        cfg,
                    ),
                ),
                _ => Action::ReleaseLock,
            },
            Stage::Rebuild => Action::RebuildMachine,
            Stage::Command => match &self.task {
                Task::Power(op) => Action::Agent(
                    match op {
                        Operation::Start => AgentCommand::Start,
                        Operation::Pause => AgentCommand::Pause,
                        Operation::Resume => AgentCommand::Resume,
                        Operation::Stop => AgentCommand::Shutdown,
                    },
                ),
                Task::ModifyMetadata(m) => Action::Agent(AgentCommand::UpdateMetadata(m.clone())),
                Task::GetStatus => Action::Agent(AgentCommand::DescribeInstance),
                Task::CreateSnapshot(sid) => Action::Agent(
                    AgentCommand::CreateSnapshot {
                        mem_path: self.layout.mem_snapshot_path(self.vmid, *sid),
                        vm_path: self.layout.vm_snapshot_path(self.vmid, *sid),
                    },
                ),
                _ => Action::ReleaseLock,
            },
            Stage::Shutdown => Action::Agent(AgentCommand::Shutdown),
            Stage::StopVmm => Action::Agent(AgentCommand::StopVmm),
            Stage::ExportConfig => Action::Agent(AgentCommand::ExportConfig),
            Stage::DumpCore => Action::DumpCore,
            Stage::InsertConfig => match &self.task {
                Task::Create(cfg) => Action::InsertConfig(cfg.duplicate()),
                _ => Action::ReleaseLock,
            },
            Stage::InsertCore => Action::InsertCore { status: CREATED },
            Stage::InsertVolume => Action::InsertVolume { volume: self.volume },
            Stage::UpdateCore => match &self.task {
                Task::Power(op) => Action::UpdateCore { status: target_status(*op).code() },
                _ => Action::UpdateCore { status: DELETED },
            },
            Stage::DeleteConfig => Action::DeleteConfig,
            Stage::DeleteCore => Action::DeleteCore,
            Stage::ListVolumes => Action::ListVolumes,
            Stage::DeleteVolumeRow => Action::DeleteVolumeRow { volume: self.items[self.next] },
            Stage::DetachVolume => Action::DetachVolume { volume: self.items[self.next] },
            Stage::DeleteVolume => Action::DeleteVolume { volume: self.items[self.next] },
            Stage::ListSnapshots => Action::ListSnapshots,
            Stage::RemoveMem => Action::RemoveFile {
                path: self.layout.mem_snapshot_path(self.vmid, self.current_snapshot()),
            },
            Stage::RemoveVm => Action::RemoveFile {
                path: self.layout.vm_snapshot_path(self.vmid, self.current_snapshot()),
            },
            Stage::DeleteSnapshotRow => Action::DeleteSnapshotRow { snapshot: self.current_snapshot() },
            Stage::MakeSnapshotDir => Action::MakeDir { path: self.layout.snapshot_dir(self.vmid) },
            Stage::InsertSnapshot => match &self.task {
                Task::CreateSnapshot(sid) => Action::InsertSnapshot {
                    snapshot: *sid,
                    mem_path: self.layout.mem_snapshot_path(self.vmid, *sid),
                    vm_path: self.layout.vm_snapshot_path(self.vmid, *sid),
                },
                _ => Action::ReleaseLock,
            },
            Stage::UndoDetach => Action::DetachVolume { volume: self.volume },
            Stage::UndoDelete => Action::DeleteVolume { volume: self.volume },
            Stage::Release => Action::ReleaseLock,
            Stage::Finished => Action::Finish(
                match &self.failure {
                    Some(err) => Err(err.duplicate()),
                    None => Ok(
                        match &self.task {
                            Task::CreateSnapshot(sid) => *sid,
                            _ => self.vmid,
                        },
                    ),
                },
            ),
        }
    }
}

impl Session {
    fn move_to(&mut self, stage: Stage)
        ensures
            *final(self) == moved_to(*old(self), stage),
    {
        self.stage = stage;
    }

    fn fail(&mut self, err: VmManageError)
        ensures
            *final(self) == failed_with(*old(self), err),
    {
        self.stage = Stage::Release;
        self.failure = Some(err);
    }

    fn undo(&mut self, stage: Stage, err: VmManageError)
        ensures
            *final(self) == undone_with(*old(self), stage, err),
    {
        self.stage = stage;
        self.failure = Some(err);
    }

    fn begin_list(&mut self, ids: Vec<u128>, first: Stage, empty: Stage)
        ensures
            *final(self) == began_list(*old(self), ids, first, empty),
            ids@.len() <= usize::MAX,
    {
        self.stage = if ids.len() > 0 {
            first
        } else {
            empty
        };
        self.items = ids;
        self.next = 0;
    }

    fn go_on(&mut self, again: Stage, done: Stage)
        requires
            old(self).next < old(self).items@.len(),
        ensures
            *final(self) == went_on(*old(self), again, done),
    {
        let len = self.items.len();
        let n = self.next + 1;
        self.stage = if n < len {
            again
        } else {
            done
        };
        self.next = n;
    }

    /// Takes in the outcome of the pending action.
    pub fn advance(&mut self, e: Event)
        requires
            old(self).wf(),
        ensures
            *final(self) == next_of(*old(self), e),
            final(self).wf(),
    {
        let done = match &e {
            Event::Done => true,
            _ => false,
        };
        match self.stage {
            Stage::Acquire => {
                if done {
                    let first = match &self.task {
                        Task::Create(_) => Stage::ReadCatalog,
                        Task::DeleteSnapshot(_) => Stage::RemoveMem,
                        _ => Stage::LoadCore,
                    };
                    self.move_to(first);
                } else {
                    self.stage = Stage::Finished;
                    self.failure = Some(VmManageError::LockUnavailable);
                }
            },
            Stage::LoadCore => match e {
                Event::Loaded(code) => match VmStatus::from_code(code) {
                    Some(st) => self.after_load(st),
                    None => self.fail(VmManageError::DBFetching),
                },
                Event::Missing => {
                    let vmid = self.vmid;
                    self.fail(VmManageError::VmNotFound(vmid));
                },
                _ => self.fail(VmManageError::DBFetching),
            },
            Stage::ReadCatalog => match e {
                Event::Catalog(c) => {
                    let found = match &self.task {
                        Task::Create(cfg) => Some(
                            get_kernel_image_path(&c, &cfg.kernel_name, &cfg.kernel_version),
                        ),
                        _ => None,
                    };
                    match found {
                        Some(Ok(path)) => {
                            self.kernel_path = path;
                            self.stage = Stage::CreateVolume;
                        },
                        Some(Err(err)) => self.fail(err),
                        None => {},
                    }
                },
                Event::Malformed => self.fail(VmManageError::SerdeError),
                _ => self.fail(VmManageError::IoError),
            },
            Stage::CreateVolume => match e {
                Event::Volume(v) => {
                    self.volume = v;
                    self.stage = Stage::AttachVolume;
                },
                _ => self.fail(VmManageError::ReqwestError),
            },
            Stage::AttachVolume => match e {
                Event::Device(d) => {
                    self.device = d;
                    self.stage = Stage::NewMachine;
                },
                _ => self.undo(Stage::UndoDelete, VmManageError::ReqwestError),
            },
            Stage::NewMachine => if done {
                self.move_to(Stage::DumpCore);
            } else {
                self.undo(Stage::UndoDetach, VmManageError::MachineCreate);
            },
            Stage::Rebuild => if done {
                let st = match &self.task {
                    Task::Delete => Stage::Shutdown,
                    _ => Stage::Command,
                };
                self.move_to(st);
            } else {
                self.fail(VmManageError::MachineRebuild);
            },
            Stage::Command => if done {
                let st = match &self.task {
                    Task::Power(_) => Stage::DumpCore,
                    Task::GetStatus => Stage::ExportConfig,
                    Task::CreateSnapshot(_) => Stage::InsertSnapshot,
                    _ => Stage::Release,
                };
                self.move_to(st);
            } else {
                let err = match &self.task {
                    Task::Power(op) => agent_error(*op),
                    Task::ModifyMetadata(_) => VmManageError::MachineMetadata,
                    Task::CreateSnapshot(_) => VmManageError::VmMemSnapshotCreate,
                    _ => VmManageError::MachineQuery,
                };
                self.fail(err);
            },
            Stage::Shutdown => self.move_to(Stage::StopVmm),
            Stage::StopVmm => if done {
                self.move_to(Stage::DumpCore);
            } else {
                self.fail(VmManageError::MachineStop);
            },
            Stage::ExportConfig => if done {
                self.move_to(Stage::Release);
            } else {
                self.fail(VmManageError::MachineQuery);
            },
            Stage::DumpCore => {
                let create = match &self.task {
                    Task::Create(_) => true,
                    _ => false,
                };
                if done {
                    self.move_to(
                        if create {
                            Stage::InsertConfig
                        } else {
                            Stage::UpdateCore
                        },
                    );
                } else if create {
                    self.undo(Stage::UndoDetach, VmManageError::MachineDumpCore);
                } else {
                    self.fail(VmManageError::MachineDumpCore);
                }
            },
            Stage::InsertConfig => if done {
                self.move_to(Stage::InsertCore);
            } else {
                self.undo(Stage::UndoDetach, VmManageError::DBInsertion);
            },
            Stage::InsertCore => if done {
                self.move_to(Stage::InsertVolume);
            } else {
                self.undo(Stage::UndoDetach, VmManageError::DBInsertion);
            },
            Stage::InsertVolume => if done {
                self.move_to(Stage::Release);
            } else {
                self.undo(Stage::UndoDetach, VmManageError::DBInsertion);
            },
            Stage::UpdateCore => if done {
                let st = match &self.task {
                    Task::Delete => Stage::DeleteConfig,
                    _ => Stage::Release,
                };
                self.move_to(st);
            } else {
                self.fail(VmManageError::DBUpdating);
            },
            Stage::DeleteConfig => if done {
                self.move_to(Stage::DeleteCore);
            } else {
                self.fail(VmManageError::DBDeleting);
            },
            Stage::DeleteCore => if done {
                self.move_to(Stage::ListVolumes);
            } else {
                self.fail(VmManageError::DBDeleting);
            },
            Stage::ListVolumes => match e {
                Event::Ids(ids) => self.begin_list(ids, Stage::DeleteVolumeRow, Stage::ListSnapshots),
                _ => self.fail(VmManageError::DBFetching),
            },
            Stage::DeleteVolumeRow => if done {
                self.move_to(Stage::DetachVolume);
            } else {
                self.fail(VmManageError::DBDeleting);
            },
            Stage::DetachVolume => if done {
                self.move_to(Stage::DeleteVolume);
            } else {
                self.fail(VmManageError::ReqwestError);
            },
            Stage::DeleteVolume => if done {
                self.go_on(Stage::DeleteVolumeRow, Stage::ListSnapshots);
            } else {
                self.fail(VmManageError::ReqwestError);
            },
            Stage::ListSnapshots => match e {
                Event::Ids(ids) => self.begin_list(ids, Stage::RemoveMem, Stage::Release),
                _ => self.fail(VmManageError::DBFetching),
            },
            Stage::RemoveMem => if done {
                self.move_to(Stage::RemoveVm);
            } else {
                self.fail(VmManageError::IoError);
            },
            Stage::RemoveVm => if done {
                self.move_to(Stage::DeleteSnapshotRow);
            } else {
                self.fail(VmManageError::IoError);
            },
            Stage::DeleteSnapshotRow => {
                let single = match &self.task {
                    Task::DeleteSnapshot(_) => true,
                    _ => false,
                };
                if !done {
                    self.fail(VmManageError::DBDeleting);
                } else if single {
                    self.move_to(Stage::Release);
                } else {
                    self.go_on(Stage::RemoveMem, Stage::Release);
                }
            },
            Stage::MakeSnapshotDir => if done {
                self.move_to(Stage::Rebuild);
            } else {
                self.fail(VmManageError::IoError);
            },
            Stage::InsertSnapshot => if done {
                self.move_to(Stage::Release);
            } else {
                self.fail(VmManageError::DBInsertion);
            },
            Stage::UndoDetach => self.move_to(Stage::UndoDelete),
            Stage::UndoDelete => self.move_to(Stage::Release),
            Stage::Release => self.move_to(Stage::Finished),
            Stage::Finished => {},
        }
    }

    fn after_load(&mut self, st: VmStatus)
        requires
            old(self).stage == Stage::LoadCore,
        ensures
            *final(self) == after_load(*old(self), st),
    {
        match &self.task {
            Task::Power(op) => match next_status(*op, st) {
                Ok(_) => self.move_to(Stage::Rebuild),
                Err(err) => self.fail(err),
            },
            Task::CreateSnapshot(_) => if st == VmStatus::Paused {
                self.move_to(Stage::MakeSnapshotDir);
            } else {
                self.fail(VmManageError::VmMemSnapshotCreate);
            },
            _ => if st == VmStatus::Deleted {
                self.fail(VmManageError::IllegalState);
            } else {
                self.move_to(Stage::Rebuild);
            },
        }
    }

    /// Takes in the outcome of the pending action and names the next one.
    pub fn step(&mut self, e: Event) -> (a: Action)
        requires
            old(self).wf(),
        ensures
            *final(self) == next_of(*old(self), e),
            final(self).wf(),
            is_request(*final(self), a),
    {
        self.advance(e);
        self.request()
    }
}

/// Every action that touches the VM (its rows, agent, volumes or files) is
/// asked for while the VM's lock is held.
pub proof fn lemma_effects_under_lock(s: Session, a: Action)
    requires
        s.wf(),
        is_request(s, a),
        touches_vm(a),
    ensures
        holds_lock(s.stage),
{
}

/// A session only finishes after it releases the lock it took; the one
/// other way to finish is failing to take the lock, with `LockUnavailable`.
/// Releasing always finishes, whatever the release's own outcome.
pub proof fn lemma_lock_released_on_exit(s: Session, e: Event)
    requires
        s.wf(),
        s.stage != Stage::Finished,
    ensures
        next_of(s, e).stage == Stage::Finished ==> (s.stage == Stage::Release || (s.stage
            == Stage::Acquire && next_of(s, e).failure == Some(VmManageError::LockUnavailable))),
        s.stage == Stage::Release ==> next_of(s, e).stage == Stage::Finished,
{
}

/// Once a failure is decided it is the one reported: compensation and
/// releasing the lock never replace it, whatever their outcome.
pub proof fn lemma_failure_kept(s: Session, e: Event)
    requires
        s.wf(),
        s.failure is Some,
    ensures
        next_of(s, e).failure == s.failure,
{
}

/// A power operation writes the status it leads to, and only after the
/// agent command and the dump of the core both succeeded.
pub proof fn lemma_status_written(s: Session, e: Event, op: Operation, a: Action)
    requires
        s.wf(),
        s.task == Task::Power(op),
    ensures
        s.stage == Stage::UpdateCore && is_request(s, a) ==> (a == (Action::UpdateCore {
            status: target_of(op).code_of(),
        })),
        next_of(s, e).stage == Stage::UpdateCore && s.stage != Stage::UpdateCore ==> (s.stage
            == Stage::DumpCore && (e is Done)),
        next_of(s, e).stage == Stage::DumpCore && s.stage != Stage::DumpCore ==> (s.stage
            == Stage::Command && (e is Done)),
{
}

/// The status a power operation writes is read back as that status.
pub proof fn lemma_status_round_trip(op: Operation)
    ensures
        CREATED <= target_of(op).code_of() <= DELETED,
        status_of(target_of(op).code_of()) == target_of(op),
{
}

/// A power operation the state machine forbids fails with `IllegalState`
/// and goes straight to releasing the lock, without touching the agent.
pub proof fn lemma_illegal_transition(s: Session, op: Operation, code: MachineState)
    requires
        s.wf(),
        s.stage == Stage::LoadCore,
        s.task == Task::Power(op),
        CREATED <= code <= DELETED,
        !allowed(op, status_of(code)),
    ensures
        next_of(s, Event::Loaded(code)) == failed_with(s, VmManageError::IllegalState),
{
}

/// A snapshot file that cannot be removed (for instance because it is
/// already gone) fails the session with `IoError`, and no row is deleted.
pub proof fn lemma_snapshot_file_missing(s: Session, e: Event)
    requires
        s.wf(),
        s.stage == Stage::RemoveMem || s.stage == Stage::RemoveVm,
        !(e is Done),
    ensures
        next_of(s, e) == failed_with(s, VmManageError::IoError),
{
}

/// A delete releases the lock without failure only after its pass over the
/// VM's snapshots: the list was empty or the last row was deleted.
pub proof fn lemma_delete_cascades_snapshots(s: Session, e: Event)
    requires
        s.wf(),
        s.task is Delete,
        next_of(s, e).stage == Stage::Release,
        next_of(s, e).failure is None,
    ensures
        s.stage == Stage::ListSnapshots || (s.stage == Stage::DeleteSnapshotRow && s.next + 1
            >= s.items@.len()),
{
}

/// A create that fails after its volume was created deletes the volume
/// before it releases the lock (and detaches it first once it was
/// attached).
pub proof fn lemma_create_compensates(s: Session, e: Event)
    requires
        s.wf(),
        s.task is Create,
        next_of(s, e).stage == Stage::Release,
        next_of(s, e).failure is Some,
    ensures
        s.stage == Stage::ReadCatalog || s.stage == Stage::CreateVolume || s.stage
            == Stage::UndoDelete,
        s.stage == Stage::UndoDelete ==> is_request(s, (Action::DeleteVolume { volume: s.volume })),
{
}

/// Every create reads the kernel catalog afresh once it holds the lock, and
/// boots the image of the catalog it read.
pub proof fn lemma_catalog_read_per_create(s: Session, c: Vec<KernelItem>, cfg: MachineCreateConfig)
    requires
        s.wf(),
        s.task == Task::Create(cfg),
    ensures
        s.stage == Stage::Acquire ==> next_of(s, Event::Done).stage == Stage::ReadCatalog,
        s.stage == Stage::ReadCatalog && has_match(c@, cfg.kernel_name@, cfg.kernel_version@)
            ==> next_of(s, Event::Catalog(c)).kernel_path == c@[first_match(
            c@,
            cfg.kernel_name@,
            cfg.kernel_version@,
        )].path,
{
}

/// How far a stage stands from the end of the protocol.
pub open spec fn phase(stage: Stage) -> nat {
    match stage {
        Stage::Acquire => 40,
        Stage::LoadCore => 39,
        Stage::ReadCatalog => 38,
        Stage::CreateVolume => 37,
        Stage::AttachVolume => 36,
        Stage::NewMachine => 35,
        Stage::MakeSnapshotDir => 34,
        Stage::Rebuild => 33,
        Stage::Command => 32,
        Stage::Shutdown => 31,
        Stage::StopVmm => 30,
        Stage::ExportConfig => 29,
        Stage::DumpCore => 28,
        Stage::InsertConfig => 27,
        Stage::InsertCore => 26,
        Stage::InsertVolume => 25,
        Stage::UpdateCore => 24,
        Stage::DeleteConfig => 23,
        Stage::DeleteCore => 22,
        Stage::ListVolumes => 21,
        Stage::DeleteVolumeRow | Stage::DetachVolume | Stage::DeleteVolume => 20,
        Stage::ListSnapshots => 19,
        Stage::RemoveMem | Stage::RemoveVm | Stage::DeleteSnapshotRow => 18,
        Stage::InsertSnapshot => 17,
        Stage::UndoDetach => 3,
        Stage::UndoDelete => 2,
        Stage::Release => 1,
        Stage::Finished => 0,
    }
}

/// Within a pass over a list: the steps left in it.
pub open spec fn steps_left(s: Session) -> int {
    let k = s.items@.len() - s.next;
    match s.stage {
        Stage::DeleteVolumeRow | Stage::RemoveMem => 3 * k + 2,
        Stage::DetachVolume | Stage::RemoveVm => 3 * k + 1,
        Stage::DeleteVolume | Stage::DeleteSnapshotRow => 3 * k,
        _ => 0,
    }
}

/// Every step moves an unfinished session closer to its end, so the
/// caller's loop always reaches the release of the lock and the finish.
pub proof fn lemma_progress(s: Session, e: Event)
    requires
        s.wf(),
        s.stage != Stage::Finished,
    ensures
        phase(next_of(s, e).stage) < phase(s.stage) || (phase(next_of(s, e).stage) == phase(s.stage)
            && 0 <= steps_left(next_of(s, e)) < steps_left(s)),
{
}

/// The status a power operation leads to.
fn target_status(op: Operation) -> (r: VmStatus)
    ensures
        r == target_of(op),
{
    match op {
        Operation::Start => VmStatus::Running,
        Operation::Pause => VmStatus::Paused,
        Operation::Resume => VmStatus::Running,
        Operation::Stop => VmStatus::Stopped,
    }
}

} // verus!
