//! The single error enumeration of the library and its messages.
use vstd::prelude::*;
use crate::ids::{hyphenated_text, id_text};

verus! {

/// What went wrong in an operation on the pool.
#[derive(Debug, PartialEq, Eq)]
pub enum VmManageError {
    VmNotFound(u128),
    KernelNotFound { name: String, version: String },
    IllegalState,
    LockUnavailable,
    InvalidTableName(String),
    SerdeError,
    EtcdError,
    ReqwestError,
    IoError,
    NetworkError,
    DBConnection,
    DBDropTable,
    DBCreateTable,
    DBInsertion,
    DBDeleting,
    DBFetching,
    DBUpdating,
    MachineCreate,
    MachineDumpCore,
    MachineRebuild,
    MachineStart,
    MachinePause,
    MachineResume,
    MachineStop,
    MachineDelete,
    MachineQuery,
    MachineMetadata,
    VmMemSnapshotCreate,
    VmMemSnapshotDelete,
    EnvSocket,
    EnvLogDir,
    EnvMetricsDir,
    EnvAgentInit,
    EnvAgentRequest,
    EnvKernelList,
    EnvMemoryDir,
    EnvVar(String),
}

pub type VmManageResult<T> = Result<T, VmManageError>;

/// The text that reports an error.
pub open spec fn message_of(e: VmManageError) -> Seq<char> {
    match e {
        VmManageError::VmNotFound(vmid) => "Vm "@ + hyphenated_text(vmid) + " not found"@,
        VmManageError::KernelNotFound { name, version } => "Kernel "@ + name@ + " "@ + version@
            + " not found"@,
        VmManageError::IllegalState => "Illegal state transition"@,
        VmManageError::LockUnavailable => "Lock unavailable"@,
        VmManageError::InvalidTableName(t) => "Invalid table name "@ + t@,
        VmManageError::SerdeError => "Serde error"@,
        VmManageError::EtcdError => "ETCD error"@,
        VmManageError::ReqwestError => "Reqwest client error"@,
        VmManageError::IoError => "Io error"@,
        VmManageError::NetworkError => "Network provisioning error"@,
        VmManageError::DBConnection => "Connect database error"@,
        VmManageError::DBDropTable => "Drop table error"@,
        VmManageError::DBCreateTable => "Create table error"@,
        VmManageError::DBInsertion => "Insert element error"@,
        VmManageError::DBDeleting => "Delete element error"@,
        VmManageError::DBFetching => "Fetch element error"@,
        VmManageError::DBUpdating => "Updating element error"@,
        VmManageError::MachineCreate => "Create machine error"@,
        VmManageError::MachineDumpCore => "Dump machine error"@,
        VmManageError::MachineRebuild => "Rebuild machine error"@,
        VmManageError::MachineStart => "Start machine error"@,
        VmManageError::MachinePause => "Pause machine error"@,
        VmManageError::MachineResume => "Resume machine error"@,
        VmManageError::MachineStop => "Stop machine error"@,
        VmManageError::MachineDelete => "Delete machine error"@,
        VmManageError::MachineQuery => "Query machine error"@,
        VmManageError::MachineMetadata => "Update machine metadata error"@,
        VmManageError::VmMemSnapshotCreate => "Create vm/mem snapshot error"@,
        VmManageError::VmMemSnapshotDelete => "Delete vm/mem snapshot error"@,
        VmManageError::EnvSocket => "SOCKET_DIR must be set"@,
        VmManageError::EnvLogDir => "LOGS_DIR must be set"@,
        VmManageError::EnvMetricsDir => "METRICS_DIR must be set"@,
        VmManageError::EnvAgentInit => "AGENT_INIT_TIMEOUT must be set"@,
        VmManageError::EnvAgentRequest => "AGENT_REQUEST_TIMEOUT must be set"@,
        VmManageError::EnvKernelList => "KERNEL_LIST_FILE must be set"@,
        VmManageError::EnvMemoryDir => "MEMORY_SNAPSHOT_DIR must be set"@,
        VmManageError::EnvVar(name) => name@ + " must be set"@,
    }
}

impl VmManageError {
    /// The text that reports this error (what an HTTP reply carries).
    pub fn message(&self) -> (r: String)
        ensures
            r@ == message_of(*self),
    {
        match self {
            VmManageError::VmNotFound(vmid) => {
                let mut s = String::from_str("Vm ");
                s.append(id_text(*vmid).as_str());
                s.append(" not found");
                s
            },
            VmManageError::KernelNotFound { name, version } => {
                let mut s = String::from_str("Kernel ");
                s.append(name.as_str());
                s.append(" ");
                s.append(version.as_str());
                s.append(" not found");
                s
            },
            VmManageError::IllegalState => String::from_str("Illegal state transition"),
            VmManageError::LockUnavailable => String::from_str("Lock unavailable"),
            VmManageError::InvalidTableName(t) => {
                let mut s = String::from_str("Invalid table name ");
                s.append(t.as_str());
                s
            },
            VmManageError::SerdeError => String::from_str("Serde error"),
            VmManageError::EtcdError => String::from_str("ETCD error"),
            VmManageError::ReqwestError => String::from_str("Reqwest client error"),
            VmManageError::IoError => String::from_str("Io error"),
            VmManageError::NetworkError => String::from_str("Network provisioning error"),
            VmManageError::DBConnection => String::from_str("Connect database error"),
            VmManageError::DBDropTable => String::from_str("Drop table error"),
            VmManageError::DBCreateTable => String::from_str("Create table error"),
            VmManageError::DBInsertion => String::from_str("Insert element error"),
            VmManageError::DBDeleting => String::from_str("Delete element error"),
            VmManageError::DBFetching => String::from_str("Fetch element error"),
            VmManageError::DBUpdating => String::from_str("Updating element error"),
            VmManageError::MachineCreate => String::from_str("Create machine error"),
            VmManageError::MachineDumpCore => String::from_str("Dump machine error"),
            VmManageError::MachineRebuild => String::from_str("Rebuild machine error"),
            VmManageError::MachineStart => String::from_str("Start machine error"),
            VmManageError::MachinePause => String::from_str("Pause machine error"),
            VmManageError::MachineResume => String::from_str("Resume machine error"),
            VmManageError::MachineStop => String::from_str("Stop machine error"),
            VmManageError::MachineDelete => String::from_str("Delete machine error"),
            VmManageError::MachineQuery => String::from_str("Query machine error"),
            VmManageError::MachineMetadata => String::from_str("Update machine metadata error"),
            VmManageError::VmMemSnapshotCreate => String::from_str("Create vm/mem snapshot error"),
            VmManageError::VmMemSnapshotDelete => String::from_str("Delete vm/mem snapshot error"),
            VmManageError::EnvSocket => String::from_str("SOCKET_DIR must be set"),
            VmManageError::EnvLogDir => String::from_str("LOGS_DIR must be set"),
            VmManageError::EnvMetricsDir => String::from_str("METRICS_DIR must be set"),
            VmManageError::EnvAgentInit => String::from_str("AGENT_INIT_TIMEOUT must be set"),
            VmManageError::EnvAgentRequest => String::from_str("AGENT_REQUEST_TIMEOUT must be set"),
            VmManageError::EnvKernelList => String::from_str("KERNEL_LIST_FILE must be set"),
            VmManageError::EnvMemoryDir => String::from_str("MEMORY_SNAPSHOT_DIR must be set"),
            VmManageError::EnvVar(name) => {
                let mut s = name.clone();
                s.append(" must be set");
                s
            },
        }
    }

    /// An equal copy of this error.
    pub fn duplicate(&self) -> (r: VmManageError)
        ensures
            r == *self,
    {
        match self {
            VmManageError::VmNotFound(vmid) => VmManageError::VmNotFound(*vmid),
            VmManageError::KernelNotFound { name, version } => VmManageError::KernelNotFound {
                name: name.clone(),
                version: version.clone(),
            },
            VmManageError::IllegalState => VmManageError::IllegalState,
            VmManageError::LockUnavailable => VmManageError::LockUnavailable,
            VmManageError::InvalidTableName(t) => VmManageError::InvalidTableName(t.clone()),
            VmManageError::SerdeError => VmManageError::SerdeError,
            VmManageError::EtcdError => VmManageError::EtcdError,
            VmManageError::ReqwestError => VmManageError::ReqwestError,
            VmManageError::IoError => VmManageError::IoError,
            VmManageError::NetworkError => VmManageError::NetworkError,
            VmManageError::DBConnection => VmManageError::DBConnection,
            VmManageError::DBDropTable => VmManageError::DBDropTable,
            VmManageError::DBCreateTable => VmManageError::DBCreateTable,
            VmManageError::DBInsertion => VmManageError::DBInsertion,
            VmManageError::DBDeleting => VmManageError::DBDeleting,
            VmManageError::DBFetching => VmManageError::DBFetching,
            VmManageError::DBUpdating => VmManageError::DBUpdating,
            VmManageError::MachineCreate => VmManageError::MachineCreate,
            VmManageError::MachineDumpCore => VmManageError::MachineDumpCore,
            VmManageError::MachineRebuild => VmManageError::MachineRebuild,
            VmManageError::MachineStart => VmManageError::MachineStart,
            VmManageError::MachinePause => VmManageError::MachinePause,
            VmManageError::MachineResume => VmManageError::MachineResume,
            VmManageError::MachineStop => VmManageError::MachineStop,
            VmManageError::MachineDelete => VmManageError::MachineDelete,
            VmManageError::MachineQuery => VmManageError::MachineQuery,
            VmManageError::MachineMetadata => VmManageError::MachineMetadata,
            VmManageError::VmMemSnapshotCreate => VmManageError::VmMemSnapshotCreate,
            VmManageError::VmMemSnapshotDelete => VmManageError::VmMemSnapshotDelete,
            VmManageError::EnvSocket => VmManageError::EnvSocket,
            VmManageError::EnvLogDir => VmManageError::EnvLogDir,
            VmManageError::EnvMetricsDir => VmManageError::EnvMetricsDir,
            VmManageError::EnvAgentInit => VmManageError::EnvAgentInit,
            VmManageError::EnvAgentRequest => VmManageError::EnvAgentRequest,
            VmManageError::EnvKernelList => VmManageError::EnvKernelList,
            VmManageError::EnvMemoryDir => VmManageError::EnvMemoryDir,
            VmManageError::EnvVar(name) => VmManageError::EnvVar(name.clone()),
        }
    }
}

} // verus!
