//! Request and configuration records exchanged with tenants.
use vstd::prelude::*;

verus! {

/// The body of a failed HTTP reply.
#[derive(Debug, Clone)]
pub struct ErrorResponse {
    pub message: String,
}

/// Parameters a tenant gives to create a microVM.
#[derive(Debug, Clone)]
pub struct MachineCreateConfig {
    pub memory_size_in_mib: i32,
    pub vcpu_count: i32,
    pub kernel_name: String,
    pub kernel_version: String,
    pub enable_hyperthreading: Option<bool>,
    pub initial_metadata: Option<String>,
    pub volume_size_in_mib: i32,
}

/// The body of a create request.
#[derive(Debug, Clone)]
pub struct VmCreateRequest {
    pub config: MachineCreateConfig,
}

/// The (empty) body of a restore-all request.
#[derive(Debug, Clone)]
pub struct VmRestoreAllRequest {}

/// A power-state change a tenant may request.
#[derive(Debug, Clone, Copy, PartialEq, Eq, Structural)]
pub enum Operation {
    Start,
    Pause,
    Resume,
    Stop,
}

impl ErrorResponse {
    pub fn new(message: String) -> (r: ErrorResponse)
        ensures
            r.message == message,
    {
        ErrorResponse { message }
    }
}

impl MachineCreateConfig {
    /// An equal copy of this configuration.
    pub fn duplicate(&self) -> (r: MachineCreateConfig)
        ensures
            r == *self,
    {
        let initial_metadata = match &self.initial_metadata {
            Some(m) => Some(m.clone()),
            None => None,
        };
        MachineCreateConfig {
            memory_size_in_mib: self.memory_size_in_mib,
            vcpu_count: self.vcpu_count,
            kernel_name: self.kernel_name.clone(),
            kernel_version: self.kernel_version.clone(),
            enable_hyperthreading: self.enable_hyperthreading,
            initial_metadata,
            volume_size_in_mib: self.volume_size_in_mib,
        }
    }
}

} // verus!
