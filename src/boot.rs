//! The boot configuration handed to the hypervisor agent for a new VM.
use vstd::prelude::*;
use crate::ids::{hyphenated_text, id_text};
use crate::layout::PoolLayout;
use crate::model::MachineCreateConfig;

verus! {

/// Verbosity of the hypervisor's log.
#[derive(Debug, Clone, Copy, PartialEq, Eq, Structural)]
pub enum LogLevel {
    Error,
    Warning,
    Info,
    Debug,
}

/// A block device attached to the guest.
#[derive(Debug)]
pub struct RootDrive {
    pub drive_id: String,
    pub partuuid: String,
    pub path_on_host: String,
    pub is_root_device: bool,
    pub is_read_only: bool,
}

/// Everything the agent needs to set up a VM, except its timeouts.
#[derive(Debug)]
pub struct BootConfig {
    pub socket_path: String,
    pub log_fifo: String,
    pub metrics_fifo: String,
    pub log_level: LogLevel,
    pub log_clear: bool,
    pub metrics_clear: bool,
    pub kernel_image_path: String,
    pub root_drive: RootDrive,
    pub mem_size_mib: i32,
    pub vcpu_count: i32,
    pub ht_enabled: Option<bool>,
    pub disable_validation: bool,
    pub enable_jailer: bool,
    pub network_clear: bool,
    pub init_metadata: Option<String>,
}

/// `c` is the boot configuration of VM `vmid` of the pool, booting `kernel`
/// from the volume `volume` attached at `device`, as `cfg` asks.
pub open spec fn is_boot_config_for(
    c: BootConfig,
    layout: PoolLayout,
    vmid: u128,
    kernel: Seq<char>,
    volume: u128,
    device: Seq<char>,
    cfg: MachineCreateConfig,
) -> bool {
    &&& c.socket_path@ == layout.socket_path_of(vmid)
    &&& c.log_fifo@ == layout.log_fifo_of(vmid)
    &&& c.metrics_fifo@ == layout.metrics_fifo_of(vmid)
    &&& c.log_level == LogLevel::Info
    &&& !c.log_clear
    &&& !c.metrics_clear
    &&& c.kernel_image_path@ == kernel
    &&& c.root_drive.drive_id@ == "rootfs"@
    &&& c.root_drive.partuuid@ == hyphenated_text(volume)
    &&& c.root_drive.path_on_host@ == device
    &&& c.root_drive.is_root_device
    &&& !c.root_drive.is_read_only
    &&& c.mem_size_mib == cfg.memory_size_in_mib
    &&& c.vcpu_count == cfg.vcpu_count
    &&& c.ht_enabled == cfg.enable_hyperthreading
    &&& c.disable_validation
    &&& !c.enable_jailer
    &&& c.network_clear
    &&& c.init_metadata == cfg.initial_metadata
}

/// The boot configuration of a new VM: a single writable root drive backed
/// by the attached volume, the requested memory and vCPUs, info-level
/// logging into kept FIFOs, validation and jailer off.
pub fn boot_config(
    layout: &PoolLayout,
    vmid: u128,
    kernel_image_path: String,
    volume: u128,
    device: String,
    cfg: &MachineCreateConfig,
) -> (r: BootConfig)
    ensures
        is_boot_config_for(r, *layout, vmid, kernel_image_path@, volume, device@, *cfg),
{
    let init_metadata = match &cfg.initial_metadata {
        Some(m) => Some(m.clone()),
        None => None,
    };
    BootConfig {
        socket_path: layout.socket_path(vmid),
        log_fifo: layout.log_fifo(vmid),
        metrics_fifo: layout.metrics_fifo(vmid),
        log_level: LogLevel::Info,
        log_clear: false,
        metrics_clear: false,
        kernel_image_path,
        root_drive: RootDrive {
            drive_id: String::from_str("rootfs"),
            partuuid: id_text(volume),
            path_on_host: device,
            is_root_device: true,
            is_read_only: false,
        },
        mem_size_mib: cfg.memory_size_in_mib,
        vcpu_count: cfg.vcpu_count,
        ht_enabled: cfg.enable_hyperthreading,
        disable_validation: true,
        enable_jailer: false,
        network_clear: true,
        init_metadata,
    }
}

} // verus!
