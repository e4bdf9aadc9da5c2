use pecocloud_vm_mgr::boot::LogLevel;
use pecocloud_vm_mgr::error::VmManageError;
use pecocloud_vm_mgr::kernel::KernelItem;
use pecocloud_vm_mgr::layout::PoolLayout;
use pecocloud_vm_mgr::model::{MachineCreateConfig, Operation};
use pecocloud_vm_mgr::session::{Action, AgentCommand, Event, Session, Stage, Task};
use pecocloud_vm_mgr::status::VmStatus;

const POOL: u128 = 0x11111111_2222_4333_8444_555555555555;
const VM: u128 = 0x67e5504410b1426f9247bb680e5fe0c8;
const VOLUME: u128 = 0x0123456789abcdef0123456789abcdef;

fn layout() -> PoolLayout {
    PoolLayout {
        pool_id: POOL,
        socket_dir: "/run/sock".to_string(),
        logs_dir: "/run/log".to_string(),
        metrics_dir: "/run/metrics".to_string(),
        memory_snapshot_dir: "/snap".to_string(),
    }
}

fn create_config() -> MachineCreateConfig {
    MachineCreateConfig {
        memory_size_in_mib: 256,
        vcpu_count: 1,
        kernel_name: "vmlinux".to_string(),
        kernel_version: "5.10".to_string(),
        enable_hyperthreading: None,
        initial_metadata: None,
        volume_size_in_mib: 1024,
    }
}

fn catalog() -> Vec<KernelItem> {
    vec![KernelItem {
        kernel_name: "vmlinux".to_string(),
        kernel_version: "5.10".to_string(),
        path: "/kernels/vmlinux-5.10".to_string(),
    }]
}

fn finish(a: &Action) -> &Result<u128, VmManageError> {
    match a {
        Action::Finish(r) => r,
        other => panic!("expected finish, got {other:?}"),
    }
}

/// Runs a session: the first action, then the action after each event.
fn run(s: &mut Session, events: Vec<Event>) -> Vec<Action> {
    let mut actions = vec![s.request()];
    for e in events {
        actions.push(s.step(e));
    }
    actions
}

#[test]
fn create_runs_the_whole_protocol() {
    let mut s = Session::new(VM, Task::Create(create_config()), layout());
    let a = run(
        &mut s,
        vec![
            Event::Done,
            Event::Catalog(catalog()),
            Event::Volume(VOLUME),
            Event::Device("/dev/nbd0".to_string()),
            Event::Done,
            Event::Done,
            Event::Done,
            Event::Done,
            Event::Done,
            Event::Done,
        ],
    );
    assert!(matches!(&a[0], Action::AcquireLock { name, lease_seconds: 120 }
        if name == "/lock/vm/67e55044-10b1-426f-9247-bb680e5fe0c8"));
    assert!(matches!(a[1], Action::ReadKernelCatalog));
    assert!(matches!(a[2], Action::CreateVolume { size_mib: 1024 }));
    assert!(matches!(a[3], Action::AttachVolume { volume: VOLUME }));
    match &a[4] {
        Action::NewMachine(c) => {
            assert_eq!(c.kernel_image_path, "/kernels/vmlinux-5.10");
            assert_eq!(c.root_drive.drive_id, "rootfs");
            assert_eq!(c.root_drive.partuuid, "01234567-89ab-cdef-0123-456789abcdef");
            assert_eq!(c.root_drive.path_on_host, "/dev/nbd0");
            assert!(c.root_drive.is_root_device && !c.root_drive.is_read_only);
            assert_eq!((c.mem_size_mib, c.vcpu_count), (256, 1));
            assert_eq!(c.log_level, LogLevel::Info);
            assert!(!c.log_clear && !c.metrics_clear && c.disable_validation && !c.enable_jailer && c.network_clear);
            assert_eq!(
                c.socket_path,
                "/run/sock/11111111-2222-4333-8444-555555555555/67e55044-10b1-426f-9247-bb680e5fe0c8.socket"
            );
        },
        other => panic!("expected new machine, got {other:?}"),
    }
    assert!(matches!(a[5], Action::DumpCore));
    assert!(matches!(&a[6], Action::InsertConfig(c) if c.volume_size_in_mib == 1024));
    assert!(matches!(a[7], Action::InsertCore { status: 1 }));
    assert!(matches!(a[8], Action::InsertVolume { volume: VOLUME }));
    assert!(matches!(a[9], Action::ReleaseLock));
    assert_eq!(finish(&a[10]), &Ok(VM));
    assert!(s.is_finished());
}

#[test]
fn create_under_a_fresh_id() {
    let a = Session::create(create_config(), layout());
    let b = Session::create(create_config(), layout());
    assert_ne!(a.vmid, b.vmid);
    assert_eq!(a.stage, Stage::Acquire);
}

#[test]
fn create_with_unknown_kernel_fails_before_any_volume() {
    let mut s = Session::new(VM, Task::Create(create_config()), layout());
    let other = vec![KernelItem {
        kernel_name: "vmlinux".to_string(),
        kernel_version: "6.1".to_string(),
        path: "/k".to_string(),
    }];
    let a = run(&mut s, vec![Event::Done, Event::Catalog(other), Event::Done]);
    assert!(matches!(a[2], Action::ReleaseLock));
    assert_eq!(
        finish(&a[3]),
        &Err(VmManageError::KernelNotFound { name: "vmlinux".to_string(), version: "5.10".to_string() })
    );
}

#[test]
fn create_failure_after_attach_detaches_and_deletes_the_volume() {
    let mut s = Session::new(VM, Task::Create(create_config()), layout());
    let a = run(
        &mut s,
        vec![
            Event::Done,
            Event::Catalog(catalog()),
            Event::Volume(VOLUME),
            Event::Device("/dev/nbd0".to_string()),
            Event::Done,
            Event::Done,
            Event::Failed,
            Event::Failed,
            Event::Done,
            Event::Failed,
        ],
    );
    assert!(matches!(a[7], Action::DetachVolume { volume: VOLUME }));
    assert!(matches!(a[8], Action::DeleteVolume { volume: VOLUME }));
    assert!(matches!(a[9], Action::ReleaseLock));
    assert_eq!(finish(&a[10]), &Err(VmManageError::DBInsertion));
}

#[test]
fn create_failure_at_attach_deletes_the_volume() {
    let mut s = Session::new(VM, Task::Create(create_config()), layout());
    let a = run(
        &mut s,
        vec![Event::Done, Event::Catalog(catalog()), Event::Volume(VOLUME), Event::Failed, Event::Done, Event::Done],
    );
    assert!(matches!(a[4], Action::DeleteVolume { volume: VOLUME }));
    assert!(matches!(a[5], Action::ReleaseLock));
    assert_eq!(finish(&a[6]), &Err(VmManageError::ReqwestError));
}

#[test]
fn lock_failure_finishes_without_release() {
    let mut s = Session::new(VM, Task::Power(Operation::Start), layout());
    let a = run(&mut s, vec![Event::Failed]);
    assert_eq!(finish(&a[1]), &Err(VmManageError::LockUnavailable));
}

fn power(op: Operation, loaded: VmStatus) -> Vec<Action> {
    let mut s = Session::new(VM, Task::Power(op), layout());
    run(&mut s, vec![Event::Done, Event::Loaded(loaded.code()), Event::Done, Event::Done, Event::Done, Event::Done, Event::Done])
}

#[test]
fn start_writes_running() {
    let a = power(Operation::Start, VmStatus::Created);
    assert!(matches!(a[1], Action::LoadCore));
    assert!(matches!(a[2], Action::RebuildMachine));
    assert!(matches!(a[3], Action::Agent(AgentCommand::Start)));
    assert!(matches!(a[4], Action::DumpCore));
    assert!(matches!(a[5], Action::UpdateCore { status: 2 }));
    assert!(matches!(a[6], Action::ReleaseLock));
    assert_eq!(finish(&a[7]), &Ok(VM));
}

#[test]
fn get_status_after_start_queries_the_agent() {
    let a = power(Operation::Start, VmStatus::Stopped);
    assert!(matches!(a[5], Action::UpdateCore { status: 2 }));
    let mut s = Session::new(VM, Task::GetStatus, layout());
    let a = run(&mut s, vec![Event::Done, Event::Loaded(2), Event::Done, Event::Done, Event::Done, Event::Done]);
    assert!(matches!(a[3], Action::Agent(AgentCommand::DescribeInstance)));
    assert!(matches!(a[4], Action::Agent(AgentCommand::ExportConfig)));
    assert!(matches!(a[5], Action::ReleaseLock));
    assert_eq!(finish(&a[6]), &Ok(VM));
}

#[test]
fn pause_then_snapshot() {
    let a = power(Operation::Pause, VmStatus::Running);
    assert!(matches!(a[3], Action::Agent(AgentCommand::Pause)));
    assert!(matches!(a[5], Action::UpdateCore { status: 3 }));
    let sid = 0xaaaaaaaa_bbbb_4ccc_8ddd_eeeeeeeeeeee;
    let mut s = Session::new(VM, Task::CreateSnapshot(sid), layout());
    let a = run(&mut s, vec![Event::Done, Event::Loaded(3), Event::Done, Event::Done, Event::Done, Event::Done, Event::Done]);
    let dir = "/snap/11111111-2222-4333-8444-555555555555/67e55044-10b1-426f-9247-bb680e5fe0c8";
    assert!(matches!(&a[2], Action::MakeDir { path } if path == dir));
    assert!(matches!(a[3], Action::RebuildMachine));
    match &a[4] {
        Action::Agent(AgentCommand::CreateSnapshot { mem_path, vm_path }) => {
            assert_eq!(mem_path, &format!("{dir}/aaaaaaaa-bbbb-4ccc-8ddd-eeeeeeeeeeee.mem"));
            assert_eq!(vm_path, &format!("{dir}/aaaaaaaa-bbbb-4ccc-8ddd-eeeeeeeeeeee.vm"));
        },
        other => panic!("expected snapshot, got {other:?}"),
    }
    assert!(matches!(a[5], Action::InsertSnapshot { snapshot, .. } if snapshot == sid));
    assert!(matches!(a[6], Action::ReleaseLock));
    assert_eq!(finish(&a[7]), &Ok(sid));
}

#[test]
fn snapshot_of_a_running_vm_is_refused() {
    let mut s = Session::create_snapshot(VM, layout());
    let a = run(&mut s, vec![Event::Done, Event::Loaded(2), Event::Done]);
    assert!(matches!(a[2], Action::ReleaseLock));
    assert_eq!(finish(&a[3]), &Err(VmManageError::VmMemSnapshotCreate));
}

#[test]
fn resume_then_delete_snapshot() {
    let a = power(Operation::Resume, VmStatus::Paused);
    assert!(matches!(a[3], Action::Agent(AgentCommand::Resume)));
    assert!(matches!(a[5], Action::UpdateCore { status: 2 }));
    let sid = 0xaaaaaaaa_bbbb_4ccc_8ddd_eeeeeeeeeeee;
    let mut s = Session::new(VM, Task::DeleteSnapshot(sid), layout());
    let a = run(&mut s, vec![Event::Done, Event::Done, Event::Done, Event::Done, Event::Done]);
    assert!(matches!(&a[1], Action::RemoveFile { path } if path.ends_with("aaaaaaaa-bbbb-4ccc-8ddd-eeeeeeeeeeee.mem")));
    assert!(matches!(&a[2], Action::RemoveFile { path } if path.ends_with("aaaaaaaa-bbbb-4ccc-8ddd-eeeeeeeeeeee.vm")));
    assert!(matches!(a[3], Action::DeleteSnapshotRow { snapshot } if snapshot == sid));
    assert!(matches!(a[4], Action::ReleaseLock));
    assert_eq!(finish(&a[5]), &Ok(VM));
}

#[test]
fn deleting_a_missing_snapshot_file_is_io() {
    let mut s = Session::new(VM, Task::DeleteSnapshot(7), layout());
    let a = run(&mut s, vec![Event::Done, Event::Failed, Event::Done]);
    assert!(matches!(a[2], Action::ReleaseLock));
    assert_eq!(finish(&a[3]), &Err(VmManageError::IoError));
}

#[test]
fn delete_stops_the_vmm_and_removes_everything() {
    let mut s = Session::new(VM, Task::Delete, layout());
    let a = run(
        &mut s,
        vec![
            Event::Done,
            Event::Loaded(2),
            Event::Done,
            Event::Failed,
            Event::Done,
            Event::Done,
            Event::Done,
            Event::Done,
            Event::Done,
            Event::Ids(vec![VOLUME]),
            Event::Done,
            Event::Done,
            Event::Done,
            Event::Ids(vec![9]),
            Event::Done,
            Event::Done,
            Event::Done,
            Event::Done,
        ],
    );
    assert!(matches!(a[3], Action::Agent(AgentCommand::Shutdown)));
    assert!(matches!(a[4], Action::Agent(AgentCommand::StopVmm)));
    assert_eq!(a.iter().filter(|x| matches!(x, Action::Agent(AgentCommand::StopVmm))).count(), 1);
    assert!(matches!(a[5], Action::DumpCore));
    assert!(matches!(a[6], Action::UpdateCore { status: 5 }));
    assert!(matches!(a[7], Action::DeleteConfig));
    assert!(matches!(a[8], Action::DeleteCore));
    assert!(matches!(a[9], Action::ListVolumes));
    assert!(matches!(a[10], Action::DeleteVolumeRow { volume: VOLUME }));
    assert!(matches!(a[11], Action::DetachVolume { volume: VOLUME }));
    assert!(matches!(a[12], Action::DeleteVolume { volume: VOLUME }));
    assert!(matches!(a[13], Action::ListSnapshots));
    assert!(matches!(&a[14], Action::RemoveFile { path } if path.ends_with("00000000-0000-0000-0000-000000000009.mem")));
    assert!(matches!(&a[15], Action::RemoveFile { path } if path.ends_with("00000000-0000-0000-0000-000000000009.vm")));
    assert!(matches!(a[16], Action::DeleteSnapshotRow { snapshot: 9 }));
    assert!(matches!(a[17], Action::ReleaseLock));
    assert_eq!(finish(&a[18]), &Ok(VM));
}

#[test]
fn snapshot_delete_after_vm_delete_is_io() {
    // After the delete above removed the files, removing them again fails.
    let mut s = Session::new(VM, Task::DeleteSnapshot(9), layout());
    let a = run(&mut s, vec![Event::Done, Event::Failed, Event::Failed]);
    assert_eq!(finish(&a[3]), &Err(VmManageError::IoError));
}

#[test]
fn second_pause_sees_paused_and_is_illegal() {
    let first = power(Operation::Pause, VmStatus::Running);
    assert!(matches!(first[5], Action::UpdateCore { status: 3 }));
    let mut s = Session::new(VM, Task::Power(Operation::Pause), layout());
    let a = run(&mut s, vec![Event::Done, Event::Loaded(3), Event::Done]);
    assert!(matches!(a[2], Action::ReleaseLock));
    assert!(a.iter().all(|x| !matches!(x, Action::RebuildMachine | Action::Agent(_) | Action::UpdateCore { .. })));
    assert_eq!(finish(&a[3]), &Err(VmManageError::IllegalState));
}

#[test]
fn release_failure_does_not_mask_the_error() {
    let mut s = Session::new(VM, Task::Power(Operation::Start), layout());
    let a = run(&mut s, vec![Event::Done, Event::Loaded(2), Event::Failed]);
    assert_eq!(finish(&a[3]), &Err(VmManageError::IllegalState));
}

#[test]
fn agent_failure_keeps_status_and_names_the_command() {
    let mut s = Session::new(VM, Task::Power(Operation::Resume), layout());
    let a = run(&mut s, vec![Event::Done, Event::Loaded(3), Event::Done, Event::Failed, Event::Done]);
    assert!(a.iter().all(|x| !matches!(x, Action::UpdateCore { .. })));
    assert_eq!(finish(&a[5]), &Err(VmManageError::MachineResume));
}

#[test]
fn missing_vm_and_corrupt_status() {
    let mut s = Session::new(VM, Task::ModifyMetadata("m".to_string()), layout());
    let a = run(&mut s, vec![Event::Done, Event::Missing, Event::Done]);
    assert_eq!(finish(&a[3]), &Err(VmManageError::VmNotFound(VM)));
    let mut s = Session::new(VM, Task::ModifyMetadata("m".to_string()), layout());
    let a = run(&mut s, vec![Event::Done, Event::Loaded(9), Event::Done]);
    assert_eq!(finish(&a[3]), &Err(VmManageError::DBFetching));
}

#[test]
fn modify_metadata_sends_the_text() {
    let mut s = Session::new(VM, Task::ModifyMetadata("{\"k\":1}".to_string()), layout());
    let a = run(&mut s, vec![Event::Done, Event::Loaded(2), Event::Done, Event::Done, Event::Done]);
    assert!(matches!(&a[3], Action::Agent(AgentCommand::UpdateMetadata(m)) if m == "{\"k\":1}"));
    assert!(matches!(a[4], Action::ReleaseLock));
    assert_eq!(finish(&a[5]), &Ok(VM));
}

/// Runs `task` with `events` and returns the reported result.
fn outcome(task: Task, events: Vec<Event>) -> Result<u128, VmManageError> {
    let mut s = Session::new(VM, task, layout());
    let mut a = s.request();
    for e in events {
        a = s.step(e);
        if s.is_finished() {
            break;
        }
    }
    let mut guard = 0;
    while !s.is_finished() && guard < 8 {
        a = s.step(Event::Done);
        guard += 1;
    }
    match finish(&a) {
        Ok(id) => Ok(*id),
        Err(e) => Err(e.duplicate()),
    }
}

#[test]
fn each_step_names_its_failure() {
    let create = || Task::Create(create_config());
    assert_eq!(outcome(create(), vec![Event::Done, Event::Malformed]), Err(VmManageError::SerdeError));
    assert_eq!(outcome(create(), vec![Event::Done, Event::Failed]), Err(VmManageError::IoError));
    assert_eq!(
        outcome(create(), vec![Event::Done, Event::Catalog(catalog()), Event::Failed]),
        Err(VmManageError::ReqwestError)
    );
    let upto_machine = |last: Vec<Event>| {
        let mut v = vec![Event::Done, Event::Catalog(catalog()), Event::Volume(VOLUME), Event::Device("/d".to_string())];
        v.extend(last);
        v
    };
    assert_eq!(outcome(create(), upto_machine(vec![Event::Failed])), Err(VmManageError::MachineCreate));
    assert_eq!(outcome(create(), upto_machine(vec![Event::Done, Event::Failed])), Err(VmManageError::MachineDumpCore));
    let start = || Task::Power(Operation::Start);
    assert_eq!(outcome(start(), vec![Event::Done, Event::Loaded(1), Event::Failed]), Err(VmManageError::MachineRebuild));
    assert_eq!(
        outcome(start(), vec![Event::Done, Event::Loaded(1), Event::Done, Event::Failed]),
        Err(VmManageError::MachineStart)
    );
    assert_eq!(
        outcome(start(), vec![Event::Done, Event::Loaded(1), Event::Done, Event::Done, Event::Done, Event::Failed]),
        Err(VmManageError::DBUpdating)
    );
    assert_eq!(
        outcome(Task::Power(Operation::Stop), vec![Event::Done, Event::Loaded(2), Event::Done, Event::Failed]),
        Err(VmManageError::MachineStop)
    );
    assert_eq!(
        outcome(Task::Power(Operation::Pause), vec![Event::Done, Event::Loaded(2), Event::Done, Event::Failed]),
        Err(VmManageError::MachinePause)
    );
    assert_eq!(
        outcome(Task::GetStatus, vec![Event::Done, Event::Loaded(2), Event::Done, Event::Done, Event::Failed]),
        Err(VmManageError::MachineQuery)
    );
    assert_eq!(
        outcome(Task::ModifyMetadata("x".to_string()), vec![Event::Done, Event::Loaded(2), Event::Done, Event::Failed]),
        Err(VmManageError::MachineMetadata)
    );
    assert_eq!(
        outcome(Task::Delete, vec![Event::Done, Event::Loaded(4), Event::Done, Event::Done, Event::Failed]),
        Err(VmManageError::MachineStop)
    );
    assert_eq!(
        outcome(
            Task::Delete,
            vec![Event::Done, Event::Loaded(4), Event::Done, Event::Done, Event::Done, Event::Done, Event::Done, Event::Failed]
        ),
        Err(VmManageError::DBDeleting)
    );
    assert_eq!(outcome(Task::Delete, vec![Event::Done, Event::Loaded(5)]), Err(VmManageError::IllegalState));
    assert_eq!(
        outcome(Task::CreateSnapshot(1), vec![Event::Done, Event::Loaded(3), Event::Failed]),
        Err(VmManageError::IoError)
    );
    assert_eq!(
        outcome(Task::CreateSnapshot(1), vec![Event::Done, Event::Loaded(3), Event::Done, Event::Done, Event::Failed]),
        Err(VmManageError::VmMemSnapshotCreate)
    );
    assert_eq!(
        outcome(Task::DeleteSnapshot(1), vec![Event::Done, Event::Done, Event::Done, Event::Failed]),
        Err(VmManageError::DBDeleting)
    );
}

#[test]
fn delete_with_no_volumes_or_snapshots() {
    let mut s = Session::new(VM, Task::Delete, layout());
    let a = run(
        &mut s,
        vec![
            Event::Done,
            Event::Loaded(1),
            Event::Done,
            Event::Done,
            Event::Done,
            Event::Done,
            Event::Done,
            Event::Done,
            Event::Done,
            Event::Ids(vec![]),
            Event::Ids(vec![]),
            Event::Done,
        ],
    );
    assert!(matches!(a[10], Action::ListSnapshots));
    assert!(matches!(a[11], Action::ReleaseLock));
    assert_eq!(finish(&a[12]), &Ok(VM));
}
