use pecocloud_vm_mgr::layout::{join_path, lock_name, PoolLayout, DEFAULT_LEASE_SECONDS};

const POOL: u128 = 0x11111111_2222_4333_8444_555555555555;
const VM: u128 = 0x67e5504410b1426f9247bb680e5fe0c8;
const SNAP: u128 = 0xaaaaaaaa_bbbb_4ccc_8ddd_eeeeeeeeeeee;

fn layout() -> PoolLayout {
    PoolLayout {
        pool_id: POOL,
        socket_dir: "/run/vm".to_string(),
        logs_dir: "/var/log/vm/".to_string(),
        metrics_dir: "metrics".to_string(),
        memory_snapshot_dir: "/snap".to_string(),
    }
}

#[test]
fn join_adds_one_separator() {
    assert_eq!(join_path(&"/a".to_string(), &"b".to_string()), "/a/b");
    assert_eq!(join_path(&"/a/".to_string(), &"b".to_string()), "/a/b");
    assert_eq!(join_path(&"".to_string(), &"b".to_string()), "b");
}

#[test]
fn per_vm_paths() {
    let l = layout();
    assert_eq!(
        l.socket_path(VM),
        "/run/vm/11111111-2222-4333-8444-555555555555/67e55044-10b1-426f-9247-bb680e5fe0c8.socket"
    );
    assert_eq!(
        l.log_fifo(VM),
        "/var/log/vm/11111111-2222-4333-8444-555555555555/67e55044-10b1-426f-9247-bb680e5fe0c8.log"
    );
    assert_eq!(
        l.metrics_fifo(VM),
        "metrics/11111111-2222-4333-8444-555555555555/67e55044-10b1-426f-9247-bb680e5fe0c8.metrics"
    );
}

#[test]
fn snapshot_paths() {
    let l = layout();
    let dir = "/snap/11111111-2222-4333-8444-555555555555/67e55044-10b1-426f-9247-bb680e5fe0c8";
    assert_eq!(l.snapshot_dir(VM), dir);
    assert_eq!(l.mem_snapshot_path(VM, SNAP), format!("{dir}/aaaaaaaa-bbbb-4ccc-8ddd-eeeeeeeeeeee.mem"));
    assert_eq!(l.vm_snapshot_path(VM, SNAP), format!("{dir}/aaaaaaaa-bbbb-4ccc-8ddd-eeeeeeeeeeee.vm"));
}

#[test]
fn lock_names_are_per_vm() {
    assert_eq!(lock_name(VM), "/lock/vm/67e55044-10b1-426f-9247-bb680e5fe0c8");
    assert_ne!(lock_name(VM), lock_name(VM + 1));
    assert_eq!(DEFAULT_LEASE_SECONDS, 120);
}
