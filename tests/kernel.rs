use pecocloud_vm_mgr::error::VmManageError;
use pecocloud_vm_mgr::kernel::{get_kernel_image_path, KernelItem};

fn item(name: &str, version: &str, path: &str) -> KernelItem {
    KernelItem { kernel_name: name.to_string(), kernel_version: version.to_string(), path: path.to_string() }
}

#[test]
fn first_matching_record_wins() {
    let catalog = vec![
        item("vmlinux", "5.4", "/k/a"),
        item("vmlinux", "5.10", "/k/b"),
        item("vmlinux", "5.10", "/k/c"),
    ];
    let r = get_kernel_image_path(&catalog, &"vmlinux".to_string(), &"5.10".to_string());
    assert_eq!(r, Ok("/k/b".to_string()));
}

#[test]
fn missing_kernel_reports_name_and_version() {
    let catalog = vec![item("vmlinux", "5.4", "/k/a")];
    let r = get_kernel_image_path(&catalog, &"vmlinux".to_string(), &"5.10".to_string());
    assert_eq!(r, Err(VmManageError::KernelNotFound { name: "vmlinux".to_string(), version: "5.10".to_string() }));
    let r = get_kernel_image_path(&vec![], &"vmlinux".to_string(), &"5.4".to_string());
    assert!(r.is_err());
}

#[test]
fn rewritten_catalog_is_used_at_once() {
    let before = vec![item("vmlinux", "5.10", "/old")];
    let after = vec![item("vmlinux", "5.10", "/new")];
    let name = "vmlinux".to_string();
    let version = "5.10".to_string();
    assert_eq!(get_kernel_image_path(&before, &name, &version), Ok("/old".to_string()));
    assert_eq!(get_kernel_image_path(&after, &name, &version), Ok("/new".to_string()));
}
