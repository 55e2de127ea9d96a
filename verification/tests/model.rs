//! Running plans against the verified in-memory store model: install leaves
//! the bytes in place, uninstall leaves nothing, and uninstalling what was
//! never installed fails.

use truststore::mechanism::HostMarkers;
use truststore::store::{StoreAction, StoreModel};
use truststore::{install_plan, uninstall_plan, StoreFlavor, TrustError};

fn only_redhat() -> HostMarkers {
    HostMarkers { redhat: true, debian: false, arch: false, suse: false }
}

fn only_debian() -> HostMarkers {
    HostMarkers { redhat: false, debian: true, arch: false, suse: false }
}

const TOOL: &str = "/usr/sbin/update-ca-certificates";

#[test]
fn installed_certificate_is_stored_byte_for_byte() {
    let cert = vec![48u8, 130, 2, 10, 255, 0, 7];
    let plan = install_plan(
        StoreFlavor::System,
        &only_debian(),
        "example-cert",
        cert.clone(),
        Some(TOOL.to_string()),
    )
    .unwrap();
    let mut store = StoreModel::new();
    assert_eq!(store.apply_plan(&plan), Ok(()));
    let path = "/usr/local/share/ca-certificates/example-cert.crt".to_string();
    assert_eq!(store.lookup(&path), Some(&cert));
}

#[test]
fn install_then_uninstall_leaves_no_residual_file() {
    let cert = vec![1u8, 2, 3];
    let create = "/usr/local/share/ca-certificates/example-cert.crt".to_string();
    let companion = "/etc/ssl/certs/example-cert.pem".to_string();

    let install = install_plan(
        StoreFlavor::System,
        &only_debian(),
        "example-cert",
        cert.clone(),
        Some(TOOL.to_string()),
    )
    .unwrap();
    let mut store = StoreModel::new();
    assert_eq!(store.apply_plan(&install), Ok(()));
    // The refresh tool derives a companion copy; the model does not follow
    // the tool's work, so stand in for it.
    store.write(companion.clone(), cert.clone());

    let uninstall = uninstall_plan(
        StoreFlavor::System,
        &only_debian(),
        "example-cert",
        Some(TOOL.to_string()),
    )
    .unwrap();
    assert_eq!(store.apply_plan(&uninstall), Ok(()));
    assert_eq!(store.lookup(&create), None);
    assert_eq!(store.lookup(&companion), None);
}

#[test]
fn redhat_roundtrip_needs_no_companion() {
    let cert = vec![7u8; 32];
    let create = "/etc/pki/ca-trust/source/anchors/my-root.pem".to_string();
    let tool = "/usr/bin/update-ca-trust".to_string();

    let install = install_plan(
        StoreFlavor::System,
        &only_redhat(),
        "my-root",
        cert.clone(),
        Some(tool.clone()),
    )
    .unwrap();
    let mut store = StoreModel::new();
    assert_eq!(store.apply_plan(&install), Ok(()));
    assert_eq!(store.lookup(&create), Some(&cert));

    let uninstall =
        uninstall_plan(StoreFlavor::System, &only_redhat(), "my-root", Some(tool)).unwrap();
    assert_eq!(store.apply_plan(&uninstall), Ok(()));
    assert_eq!(store.lookup(&create), None);
}

#[test]
fn uninstalling_what_was_never_installed_fails() {
    let uninstall = uninstall_plan(
        StoreFlavor::System,
        &only_redhat(),
        "never-installed",
        Some("/usr/bin/update-ca-trust".to_string()),
    )
    .unwrap();
    let mut store = StoreModel::new();
    assert_eq!(store.apply_plan(&uninstall), Err(TrustError::FilesystemError));
    let path = "/etc/pki/ca-trust/source/anchors/never-installed.pem".to_string();
    assert_eq!(store.lookup(&path), None);
}

#[test]
fn missing_companion_stops_uninstall_after_the_certificate() {
    // Partial failure is kept, not rolled back: the certificate itself is
    // gone, the missing companion is reported.
    let cert = vec![4u8, 2];
    let create = "/usr/local/share/ca-certificates/example-cert.crt".to_string();
    let companion = "/etc/ssl/certs/example-cert.pem".to_string();

    let install = install_plan(
        StoreFlavor::System,
        &only_debian(),
        "example-cert",
        cert,
        Some(TOOL.to_string()),
    )
    .unwrap();
    let mut store = StoreModel::new();
    assert_eq!(store.apply_plan(&install), Ok(()));

    let uninstall = uninstall_plan(
        StoreFlavor::System,
        &only_debian(),
        "example-cert",
        Some(TOOL.to_string()),
    )
    .unwrap();
    assert_eq!(store.apply_plan(&uninstall), Err(TrustError::FilesystemError));
    assert_eq!(store.lookup(&create), None);
    assert_eq!(store.lookup(&companion), None);
}

#[test]
fn writing_twice_replaces_the_contents() {
    let path = "/etc/pki/ca-trust/source/anchors/x.pem".to_string();
    let mut store = StoreModel::new();
    store.write(path.clone(), vec![1u8]);
    store.write(path.clone(), vec![2u8, 3]);
    assert_eq!(store.lookup(&path), Some(&vec![2u8, 3]));
}

#[test]
fn refresh_leaves_files_untouched() {
    let path = "/etc/pki/ca-trust/source/anchors/x.pem".to_string();
    let mut store = StoreModel::new();
    store.write(path.clone(), vec![1u8]);
    let refresh = StoreAction::RunRefresh {
        program: "/usr/bin/update-ca-trust".to_string(),
        args: vec!["extract".to_string()],
    };
    assert_eq!(store.apply(&refresh), Ok(()));
    assert_eq!(store.lookup(&path), Some(&vec![1u8]));
}
