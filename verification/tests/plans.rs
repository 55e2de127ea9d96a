//! Planning behaviour: flavor dispatch, mechanism selection, filename
//! validation, and the exact action sequences for each mechanism.

use truststore::mechanism::{check_filename, select_mechanism, HostMarkers, Mechanism};
use truststore::store::StoreAction;
use truststore::{install_plan, install_platform, uninstall_plan, uninstall_platform};
use truststore::{StoreFlavor, TrustError};

fn no_markers() -> HostMarkers {
    HostMarkers { redhat: false, debian: false, arch: false, suse: false }
}

fn only_redhat() -> HostMarkers {
    HostMarkers { redhat: true, debian: false, arch: false, suse: false }
}

fn only_debian() -> HostMarkers {
    HostMarkers { redhat: false, debian: true, arch: false, suse: false }
}

fn tool(path: &str) -> Option<String> {
    Some(path.to_string())
}

#[test]
fn install_java_is_unsupported() {
    let r = install_platform(StoreFlavor::Java, &only_debian(), "example-cert", vec![1, 2, 3]);
    assert_eq!(r, Err(TrustError::UnsupportedFlavor));
}

#[test]
fn install_nss_is_unsupported() {
    let r = install_platform(StoreFlavor::NSS, &only_debian(), "example-cert", vec![1, 2, 3]);
    assert_eq!(r, Err(TrustError::UnsupportedFlavor));
}

#[test]
fn uninstall_java_is_unsupported() {
    let r = uninstall_platform(StoreFlavor::Java, &only_debian(), "example-cert");
    assert_eq!(r, Err(TrustError::UnsupportedFlavor));
}

#[test]
fn uninstall_nss_is_unsupported() {
    let r = uninstall_platform(StoreFlavor::NSS, &only_debian(), "example-cert");
    assert_eq!(r, Err(TrustError::UnsupportedFlavor));
}

#[test]
fn no_marker_directory_means_store_not_found() {
    let r = install_platform(StoreFlavor::System, &no_markers(), "example-cert", vec![1]);
    assert_eq!(r, Err(TrustError::StoreNotFound));
    let r = uninstall_platform(StoreFlavor::System, &no_markers(), "example-cert");
    assert_eq!(r, Err(TrustError::StoreNotFound));
}

#[test]
fn selection_follows_priority_order() {
    let all = HostMarkers { redhat: true, debian: true, arch: true, suse: true };
    assert_eq!(select_mechanism(&all), Some(Mechanism::RedHat));
    let no_redhat = HostMarkers { redhat: false, debian: true, arch: true, suse: true };
    assert_eq!(select_mechanism(&no_redhat), Some(Mechanism::Debian));
    let arch_suse = HostMarkers { redhat: false, debian: false, arch: true, suse: true };
    assert_eq!(select_mechanism(&arch_suse), Some(Mechanism::Arch));
    let suse = HostMarkers { redhat: false, debian: false, arch: false, suse: true };
    assert_eq!(select_mechanism(&suse), Some(Mechanism::Suse));
    assert_eq!(select_mechanism(&no_markers()), None);
}

#[test]
fn selection_is_deterministic() {
    let m = only_debian();
    assert_eq!(select_mechanism(&m), select_mechanism(&m));
}

#[test]
fn missing_tool_fails_before_any_action() {
    let r = install_plan(StoreFlavor::System, &only_redhat(), "example-cert", vec![1], None);
    assert_eq!(r, Err(TrustError::ToolNotFound));
    let r = uninstall_plan(StoreFlavor::System, &only_redhat(), "example-cert", None);
    assert_eq!(r, Err(TrustError::ToolNotFound));
}

#[test]
fn debian_install_plan_writes_crt_then_refreshes() {
    let cert = vec![48u8, 130, 1, 1];
    let plan = install_plan(
        StoreFlavor::System,
        &only_debian(),
        "example-cert",
        cert.clone(),
        tool("/usr/sbin/update-ca-certificates"),
    )
    .unwrap();
    assert_eq!(
        plan,
        vec![
            StoreAction::WriteFile {
                path: "/usr/local/share/ca-certificates/example-cert.crt".to_string(),
                contents: cert,
            },
            StoreAction::RunRefresh {
                program: "/usr/sbin/update-ca-certificates".to_string(),
                args: vec![],
            },
        ]
    );
}

#[test]
fn debian_uninstall_plan_removes_both_files_then_refreshes() {
    let plan = uninstall_plan(
        StoreFlavor::System,
        &only_debian(),
        "example-cert",
        tool("/usr/sbin/update-ca-certificates"),
    )
    .unwrap();
    assert_eq!(
        plan,
        vec![
            StoreAction::RemoveFile {
                path: "/usr/local/share/ca-certificates/example-cert.crt".to_string(),
            },
            StoreAction::RemoveFile { path: "/etc/ssl/certs/example-cert.pem".to_string() },
            StoreAction::RunRefresh {
                program: "/usr/sbin/update-ca-certificates".to_string(),
                args: vec![],
            },
        ]
    );
}

#[test]
fn redhat_install_plan_writes_pem_and_extracts() {
    let cert = vec![5u8, 6, 7];
    let plan = install_plan(
        StoreFlavor::System,
        &only_redhat(),
        "my-root",
        cert.clone(),
        tool("/usr/bin/update-ca-trust"),
    )
    .unwrap();
    assert_eq!(
        plan,
        vec![
            StoreAction::WriteFile {
                path: "/etc/pki/ca-trust/source/anchors/my-root.pem".to_string(),
                contents: cert,
            },
            StoreAction::RunRefresh {
                program: "/usr/bin/update-ca-trust".to_string(),
                args: vec!["extract".to_string()],
            },
        ]
    );
}

#[test]
fn redhat_uninstall_plan_removes_single_file() {
    let plan = uninstall_plan(
        StoreFlavor::System,
        &only_redhat(),
        "my-root",
        tool("/usr/bin/update-ca-trust"),
    )
    .unwrap();
    assert_eq!(
        plan,
        vec![
            StoreAction::RemoveFile {
                path: "/etc/pki/ca-trust/source/anchors/my-root.pem".to_string(),
            },
            StoreAction::RunRefresh {
                program: "/usr/bin/update-ca-trust".to_string(),
                args: vec!["extract".to_string()],
            },
        ]
    );
}

#[test]
fn arch_plans_use_trust_extract_compat() {
    let markers = HostMarkers { redhat: false, debian: false, arch: true, suse: false };
    let plan = install_plan(
        StoreFlavor::System,
        &markers,
        "corp-ca",
        vec![9u8],
        tool("/usr/bin/trust"),
    )
    .unwrap();
    assert_eq!(
        plan,
        vec![
            StoreAction::WriteFile {
                path: "/etc/ca-certificates/trust-source/anchors/corp-ca.crt".to_string(),
                contents: vec![9u8],
            },
            StoreAction::RunRefresh {
                program: "/usr/bin/trust".to_string(),
                args: vec!["extract-compat".to_string()],
            },
        ]
    );
}

#[test]
fn suse_plans_use_pem_extension() {
    let markers = HostMarkers { redhat: false, debian: false, arch: false, suse: true };
    let plan = install_plan(
        StoreFlavor::System,
        &markers,
        "corp-ca",
        vec![9u8],
        tool("/usr/sbin/update-ca-certificates"),
    )
    .unwrap();
    assert_eq!(
        plan,
        vec![
            StoreAction::WriteFile {
                path: "/usr/share/pki/trust/anchors/corp-ca.pem".to_string(),
                contents: vec![9u8],
            },
            StoreAction::RunRefresh {
                program: "/usr/sbin/update-ca-certificates".to_string(),
                args: vec![],
            },
        ]
    );
}

#[test]
fn filenames_with_separators_or_leading_dotdot_are_rejected() {
    assert!(check_filename("example-cert"));
    assert!(check_filename("corp.ca.2024"));
    assert!(!check_filename(""));
    assert!(!check_filename("a/b"));
    assert!(!check_filename("/etc/passwd"));
    assert!(!check_filename("a\\b"));
    assert!(!check_filename(".."));
    assert!(!check_filename("..evil"));
}

#[test]
fn platform_install_resolves_tool_on_this_host() {
    // The refresh tool may or may not be on this host's search path; either
    // the lookup fails before any plan exists, or the plan has the exact
    // install shape.
    match install_platform(StoreFlavor::System, &only_redhat(), "example-cert", vec![1u8]) {
        Err(e) => assert_eq!(e, TrustError::ToolNotFound),
        Ok(plan) => {
            assert_eq!(plan.len(), 2);
            assert_eq!(
                plan[0],
                StoreAction::WriteFile {
                    path: "/etc/pki/ca-trust/source/anchors/example-cert.pem".to_string(),
                    contents: vec![1u8],
                }
            );
            match &plan[1] {
                StoreAction::RunRefresh { program, args } => {
                    assert!(program.ends_with("update-ca-trust"));
                    assert_eq!(args, &vec!["extract".to_string()]);
                }
                other => panic!("expected a refresh action, got {:?}", other),
            }
        }
    }
}

#[test]
fn refresh_outcome_requires_clean_exit() {
    assert_eq!(truststore::refresh_outcome(true, true), Ok(()));
    assert_eq!(truststore::refresh_outcome(true, false), Err(TrustError::RefreshFailed));
    assert_eq!(truststore::refresh_outcome(false, false), Err(TrustError::RefreshFailed));
}
