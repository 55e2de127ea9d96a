//! Install and remove a certificate in a host's trusted-CA store.
//!
//! The library decides everything that can be decided without mutating the
//! host: which trust mechanism is active given the marker directories that
//! were observed, which file the certificate must be written to, which
//! companion files an uninstall must delete, and which refresh command must
//! run afterwards.  The decisions come back as an ordered plan of store
//! actions whose semantics are specified and proved in [`store`]; a thin
//! unverified shell observes the host, runs the plan in order, and stops at
//! the first failure.  Certificate bytes are opaque throughout: nothing here
//! checks their validity.

pub mod laws;
pub mod mechanism;
pub mod store;

mod locator;

use vstd::prelude::*;

use crate::locator::locate_executable;
use crate::mechanism::{
    refresh_tool_name, resolve_descriptor, select_mechanism, seq_views, spec_companion_paths,
    spec_create_path, spec_selected_mechanism, spec_tool_args, valid_cert_filename, HostMarkers,
    Mechanism, TrustDescriptor,
};
use crate::store::StoreAction;

verus! {

/// The trust-store family a caller selects for an operation.
#[derive(Clone, Copy, Debug, PartialEq, Eq, Structural)]
pub enum StoreFlavor {
    /// The operating system's own CA store.
    System,
    /// A browser-local NSS database; no adapter is implemented for it.
    NSS,
    /// A Java keystore; no adapter is implemented for it.
    Java,
}

/// Every failure an install or uninstall can report.
#[derive(Clone, Copy, Debug, PartialEq, Eq, Structural)]
pub enum TrustError {
    /// The requested flavor/operation pair has no backing adapter.
    UnsupportedFlavor,
    /// No known trust-mechanism marker directory exists on this host.
    StoreNotFound,
    /// The mechanism's refresh executable is absent from the search path.
    ToolNotFound,
    /// A certificate file could not be written or removed.
    FilesystemError,
    /// The refresh command failed to spawn or exited nonzero.
    RefreshFailed,
}

/// The action writes exactly `contents` at exactly `path`.
pub open spec fn is_write(a: StoreAction, path: Seq<char>, contents: Seq<u8>) -> bool {
    a matches StoreAction::WriteFile { path: p, contents: c } && p@ == path && c@ == contents
}

/// The action removes exactly the file at `path`.
pub open spec fn is_remove(a: StoreAction, path: Seq<char>) -> bool {
    a matches StoreAction::RemoveFile { path: p } && p@ == path
}

/// The action runs a refresh with exactly the arguments `args`.
pub open spec fn is_refresh(a: StoreAction, args: Seq<Seq<char>>) -> bool {
    a matches StoreAction::RunRefresh { program: _, args: a2 } && seq_views(a2@) == args
}

/// The executable that the plan's final refresh action runs.
pub open spec fn plan_refresh_program(plan: Seq<StoreAction>) -> Seq<char> {
    match plan[plan.len() - 1] {
        StoreAction::RunRefresh { program, args: _ } => program@,
        _ => Seq::empty(),
    }
}

/// An install for `name` under mechanism `m`: write the certificate to the
/// mechanism's create path, then refresh — nothing else, in that order.
pub open spec fn is_install_plan(
    plan: Seq<StoreAction>,
    m: Mechanism,
    name: Seq<char>,
    cert: Seq<u8>,
) -> bool {
    &&& plan.len() == 2
    &&& is_write(plan[0], spec_create_path(m, name), cert)
    &&& is_refresh(plan[1], spec_tool_args(m))
}

/// An uninstall for `name` under mechanism `m`: remove the certificate at
/// the create path, then each companion path in order, then refresh.
pub open spec fn is_uninstall_plan(plan: Seq<StoreAction>, m: Mechanism, name: Seq<char>) -> bool {
    let companions = spec_companion_paths(m, name);
    &&& plan.len() == companions.len() + 2
    &&& is_remove(plan[0], spec_create_path(m, name))
    &&& (forall|i: int|
        0 <= i < companions.len() ==> is_remove(#[trigger] plan[1 + i], companions[i]))
    &&& is_refresh(plan[plan.len() - 1], spec_tool_args(m))
}

/// Turns a descriptor and the certificate bytes into the install sequence:
/// the write, then the refresh.
pub fn build_install_plan(d: TrustDescriptor, cert: Vec<u8>) -> (plan: Vec<StoreAction>)
    ensures
        plan@.len() == 2,
        is_write(plan@[0], d.create_path@, cert@),
        is_refresh(plan@[1], seq_views(d.refresh_args@)),
        plan_refresh_program(plan@) == d.refresh_program@,
{
    let TrustDescriptor { create_path, remove_paths: _, refresh_program, refresh_args } = d;
    let mut plan: Vec<StoreAction> = Vec::new();
    plan.push(StoreAction::WriteFile { path: create_path, contents: cert });
    plan.push(StoreAction::RunRefresh { program: refresh_program, args: refresh_args });
    plan
}

/// Turns a descriptor into the uninstall sequence: remove the certificate,
/// remove each companion path in the descriptor's order, then refresh.
pub fn build_uninstall_plan(d: TrustDescriptor) -> (plan: Vec<StoreAction>)
    ensures
        plan@.len() == d.remove_paths@.len() + 2,
        is_remove(plan@[0], d.create_path@),
        forall|i: int|
            0 <= i < d.remove_paths@.len() ==> is_remove(
                #[trigger] plan@[1 + i],
                d.remove_paths@[i]@,
            ),
        is_refresh(plan@[plan@.len() - 1], seq_views(d.refresh_args@)),
        plan_refresh_program(plan@) == d.refresh_program@,
{
    let TrustDescriptor { create_path, remove_paths, refresh_program, refresh_args } = d;
    let ghost cp = create_path@;
    let mut plan: Vec<StoreAction> = Vec::new();
    plan.push(StoreAction::RemoveFile { path: create_path });
    let n = remove_paths.len();
    let mut i: usize = 0;
    while i < n
        invariant
            i <= n,
            n == remove_paths@.len(),
            plan@.len() == 1 + i,
            is_remove(plan@[0], cp),
            forall|j: int|
                0 <= j < i ==> is_remove(#[trigger] plan@[1 + j], remove_paths@[j]@),
        decreases n - i,
    {
        plan.push(StoreAction::RemoveFile { path: remove_paths[i].clone() });
        i += 1;
    }
    plan.push(StoreAction::RunRefresh { program: refresh_program, args: refresh_args });
    plan
}

/// Plans an install, given the already-observed markers and the outcome of
/// looking up the mechanism's refresh tool.  Pure: the result is a function
/// of the arguments, so every branch is pinned down.
///
/// An unsupported flavor or a missing tool is rejected here, before any plan
/// exists, so nothing is mutated on those paths.
pub fn install_plan(
    flavor: StoreFlavor,
    markers: &HostMarkers,
    cert_filename: &str,
    cert: Vec<u8>,
    tool_path: Option<String>,
) -> (r: Result<Vec<StoreAction>, TrustError>)
    requires
        valid_cert_filename(cert_filename@),
    ensures
        !(flavor is System) ==> r == Err::<Vec<StoreAction>, TrustError>(
            TrustError::UnsupportedFlavor,
        ),
        flavor is System ==> match spec_selected_mechanism(*markers) {
            None => r == Err::<Vec<StoreAction>, TrustError>(TrustError::StoreNotFound),
            Some(m) => match tool_path {
                None => r == Err::<Vec<StoreAction>, TrustError>(TrustError::ToolNotFound),
                Some(t) => r matches Ok(plan) && is_install_plan(plan@, m, cert_filename@, cert@)
                    && plan_refresh_program(plan@) == t@,
            },
        },
{
    match flavor {
        StoreFlavor::System => match select_mechanism(markers) {
            None => Err(TrustError::StoreNotFound),
            Some(m) => match tool_path {
                None => Err(TrustError::ToolNotFound),
                Some(t) => {
                    let d = resolve_descriptor(m, cert_filename, t);
                    Ok(build_install_plan(d, cert))
                },
            },
        },
        _ => Err(TrustError::UnsupportedFlavor),
    }
}

/// Plans an uninstall, given the already-observed markers and the outcome of
/// looking up the mechanism's refresh tool.  Pure, like [`install_plan`].
pub fn uninstall_plan(
    flavor: StoreFlavor,
    markers: &HostMarkers,
    cert_filename: &str,
    tool_path: Option<String>,
) -> (r: Result<Vec<StoreAction>, TrustError>)
    requires
        valid_cert_filename(cert_filename@),
    ensures
        !(flavor is System) ==> r == Err::<Vec<StoreAction>, TrustError>(
            TrustError::UnsupportedFlavor,
        ),
        flavor is System ==> match spec_selected_mechanism(*markers) {
            None => r == Err::<Vec<StoreAction>, TrustError>(TrustError::StoreNotFound),
            Some(m) => match tool_path {
                None => r == Err::<Vec<StoreAction>, TrustError>(TrustError::ToolNotFound),
                Some(t) => r matches Ok(plan) && is_uninstall_plan(plan@, m, cert_filename@)
                    && plan_refresh_program(plan@) == t@,
            },
        },
{
    match flavor {
        StoreFlavor::System => match select_mechanism(markers) {
            None => Err(TrustError::StoreNotFound),
            Some(m) => match tool_path {
                None => Err(TrustError::ToolNotFound),
                Some(t) => {
                    let d = resolve_descriptor(m, cert_filename, t);
                    Ok(build_uninstall_plan(d))
                },
            },
        },
        _ => Err(TrustError::UnsupportedFlavor),
    }
}

/// Plans the installation of a certificate in the platform store selected by
/// `flavor`.  The certificate is not checked for validity.
///
/// The markers say which mechanisms' anchor directories the caller observed
/// on the host; the refresh tool is resolved on the process's search path
/// here, and its absence fails the call before any plan exists.  On success
/// the returned actions, run in order, install the certificate.
pub fn install_platform(
    flavor: StoreFlavor,
    markers: &HostMarkers,
    cert_filename: &str,
    cert: Vec<u8>,
) -> (r: Result<Vec<StoreAction>, TrustError>)
    requires
        valid_cert_filename(cert_filename@),
    ensures
        !(flavor is System) ==> r == Err::<Vec<StoreAction>, TrustError>(
            TrustError::UnsupportedFlavor,
        ),
        flavor is System ==> match spec_selected_mechanism(*markers) {
            None => r == Err::<Vec<StoreAction>, TrustError>(TrustError::StoreNotFound),
            Some(m) => r == Err::<Vec<StoreAction>, TrustError>(TrustError::ToolNotFound) || (
            r matches Ok(plan) && is_install_plan(plan@, m, cert_filename@, cert@)),
        },
{
    match flavor {
        StoreFlavor::System => {
            let tool_path = match select_mechanism(markers) {
                Some(m) => locate_executable(refresh_tool_name(m)),
                None => None,
            };
            install_plan(StoreFlavor::System, markers, cert_filename, cert, tool_path)
        },
        _ => Err(TrustError::UnsupportedFlavor),
    }
}

/// Plans the removal of a certificate from the platform store selected by
/// `flavor`: the certificate file, every companion file a refresh derived
/// from it, and a refresh afterwards.  Every failure is reported; none is
/// swallowed.
pub fn uninstall_platform(flavor: StoreFlavor, markers: &HostMarkers, cert_filename: &str) -> (r:
    Result<Vec<StoreAction>, TrustError>)
    requires
        valid_cert_filename(cert_filename@),
    ensures
        !(flavor is System) ==> r == Err::<Vec<StoreAction>, TrustError>(
            TrustError::UnsupportedFlavor,
        ),
        flavor is System ==> match spec_selected_mechanism(*markers) {
            None => r == Err::<Vec<StoreAction>, TrustError>(TrustError::StoreNotFound),
            Some(m) => r == Err::<Vec<StoreAction>, TrustError>(TrustError::ToolNotFound) || (
            r matches Ok(plan) && is_uninstall_plan(plan@, m, cert_filename@)),
        },
{
    match flavor {
        StoreFlavor::System => {
            let tool_path = match select_mechanism(markers) {
                Some(m) => locate_executable(refresh_tool_name(m)),
                None => None,
            };
            uninstall_plan(StoreFlavor::System, markers, cert_filename, tool_path)
        },
        _ => Err(TrustError::UnsupportedFlavor),
    }
}

/// Decides the outcome of the refresh step: it succeeded exactly when the
/// command could be spawned and exited with status zero.  Anything else is a
/// refresh failure, reported apart from the file errors before it, so that a
/// caller can retry the refresh alone while the file state stands.
pub fn refresh_outcome(spawned: bool, exit_zero: bool) -> (r: Result<(), TrustError>)
    ensures
        r == Ok::<(), TrustError>(()) <==> (spawned && exit_zero),
        !(spawned && exit_zero) ==> r == Err::<(), TrustError>(TrustError::RefreshFailed),
{
    if spawned && exit_zero {
        Ok(())
    } else {
        Err(TrustError::RefreshFailed)
    }
}

} // verus!

