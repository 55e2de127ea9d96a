//! The trust-mechanism table: which CA-trust conventions exist, how they are
//! detected, and which paths and refresh command each one prescribes.

use vstd::prelude::*;
use vstd::string::StrSliceExecFns;
use vstd::string::StringExecFns;

verus! {

/// A CA-trust convention a host can follow, named after the family of
/// distributions that uses it.  The variants are listed in the fixed
/// priority order in which a host is probed for them.
#[derive(Clone, Copy, Debug, PartialEq, Eq, Structural)]
pub enum Mechanism {
    /// Anchors in `/etc/pki/ca-trust/source/anchors/`; refreshed by
    /// `update-ca-trust extract`.
    RedHat,
    /// Anchors in `/usr/local/share/ca-certificates/`; refreshed by
    /// `update-ca-certificates`, which derives a copy under `/etc/ssl/certs/`.
    Debian,
    /// Anchors in `/etc/ca-certificates/trust-source/anchors/`; refreshed by
    /// `trust extract-compat`.
    Arch,
    /// Anchors in `/usr/share/pki/trust/anchors/`; refreshed by
    /// `update-ca-certificates`.
    Suse,
}

/// Which mechanisms' marker directories exist on the host, as observed by
/// the caller immediately before an operation.
#[derive(Clone, Copy, Debug, PartialEq, Eq, Structural)]
pub struct HostMarkers {
    /// `/etc/pki/ca-trust/source/anchors/` exists.
    pub redhat: bool,
    /// `/usr/local/share/ca-certificates/` exists.
    pub debian: bool,
    /// `/etc/ca-certificates/trust-source/anchors/` exists.
    pub arch: bool,
    /// `/usr/share/pki/trust/anchors/` exists.
    pub suse: bool,
}

/// The anchor directory whose existence marks the mechanism, ending in `/`
/// so that a certificate path is the directory followed by the file name.
pub open spec fn spec_marker_dir(m: Mechanism) -> Seq<char> {
    match m {
        Mechanism::RedHat => "/etc/pki/ca-trust/source/anchors/"@,
        Mechanism::Debian => "/usr/local/share/ca-certificates/"@,
        Mechanism::Arch => "/etc/ca-certificates/trust-source/anchors/"@,
        Mechanism::Suse => "/usr/share/pki/trust/anchors/"@,
    }
}

/// The file extension the mechanism's refresh tool picks up; a certificate
/// stored under any other extension would be silently ignored.
pub open spec fn spec_cert_extension(m: Mechanism) -> Seq<char> {
    match m {
        Mechanism::RedHat => ".pem"@,
        Mechanism::Debian => ".crt"@,
        Mechanism::Arch => ".crt"@,
        Mechanism::Suse => ".pem"@,
    }
}

/// The name of the executable that regenerates the consolidated bundle.
pub open spec fn spec_tool_name(m: Mechanism) -> Seq<char> {
    match m {
        Mechanism::RedHat => "update-ca-trust"@,
        Mechanism::Debian => "update-ca-certificates"@,
        Mechanism::Arch => "trust"@,
        Mechanism::Suse => "update-ca-certificates"@,
    }
}

/// The arguments the refresh tool is invoked with.
pub open spec fn spec_tool_args(m: Mechanism) -> Seq<Seq<char>> {
    match m {
        Mechanism::RedHat => seq!["extract"@],
        Mechanism::Debian => Seq::empty(),
        Mechanism::Arch => seq!["extract-compat"@],
        Mechanism::Suse => Seq::empty(),
    }
}

/// Where the certificate file must be written for the mechanism.
pub open spec fn spec_create_path(m: Mechanism, name: Seq<char>) -> Seq<char> {
    spec_marker_dir(m) + name + spec_cert_extension(m)
}

/// Paths of copies that a refresh derives from the anchor and that an
/// uninstall must delete as well, in order.
pub open spec fn spec_companion_paths(m: Mechanism, name: Seq<char>) -> Seq<Seq<char>> {
    match m {
        Mechanism::Debian => seq!["/etc/ssl/certs/"@ + name + ".pem"@],
        _ => Seq::empty(),
    }
}

/// The first mechanism, in priority order, whose marker directory exists;
/// `None` when the host follows no known convention.
pub open spec fn spec_selected_mechanism(h: HostMarkers) -> Option<Mechanism> {
    if h.redhat {
        Some(Mechanism::RedHat)
    } else if h.debian {
        Some(Mechanism::Debian)
    } else if h.arch {
        Some(Mechanism::Arch)
    } else if h.suse {
        Some(Mechanism::Suse)
    } else {
        None
    }
}

/// A certificate file name that is safe to interpolate into a store path:
/// nonempty, free of path separators, and not starting with `..`.
pub open spec fn valid_cert_filename(name: Seq<char>) -> bool {
    &&& name.len() > 0
    &&& forall|i: int| 0 <= i < name.len() ==> name[i] != '/' && name[i] != '\\'
    &&& !(name.len() >= 2 && name[0] == '.' && name[1] == '.')
}

/// What an install or uninstall must know about the selected mechanism:
/// where the certificate lives, what else to delete, and what to run.
/// Rebuilt from the file name on every call and discarded afterwards.
#[derive(Debug, PartialEq, Eq)]
pub struct TrustDescriptor {
    /// Absolute path the certificate is written to on install and removed
    /// from on uninstall.
    pub create_path: String,
    /// Further paths an uninstall deletes after `create_path`, in order.
    pub remove_paths: Vec<String>,
    /// Resolved path of the refresh executable.
    pub refresh_program: String,
    /// Arguments the refresh executable is run with.
    pub refresh_args: Vec<String>,
}

/// The views of a sequence of strings.
pub open spec fn seq_views(v: Seq<String>) -> Seq<Seq<char>> {
    v.map_values(|s: String| s@)
}

/// The descriptor carries exactly what the mechanism prescribes for `name`,
/// with `program` as the resolved refresh executable.
pub open spec fn descriptor_matches(
    d: TrustDescriptor,
    m: Mechanism,
    name: Seq<char>,
    program: Seq<char>,
) -> bool {
    &&& d.create_path@ == spec_create_path(m, name)
    &&& seq_views(d.remove_paths@) == spec_companion_paths(m, name)
    &&& d.refresh_program@ == program
    &&& seq_views(d.refresh_args@) == spec_tool_args(m)
}

/// Selects the active mechanism from the observed markers: the first, in
/// priority order, whose marker directory exists.  Selection is a pure
/// function of the markers, so repeated calls on an unchanged host agree.
pub fn select_mechanism(markers: &HostMarkers) -> (r: Option<Mechanism>)
    ensures
        r == spec_selected_mechanism(*markers),
{
    if markers.redhat {
        Some(Mechanism::RedHat)
    } else if markers.debian {
        Some(Mechanism::Debian)
    } else if markers.arch {
        Some(Mechanism::Arch)
    } else if markers.suse {
        Some(Mechanism::Suse)
    } else {
        None
    }
}

/// Exactly one branch of the mechanism table is selected per host: a
/// mechanism is chosen if and only if its marker directory exists and no
/// higher-priority marker does, and some mechanism is chosen if and only if
/// at least one marker exists.  Selection is a function of the markers
/// alone, so it is deterministic while the host does not change.
pub proof fn lemma_selection_exclusive(h: HostMarkers)
    ensures
        (spec_selected_mechanism(h) is Some) <==> (h.redhat || h.debian || h.arch || h.suse),
        spec_selected_mechanism(h) == Some(Mechanism::RedHat) <==> h.redhat,
        spec_selected_mechanism(h) == Some(Mechanism::Debian) <==> (!h.redhat && h.debian),
        spec_selected_mechanism(h) == Some(Mechanism::Arch) <==> (!h.redhat && !h.debian
            && h.arch),
        spec_selected_mechanism(h) == Some(Mechanism::Suse) <==> (!h.redhat && !h.debian && !h.arch
            && h.suse),
{
}

/// The marker directory probed for the mechanism, for the caller that
/// observes the host.
pub fn marker_dir(m: Mechanism) -> (s: &'static str)
    ensures
        s@ == spec_marker_dir(m),
{
    match m {
        Mechanism::RedHat => "/etc/pki/ca-trust/source/anchors/",
        Mechanism::Debian => "/usr/local/share/ca-certificates/",
        Mechanism::Arch => "/etc/ca-certificates/trust-source/anchors/",
        Mechanism::Suse => "/usr/share/pki/trust/anchors/",
    }
}

/// The name of the refresh executable to look up on the search path.
pub fn refresh_tool_name(m: Mechanism) -> (s: &'static str)
    ensures
        s@ == spec_tool_name(m),
{
    match m {
        Mechanism::RedHat => "update-ca-trust",
        Mechanism::Debian => "update-ca-certificates",
        Mechanism::Arch => "trust",
        Mechanism::Suse => "update-ca-certificates",
    }
}

/// Decides whether `name` may be interpolated into a store path.
pub fn check_filename(name: &str) -> (ok: bool)
    ensures
        ok == valid_cert_filename(name@),
{
    let n = name.unicode_len();
    if n == 0 {
        return false;
    }
    if n >= 2 && name.get_char(0) == '.' && name.get_char(1) == '.' {
        return false;
    }
    let mut i: usize = 0;
    while i < n
        invariant
            i <= n,
            n == name@.len(),
            forall|j: int| 0 <= j < i ==> name@[j] != '/' && name@[j] != '\\',
        decreases n - i,
    {
        let c = name.get_char(i);
        if c == '/' || c == '\\' {
            return false;
        }
        i += 1;
    }
    true
}

/// Concatenates a directory (ending in `/`), a file name and an extension.
fn path_in_dir(dir: &str, name: &str, ext: &str) -> (p: String)
    ensures
        p@ == dir@ + name@ + ext@,
{
    let mut p = dir.to_owned();
    p.append(name);
    p.append(ext);
    p
}

/// A one-element vector of strings.
fn singleton_path(p: String) -> (v: Vec<String>)
    ensures
        seq_views(v@) == seq![p@],
{
    let mut v: Vec<String> = Vec::new();
    v.push(p);
    proof {
        assert(seq_views(v@) =~= seq![p@]);
    }
    v
}

/// A one-element vector holding the given argument.
fn singleton_arg(a: &str) -> (v: Vec<String>)
    ensures
        seq_views(v@) == seq![a@],
{
    singleton_path(a.to_owned())
}

/// An empty vector of strings.
fn no_paths() -> (v: Vec<String>)
    ensures
        seq_views(v@) == Seq::<Seq<char>>::empty(),
{
    let v: Vec<String> = Vec::new();
    proof {
        assert(seq_views(v@) =~= Seq::<Seq<char>>::empty());
    }
    v
}

/// Builds the Trust Descriptor that the mechanism prescribes for
/// `cert_filename`, around the already-resolved refresh executable.
pub fn resolve_descriptor(m: Mechanism, cert_filename: &str, tool_path: String) -> (d:
    TrustDescriptor)
    ensures
        descriptor_matches(d, m, cert_filename@, tool_path@),
{
    match m {
        Mechanism::RedHat => TrustDescriptor {
            create_path: path_in_dir("/etc/pki/ca-trust/source/anchors/", cert_filename, ".pem"),
            remove_paths: no_paths(),
            refresh_program: tool_path,
            refresh_args: singleton_arg("extract"),
        },
        Mechanism::Debian => TrustDescriptor {
            create_path: path_in_dir("/usr/local/share/ca-certificates/", cert_filename, ".crt"),
            remove_paths: singleton_path(
                path_in_dir("/etc/ssl/certs/", cert_filename, ".pem"),
            ),
            refresh_program: tool_path,
            refresh_args: no_paths(),
        },
        Mechanism::Arch => TrustDescriptor {
            create_path: path_in_dir(
                "/etc/ca-certificates/trust-source/anchors/",
                cert_filename,
                ".crt",
            ),
            remove_paths: no_paths(),
            refresh_program: tool_path,
            refresh_args: singleton_arg("extract-compat"),
        },
        Mechanism::Suse => TrustDescriptor {
            create_path: path_in_dir("/usr/share/pki/trust/anchors/", cert_filename, ".pem"),
            remove_paths: no_paths(),
            refresh_program: tool_path,
            refresh_args: no_paths(),
        },
    }
}

} // verus!
