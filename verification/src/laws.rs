//! The end-to-end properties of install and uninstall plans, proved over the
//! plan semantics of [`crate::store`].

use vstd::prelude::*;

use crate::mechanism::{spec_companion_paths, spec_create_path, Mechanism};
use crate::store::{run_plan_model, step_model, StoreAction};
use crate::{is_install_plan, is_uninstall_plan, TrustError};

verus! {

/// No companion path coincides with the create path, so removing the
/// certificate never counts as having removed a companion copy.
proof fn lemma_companion_differs(m: Mechanism, name: Seq<char>)
    ensures
        forall|i: int|
            0 <= i < spec_companion_paths(m, name).len() ==> #[trigger] spec_companion_paths(
                m,
                name,
            )[i] != spec_create_path(m, name),
{
    match m {
        Mechanism::Debian => {
            let comp = "/etc/ssl/certs/"@ + name + ".pem"@;
            let create = spec_create_path(m, name);
            reveal_strlit("/etc/ssl/certs/");
            reveal_strlit("/usr/local/share/ca-certificates/");
            assert(("/etc/ssl/certs/"@ + name)[1] == 'e');
            assert(comp[1] == 'e');
            assert(("/usr/local/share/ca-certificates/"@ + name)[1] == 'u');
            assert(create[1] == 'u');
            assert(spec_companion_paths(m, name)[0] == comp);
        },
        _ => {},
    }
}

/// A successful install leaves the certificate at the mechanism's create
/// path: running an install plan on any store succeeds, adds exactly the
/// certificate bytes under the create path, and changes nothing else.
pub proof fn lemma_install_writes_certificate(
    fs: Map<Seq<char>, Seq<u8>>,
    plan: Seq<StoreAction>,
    m: Mechanism,
    name: Seq<char>,
    cert: Seq<u8>,
)
    requires
        is_install_plan(plan, m, name, cert),
    ensures
        run_plan_model(fs, plan) == (
            Ok::<(), TrustError>(()),
            fs.insert(spec_create_path(m, name), cert),
        ),
        run_plan_model(fs, plan).1.contains_key(spec_create_path(m, name)),
        run_plan_model(fs, plan).1[spec_create_path(m, name)] == cert,
{
    let fs1 = fs.insert(spec_create_path(m, name), cert);
    assert(step_model(fs, plan[0]) == Ok::<Map<Seq<char>, Seq<u8>>, TrustError>(fs1));
    assert(plan.skip(1)[0] == plan[1]);
    assert(step_model(fs1, plan[1]) == Ok::<Map<Seq<char>, Seq<u8>>, TrustError>(fs1));
    assert(plan.skip(1).skip(1) =~= Seq::<StoreAction>::empty());
    assert(run_plan_model(fs, plan) == run_plan_model(fs1, plan.skip(1)));
    assert(run_plan_model(fs1, plan.skip(1)) == run_plan_model(fs1, plan.skip(1).skip(1)));
    assert(run_plan_model(fs1, plan.skip(1).skip(1)) == (Ok::<(), TrustError>(()), fs1));
}

/// Install followed by uninstall leaves no residual file: once the install
/// ran and the refresh-derived companion copies exist — the requires treats
/// them as already present, since the store model does not follow what a
/// refresh derives — the uninstall plan succeeds, and afterwards neither the
/// create path nor any companion path remains.
pub proof fn lemma_install_then_uninstall_leaves_nothing(
    fs: Map<Seq<char>, Seq<u8>>,
    install: Seq<StoreAction>,
    uninstall: Seq<StoreAction>,
    m: Mechanism,
    name: Seq<char>,
    cert: Seq<u8>,
)
    requires
        is_install_plan(install, m, name, cert),
        is_uninstall_plan(uninstall, m, name),
        forall|i: int|
            0 <= i < spec_companion_paths(m, name).len() ==> fs.contains_key(
                #[trigger] spec_companion_paths(m, name)[i],
            ),
    ensures
        run_plan_model(fs, install).0 == Ok::<(), TrustError>(()),
        run_plan_model(run_plan_model(fs, install).1, uninstall).0 == Ok::<(), TrustError>(()),
        !run_plan_model(run_plan_model(fs, install).1, uninstall).1.contains_key(
            spec_create_path(m, name),
        ),
        forall|i: int|
            0 <= i < spec_companion_paths(m, name).len() ==> !run_plan_model(
                run_plan_model(fs, install).1,
                uninstall,
            ).1.contains_key(#[trigger] spec_companion_paths(m, name)[i]),
{
    let create = spec_create_path(m, name);
    let comps = spec_companion_paths(m, name);
    lemma_install_writes_certificate(fs, install, m, name, cert);
    lemma_companion_differs(m, name);
    let fs1 = fs.insert(create, cert);
    let fs2 = fs1.remove(create);
    assert(step_model(fs1, uninstall[0]) == Ok::<Map<Seq<char>, Seq<u8>>, TrustError>(fs2));
    assert(uninstall.skip(1)[0] == uninstall[1]);
    assert(run_plan_model(fs1, uninstall) == run_plan_model(fs2, uninstall.skip(1)));
    match m {
        Mechanism::Debian => {
            let comp = comps[0];
            assert(crate::is_remove(uninstall[1 + 0int], comps[0]));
            assert(fs.contains_key(comp));
            assert(fs2.contains_key(comp));
            let fs3 = fs2.remove(comp);
            assert(step_model(fs2, uninstall[1]) == Ok::<Map<Seq<char>, Seq<u8>>, TrustError>(
                fs3,
            ));
            assert(uninstall.skip(1).skip(1)[0] == uninstall[2]);
            assert(step_model(fs3, uninstall[2]) == Ok::<Map<Seq<char>, Seq<u8>>, TrustError>(
                fs3,
            ));
            assert(uninstall.skip(1).skip(1).skip(1) =~= Seq::<StoreAction>::empty());
            assert(run_plan_model(fs2, uninstall.skip(1)) == run_plan_model(
                fs3,
                uninstall.skip(1).skip(1),
            ));
            assert(run_plan_model(fs3, uninstall.skip(1).skip(1)) == run_plan_model(
                fs3,
                uninstall.skip(1).skip(1).skip(1),
            ));
            assert(run_plan_model(fs1, uninstall) == (Ok::<(), TrustError>(()), fs3));
        },
        _ => {
            assert(comps.len() == 0);
            assert(step_model(fs2, uninstall[1]) == Ok::<Map<Seq<char>, Seq<u8>>, TrustError>(
                fs2,
            ));
            assert(uninstall.skip(1).skip(1) =~= Seq::<StoreAction>::empty());
            assert(run_plan_model(fs2, uninstall.skip(1)) == run_plan_model(
                fs2,
                uninstall.skip(1).skip(1),
            ));
            assert(run_plan_model(fs1, uninstall) == (Ok::<(), TrustError>(()), fs2));
        },
    }
}

/// Uninstalling a certificate that is not installed fails with a filesystem
/// error — the missing removal target — and leaves the store as it was.
pub proof fn lemma_uninstall_missing_fails(
    fs: Map<Seq<char>, Seq<u8>>,
    plan: Seq<StoreAction>,
    m: Mechanism,
    name: Seq<char>,
)
    requires
        is_uninstall_plan(plan, m, name),
        !fs.contains_key(spec_create_path(m, name)),
    ensures
        run_plan_model(fs, plan) == (Err::<(), TrustError>(TrustError::FilesystemError), fs),
{
    assert(step_model(fs, plan[0]) == Err::<Map<Seq<char>, Seq<u8>>, TrustError>(
        TrustError::FilesystemError,
    ));
}

} // verus!
