//! Store actions and their semantics over the certificate files they touch.
//!
//! An install or uninstall is planned as an ordered sequence of
//! [`StoreAction`]s.  Their effect on the files of the store is given by
//! [`step_model`] and [`run_plan_model`] over a map from paths to contents,
//! and [`StoreModel`] is a verified in-memory store with exactly those
//! semantics, against which the plans' properties are proved and tested.
//! The unverified shell that runs a plan against the real filesystem mirrors
//! this mapping of failures: a file that cannot be written or removed is a
//! filesystem error, and a missing removal target is an error, not a no-op.

use vstd::prelude::*;
use crate::TrustError;

verus! {

/// One step of an install or uninstall, in the order it must run.
#[derive(Debug, PartialEq, Eq)]
pub enum StoreAction {
    /// Write `contents` to `path`, creating or truncating the file.
    WriteFile { path: String, contents: Vec<u8> },
    /// Delete the file at `path`; a missing file is an error.
    RemoveFile { path: String },
    /// Run the refresh executable `program` with `args` and require exit
    /// status zero.  It regenerates the consolidated bundle and does not
    /// touch the anchor files themselves.
    RunRefresh { program: String, args: Vec<String> },
}

/// The effect of one action on the store's files, or the error it fails
/// with.  A refresh leaves the files as they are; its own success is decided
/// by the host and is not modelled here.
pub open spec fn step_model(fs: Map<Seq<char>, Seq<u8>>, a: StoreAction) -> Result<
    Map<Seq<char>, Seq<u8>>,
    TrustError,
> {
    match a {
        StoreAction::WriteFile { path, contents } => Ok(fs.insert(path@, contents@)),
        StoreAction::RemoveFile { path } => if fs.contains_key(path@) {
            Ok(fs.remove(path@))
        } else {
            Err(TrustError::FilesystemError)
        },
        StoreAction::RunRefresh { program: _, args: _ } => Ok(fs),
    }
}

/// Runs a plan front to back, stopping at the first failing action: the
/// outcome, and the files as they stand afterwards.  A failure keeps the
/// effects of the actions before it; recovery from such partial states is
/// the caller's.
pub open spec fn run_plan_model(fs: Map<Seq<char>, Seq<u8>>, plan: Seq<StoreAction>) -> (Result<
    (),
    TrustError,
>, Map<Seq<char>, Seq<u8>>)
    decreases plan.len(),
{
    if plan.len() == 0 {
        (Ok(()), fs)
    } else {
        match step_model(fs, plan[0]) {
            Ok(fs2) => run_plan_model(fs2, plan.skip(1)),
            Err(e) => (Err(e), fs),
        }
    }
}

/// No two entries name the same path.
spec fn distinct_keys(s: Seq<(String, Vec<u8>)>) -> bool {
    forall|i: int, j: int| 0 <= i < j < s.len() ==> s[i].0@ != s[j].0@
}

/// The map from paths to contents that a sequence of entries holds.
spec fn entries_map(s: Seq<(String, Vec<u8>)>) -> Map<Seq<char>, Seq<u8>>
    decreases s.len(),
{
    if s.len() == 0 {
        Map::empty()
    } else {
        entries_map(s.drop_last()).insert(s.last().0@, s.last().1@)
    }
}

proof fn lemma_entries_map_contains(s: Seq<(String, Vec<u8>)>, k: Seq<char>)
    ensures
        entries_map(s).contains_key(k) <==> exists|i: int| 0 <= i < s.len() && s[i].0@ == k,
    decreases s.len(),
{
    if s.len() == 0 {
    } else {
        lemma_entries_map_contains(s.drop_last(), k);
        if s.last().0@ == k {
            assert(s[s.len() - 1].0@ == k);
        } else {
            if exists|i: int| 0 <= i < s.len() && s[i].0@ == k {
                let i = choose|i: int| 0 <= i < s.len() && s[i].0@ == k;
                assert(s.drop_last()[i] == s[i]);
            }
            if exists|i: int| 0 <= i < s.drop_last().len() && s.drop_last()[i].0@ == k {
                let i = choose|i: int| 0 <= i < s.drop_last().len() && s.drop_last()[i].0@ == k;
                assert(s[i] == s.drop_last()[i]);
            }
        }
    }
}

proof fn lemma_entries_map_value(s: Seq<(String, Vec<u8>)>, i: int)
    requires
        distinct_keys(s),
        0 <= i < s.len(),
    ensures
        entries_map(s).contains_key(s[i].0@),
        entries_map(s)[s[i].0@] == s[i].1@,
    decreases s.len(),
{
    if i == s.len() - 1 {
    } else {
        assert(distinct_keys(s.drop_last())) by {
            assert(forall|a: int, b: int|
                0 <= a < b < s.drop_last().len() ==> s.drop_last()[a] == s[a] && s.drop_last()[b]
                    == s[b]);
        }
        lemma_entries_map_value(s.drop_last(), i);
        assert(s.drop_last()[i] == s[i]);
        assert(s[i].0@ != s.last().0@);
    }
}

proof fn lemma_remove_index(s: Seq<(String, Vec<u8>)>, i: int, j: int)
    requires
        0 <= i < s.len(),
        0 <= j < s.len() - 1,
    ensures
        s.remove(i)[j] == if j < i {
            s[j]
        } else {
            s[j + 1]
        },
{
}

proof fn lemma_distinct_remove(s: Seq<(String, Vec<u8>)>, i: int)
    requires
        distinct_keys(s),
        0 <= i < s.len(),
    ensures
        distinct_keys(s.remove(i)),
{
    assert forall|a: int, b: int| 0 <= a < b < s.remove(i).len() implies s.remove(i)[a].0@
        != s.remove(i)[b].0@ by {
        lemma_remove_index(s, i, a);
        lemma_remove_index(s, i, b);
    }
}

proof fn lemma_entries_map_remove(s: Seq<(String, Vec<u8>)>, i: int)
    requires
        distinct_keys(s),
        0 <= i < s.len(),
    ensures
        entries_map(s.remove(i)) == entries_map(s).remove(s[i].0@),
    decreases s.len(),
{
    let k = s[i].0@;
    let dl = s.drop_last();
    lemma_entries_map_contains(dl, k);
    if i == s.len() - 1 {
        assert(s.remove(i) =~= dl);
        assert(!entries_map(dl).contains_key(k)) by {
            if exists|j: int| 0 <= j < dl.len() && dl[j].0@ == k {
                let j = choose|j: int| 0 <= j < dl.len() && dl[j].0@ == k;
                assert(s[j] == dl[j]);
            }
        }
        assert(entries_map(dl).insert(k, s.last().1@).remove(k) =~= entries_map(dl));
    } else {
        assert(distinct_keys(dl)) by {
            assert(forall|a: int, b: int|
                0 <= a < b < dl.len() ==> dl[a] == s[a] && dl[b] == s[b]);
        }
        assert(dl[i] == s[i]);
        lemma_entries_map_remove(dl, i);
        let r = s.remove(i);
        assert(r.len() == s.len() - 1);
        assert(r.drop_last() =~= dl.remove(i)) by {
            assert forall|j: int| 0 <= j < r.len() - 1 implies r[j] == dl.remove(i)[j] by {
                lemma_remove_index(s, i, j);
                lemma_remove_index(dl, i, j);
                assert(dl[j] == s[j]);
                if j >= i {
                    assert(dl[j + 1] == s[j + 1]);
                }
            }
        }
        assert(r.last() == s.last()) by {
            lemma_remove_index(s, i, r.len() - 1);
        }
        assert(entries_map(r) == entries_map(dl.remove(i)).insert(s.last().0@, s.last().1@));
        assert(k != s.last().0@);
        assert(entries_map(dl).remove(k).insert(s.last().0@, s.last().1@) =~= entries_map(
            dl,
        ).insert(s.last().0@, s.last().1@).remove(k));
    }
}

proof fn lemma_entries_map_push(s: Seq<(String, Vec<u8>)>, e: (String, Vec<u8>))
    ensures
        entries_map(s.push(e)) == entries_map(s).insert(e.0@, e.1@),
{
    assert(s.push(e).drop_last() =~= s);
    assert(s.push(e).last() == e);
}

/// An in-memory certificate store with the exact semantics of
/// [`step_model`]: the verified stand-in against which plans are proved and
/// exercised.
pub struct StoreModel {
    entries: Vec<(String, Vec<u8>)>,
}

impl View for StoreModel {
    type V = Map<Seq<char>, Seq<u8>>;

    closed spec fn view(&self) -> Map<Seq<char>, Seq<u8>> {
        entries_map(self.entries@)
    }
}

impl StoreModel {
    /// The store never holds two entries for one path.
    pub closed spec fn wf(self) -> bool {
        distinct_keys(self.entries@)
    }

    /// An empty store.
    pub fn new() -> (m: StoreModel)
        ensures
            m.wf(),
            m@ == Map::<Seq<char>, Seq<u8>>::empty(),
    {
        StoreModel { entries: Vec::new() }
    }

    fn find_index(&self, path: &String) -> (r: Option<usize>)
        ensures
            match r {
                Some(i) => i < self.entries@.len() && self.entries@[i as int].0@ == path@,
                None => forall|j: int| 0 <= j < self.entries@.len() ==> self.entries@[j].0@
                    != path@,
            },
    {
        let n = self.entries.len();
        let mut i: usize = 0;
        while i < n
            invariant
                i <= n,
                n == self.entries@.len(),
                forall|j: int| 0 <= j < i ==> self.entries@[j].0@ != path@,
            decreases n - i,
        {
            if self.entries[i].0 == *path {
                return Some(i);
            }
            i += 1;
        }
        None
    }

    /// The contents stored at `path`, if any.
    pub fn lookup(&self, path: &String) -> (r: Option<&Vec<u8>>)
        requires
            self.wf(),
        ensures
            match r {
                Some(contents) => self@.contains_key(path@) && contents@ == self@[path@],
                None => !self@.contains_key(path@),
            },
    {
        proof {
            lemma_entries_map_contains(self.entries@, path@);
        }
        match self.find_index(path) {
            Some(i) => {
                proof {
                    lemma_entries_map_value(self.entries@, i as int);
                }
                Some(&self.entries[i].1)
            },
            None => None,
        }
    }

    /// Writes `contents` at `path`, creating the entry or replacing what an
    /// earlier write left there.
    pub fn write(&mut self, path: String, contents: Vec<u8>)
        requires
            old(self).wf(),
        ensures
            final(self).wf(),
            final(self)@ == old(self)@.insert(path@, contents@),
    {
        let ghost s0 = self.entries@;
        match self.find_index(&path) {
            Some(i) => {
                proof {
                    lemma_entries_map_remove(s0, i as int);
                    lemma_distinct_remove(s0, i as int);
                }
                let _replaced = self.entries.remove(i);
                proof {
                    assert forall|j: int| 0 <= j < self.entries@.len() implies self.entries@[j].0@
                        != path@ by {
                        lemma_remove_index(s0, i as int, j);
                    }
                }
            },
            None => {},
        }
        let ghost s1 = self.entries@;
        proof {
            lemma_entries_map_push(s1, (path, contents));
        }
        self.entries.push((path, contents));
        proof {
            assert(self.entries@ == s1.push((path, contents)));
            assert(entries_map(s1).insert(path@, contents@) =~= entries_map(s0).insert(
                path@,
                contents@,
            ));
        }
    }

    /// Deletes the entry at `path`; reports a filesystem error when there is
    /// none, as deleting a certificate that was never installed is a caller
    /// error, not a no-op.
    pub fn remove(&mut self, path: &String) -> (r: Result<(), TrustError>)
        requires
            old(self).wf(),
        ensures
            final(self).wf(),
            old(self)@.contains_key(path@) ==> r == Ok::<(), TrustError>(()) && final(self)@
                == old(self)@.remove(path@),
            !old(self)@.contains_key(path@) ==> r == Err::<(), TrustError>(
                TrustError::FilesystemError,
            ) && final(self)@ == old(self)@,
    {
        let ghost s0 = self.entries@;
        proof {
            lemma_entries_map_contains(s0, path@);
        }
        match self.find_index(path) {
            Some(i) => {
                proof {
                    lemma_entries_map_remove(s0, i as int);
                    lemma_distinct_remove(s0, i as int);
                }
                let _removed = self.entries.remove(i);
                Ok(())
            },
            None => Err(TrustError::FilesystemError),
        }
    }

    /// Applies one action, with the outcome that [`step_model`] gives it.
    pub fn apply(&mut self, action: &StoreAction) -> (r: Result<(), TrustError>)
        requires
            old(self).wf(),
        ensures
            final(self).wf(),
            match step_model(old(self)@, *action) {
                Ok(fs) => r == Ok::<(), TrustError>(()) && final(self)@ == fs,
                Err(e) => r == Err::<(), TrustError>(e) && final(self)@ == old(self)@,
            },
    {
        match action {
            StoreAction::WriteFile { path, contents } => {
                self.write(path.clone(), clone_bytes(contents));
                Ok(())
            },
            StoreAction::RemoveFile { path } => self.remove(path),
            StoreAction::RunRefresh { program: _, args: _ } => Ok(()),
        }
    }

    /// Runs a whole plan front to back, stopping at the first failure and
    /// keeping the effects of the actions before it, as
    /// [`run_plan_model`] prescribes.
    pub fn apply_plan(&mut self, plan: &Vec<StoreAction>) -> (r: Result<(), TrustError>)
        requires
            old(self).wf(),
        ensures
            final(self).wf(),
            (r, final(self)@) == run_plan_model(old(self)@, plan@),
    {
        let ghost fs0 = self@;
        proof {
            assert(plan@.skip(0) =~= plan@);
        }
        let n = plan.len();
        let mut i: usize = 0;
        while i < n
            invariant
                i <= n,
                n == plan@.len(),
                self.wf(),
                fs0 == old(self)@,
                run_plan_model(fs0, plan@) == run_plan_model(self@, plan@.skip(i as int)),
            decreases n - i,
        {
            proof {
                assert(plan@.skip(i as int).len() > 0);
                assert(plan@.skip(i as int)[0] == plan@[i as int]);
                assert(plan@.skip(i as int).skip(1) =~= plan@.skip(i as int + 1));
            }
            let ghost fs_pre = self@;
            let step = self.apply(&plan[i]);
            match step {
                Ok(_) => {},
                Err(e) => {
                    proof {
                        assert(run_plan_model(fs_pre, plan@.skip(i as int)) == (
                            Err::<(), TrustError>(e),
                            fs_pre,
                        ));
                    }
                    return Err(e);
                },
            }
            i += 1;
        }
        proof {
            assert(plan@.skip(n as int) =~= Seq::<StoreAction>::empty());
        }
        Ok(())
    }
}

/// A copy of a byte vector.
fn clone_bytes(v: &Vec<u8>) -> (r: Vec<u8>)
    ensures
        r@ == v@,
{
    let n = v.len();
    let mut r: Vec<u8> = Vec::new();
    let mut i: usize = 0;
    while i < n
        invariant
            i <= n,
            n == v@.len(),
            r@ == v@.subrange(0, i as int),
        decreases n - i,
    {
        r.push(v[i]);
        proof {
            assert(r@ =~= v@.subrange(0, i as int + 1));
        }
        i += 1;
    }
    proof {
        assert(v@.subrange(0, n as int) =~= v@);
    }
    r
}

} // verus!
