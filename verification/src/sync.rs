//! Repository synchronization, modelled over commit histories. A mirror's
//! state is the sequence of commit identifiers on its current line of
//! history; the remote may only be absorbed by fast-forward, never by
//! merging divergent history.

use vstd::prelude::*;
use crate::errors::OrchError;

verus! {

/// What the synchronization step must do for one repository.
#[derive(Clone, Copy, PartialEq, Eq, Structural, Debug)]
pub enum SyncPlan {
    /// No local mirror yet: clone the remote source.
    CloneFresh,
    /// A mirror exists: discard local modifications and untracked files,
    /// then advance fast-forward-only to the remote's state.
    Refresh,
}

/// Chooses the synchronization plan from whether a mirror already exists.
pub fn sync_plan(mirror_exists: bool) -> (r: SyncPlan)
    ensures
        r == (if mirror_exists {
            SyncPlan::Refresh
        } else {
            SyncPlan::CloneFresh
        }),
{
    if mirror_exists {
        SyncPlan::Refresh
    } else {
        SyncPlan::CloneFresh
    }
}

/// `a` is an ancestor state of `b`: `b`'s history extends `a`'s.
pub open spec fn ancestor_of(a: Seq<u64>, b: Seq<u64>) -> bool {
    a.len() <= b.len() && b.subrange(0, a.len() as int) == a
}

/// The local history after one synchronization: the remote's history when
/// no mirror existed or a fast-forward is possible, nothing otherwise.
pub open spec fn spec_sync_result(local: Option<Seq<u64>>, remote: Seq<u64>) -> Option<
    Seq<u64>,
> {
    match local {
        Option::None => Option::Some(remote),
        Option::Some(l) => if ancestor_of(l, remote) {
            Option::Some(remote)
        } else {
            Option::None
        },
    }
}

fn copy_history(v: &Vec<u64>) -> (r: Vec<u64>)
    ensures
        r@ == v@,
{
    let mut r: Vec<u64> = Vec::new();
    let mut i: usize = 0;
    while i < v.len()
        invariant
            i <= v@.len(),
            r@ == v@.take(i as int),
        decreases v@.len() - i,
    {
        r.push(v[i]);
        proof {
            assert(v@.take(i + 1 as int) =~= v@.take(i as int).push(v@[i as int]));
        }
        i = i + 1;
    }
    proof {
        assert(v@.take(v@.len() as int) =~= v@);
    }
    r
}

fn is_ancestor(a: &Vec<u64>, b: &Vec<u64>) -> (r: bool)
    ensures
        r == ancestor_of(a@, b@),
{
    if a.len() > b.len() {
        return false;
    }
    let mut i: usize = 0;
    while i < a.len()
        invariant
            a@.len() <= b@.len(),
            i <= a@.len(),
            forall|j: int| 0 <= j < i ==> a@[j] == b@[j],
        decreases a@.len() - i,
    {
        if a[i] != b[i] {
            proof {
                let sub = b@.subrange(0, a@.len() as int);
                assert(sub[i as int] == b@[i as int]);
            }
            return false;
        }
        i = i + 1;
    }
    proof {
        assert(b@.subrange(0, a@.len() as int) =~= a@);
    }
    true
}

/// Brings the local mirror to the remote's state: clones when no mirror
/// exists, fast-forwards when the remote extends the local history, and
/// fails hard when the histories have diverged.
pub fn sync_update(local: Option<&Vec<u64>>, remote: &Vec<u64>) -> (r: Result<
    Vec<u64>,
    OrchError,
>)
    ensures
        local is None ==> (r matches Ok(v) && Some(v@) == spec_sync_result(None, remote@)),
        local matches Some(l) ==> (match spec_sync_result(Some(l@), remote@) {
            Some(h) => r matches Ok(v) && v@ == h,
            None => r matches Err(e) && e is Sync,
        }),
{
    match local {
        Option::None => Ok(copy_history(remote)),
        Option::Some(l) => {
            if is_ancestor(l, remote) {
                Ok(copy_history(remote))
            } else {
                Err(
                    OrchError::Sync {
                        detail: String::from_str(
                            "fast-forward not possible: local and remote history diverged",
                        ),
                    },
                )
            }
        },
    }
}

/// Idempotent synchronization: after one successful synchronization, a
/// second one against an unchanged remote succeeds and yields identical
/// local content.
pub proof fn lemma_sync_idempotent(local: Option<Seq<u64>>, remote: Seq<u64>)
    ensures
        spec_sync_result(local, remote) matches Some(first) ==> spec_sync_result(
            Some(first),
            remote,
        ) == Some(first),
{
    if spec_sync_result(local, remote) is Some {
        let first = spec_sync_result(local, remote)->Some_0;
        assert(first == remote);
        assert(remote.subrange(0, remote.len() as int) =~= remote);
    }
}

} // verus!
