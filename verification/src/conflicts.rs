//! Selecting which pre-existing conflicting packages must be removed:
//! exactly the candidates the package manager reports as installed.

use vstd::prelude::*;

verus! {

/// The candidates whose installed-state flag is set, in order.
pub open spec fn spec_selected(cands: Seq<Seq<char>>, inst: Seq<bool>) -> Seq<Seq<char>>
    recommends
        cands.len() == inst.len(),
    decreases cands.len(),
{
    if cands.len() == 0 || inst.len() == 0 {
        Seq::empty()
    } else {
        let rest = spec_selected(cands.drop_last(), inst.drop_last());
        if inst.last() {
            rest.push(cands.last())
        } else {
            rest
        }
    }
}

/// Pairs every candidate with its installed-state answer and keeps
/// exactly the installed ones; removal is then issued for those alone.
pub fn conflicts_to_remove(candidates: &Vec<String>, installed: &Vec<bool>) -> (r: Vec<String>)
    requires
        candidates@.len() == installed@.len(),
    ensures
        r.deep_view() == spec_selected(candidates.deep_view(), installed@),
{
    let mut res: Vec<String> = Vec::new();
    let mut i: usize = 0;
    proof {
        assert(candidates.deep_view().take(0) =~= Seq::<Seq<char>>::empty());
        assert(installed@.take(0) =~= Seq::<bool>::empty());
    }
    while i < candidates.len()
        invariant
            candidates@.len() == installed@.len(),
            candidates.deep_view().len() == candidates@.len(),
            i <= candidates@.len(),
            res.deep_view() == spec_selected(
                candidates.deep_view().take(i as int),
                installed@.take(i as int),
            ),
        decreases candidates@.len() - i,
    {
        proof {
            assert(candidates.deep_view().take(i + 1 as int).drop_last()
                =~= candidates.deep_view().take(i as int));
            assert(installed@.take(i + 1 as int).drop_last() =~= installed@.take(i as int));
            assert(candidates.deep_view().take(i + 1 as int).last()
                == candidates.deep_view()[i as int]);
            assert(installed@.take(i + 1 as int).last() == installed@[i as int]);
        }
        if installed[i] {
            let p: &String = &candidates[i];
            res.push(p.clone());
        }
        i = i + 1;
    }
    proof {
        assert(candidates.deep_view().take(candidates@.len() as int)
            =~= candidates.deep_view());
        assert(installed@.take(installed@.len() as int) =~= installed@);
    }
    res
}

/// When no candidate is installed, nothing is selected: the conflict
/// step is a no-op rather than a removal call.
pub proof fn lemma_no_installed_no_removal(cands: Seq<Seq<char>>, inst: Seq<bool>)
    requires
        cands.len() == inst.len(),
        forall|i: int| 0 <= i < inst.len() ==> !inst[i],
    ensures
        spec_selected(cands, inst) == Seq::<Seq<char>>::empty(),
    decreases cands.len(),
{
    if cands.len() > 0 {
        assert(!inst.last()) by {
            assert(inst[inst.len() - 1] == inst.last());
        }
        lemma_no_installed_no_removal(cands.drop_last(), inst.drop_last());
    }
}

} // verus!
