//! The per-repository build directory scope: opened fresh before each
//! build, removed unconditionally when the repository's processing ends,
//! whatever the outcome. The filesystem is modelled as a map from
//! directory path to its entries.

use vstd::prelude::*;

verus! {

/// Owns one repository's build directory for the span of its processing.
pub struct BuildDirGuard {
    pub path: String,
}

impl BuildDirGuard {
    /// Takes ownership of the directory path for the scope's duration.
    pub fn new(path: String) -> (r: Self)
        ensures
            r.path@ == path@,
    {
        BuildDirGuard { path }
    }

    /// The path the guaranteed close step must remove.
    pub fn close_path(&self) -> (r: &str)
        ensures
            r@ == self.path@,
    {
        self.path.as_str()
    }
}

/// Effect of opening the scope at `p`: whatever was there is discarded
/// and an empty directory takes its place.
pub open spec fn dir_open(
    fs: Map<Seq<char>, Seq<Seq<char>>>,
    p: Seq<char>,
) -> Map<Seq<char>, Seq<Seq<char>>> {
    fs.insert(p, Seq::empty())
}

/// Effect of closing the scope at `p`: the directory is removed,
/// regardless of the build's outcome.
pub open spec fn dir_close(
    fs: Map<Seq<char>, Seq<Seq<char>>>,
    p: Seq<char>,
) -> Map<Seq<char>, Seq<Seq<char>>> {
    fs.remove(p)
}

/// Directory scope: immediately after open the directory exists with
/// fresh, empty contents whatever stood there before; after close it does
/// not exist; and no other path is touched by either step.
pub proof fn lemma_dir_scope(fs: Map<Seq<char>, Seq<Seq<char>>>, p: Seq<char>)
    ensures
        dir_open(fs, p).contains_key(p),
        dir_open(fs, p)[p] == Seq::<Seq<char>>::empty(),
        !dir_close(dir_open(fs, p), p).contains_key(p),
        forall|q: Seq<char>|
            q != p ==> (#[trigger] dir_open(fs, p).contains_key(q) <==> fs.contains_key(q)),
        forall|q: Seq<char>|
            q != p ==> (#[trigger] dir_close(dir_open(fs, p), p).contains_key(q)
                <==> fs.contains_key(q)),
        forall|q: Seq<char>|
            q != p && fs.contains_key(q) ==> #[trigger] dir_open(fs, p)[q] == fs[q],
        forall|q: Seq<char>|
            q != p && fs.contains_key(q) ==> #[trigger] dir_close(dir_open(fs, p), p)[q]
                == fs[q],
{
}

} // verus!
