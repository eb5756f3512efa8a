//! Static configuration of a run: the fixed filesystem roots, the build
//! account name, the closed set of release lines and the package lists tied
//! to each repository.

use vstd::prelude::*;
use crate::errors::OrchError;
use crate::strutil::{contains_seq, str_contains, str_eq};

verus! {

/// The release lines this orchestrator knows how to build.
#[derive(Clone, Copy, PartialEq, Eq, Structural, Debug)]
pub enum Branch {
    B580xx,
    B470xx,
}

pub open spec fn spec_lock_path() -> Seq<char> {
    "/run/nv-helper.lock"@
}

pub open spec fn spec_src_root() -> Seq<char> {
    "/var/cache/nv-helper/src"@
}

pub open spec fn spec_pkg_root() -> Seq<char> {
    "/var/cache/nv-helper/pkg"@
}

pub open spec fn spec_build_root() -> Seq<char> {
    "/var/lib/nv-helper/build"@
}

pub open spec fn spec_home_root() -> Seq<char> {
    "/var/lib/nv-helper/home"@
}

pub open spec fn spec_build_user() -> Seq<char> {
    "nvbuild"@
}

/// Path of the system-wide lock file.
pub fn lock_path() -> (r: &'static str)
    ensures
        r@ == spec_lock_path(),
{
    "/run/nv-helper.lock"
}

/// Root under which source mirrors are kept.
pub fn src_root() -> (r: &'static str)
    ensures
        r@ == spec_src_root(),
{
    "/var/cache/nv-helper/src"
}

/// Root into which the build toolchain writes produced artifacts.
pub fn pkg_root() -> (r: &'static str)
    ensures
        r@ == spec_pkg_root(),
{
    "/var/cache/nv-helper/pkg"
}

/// Root under which per-repository build directories are opened.
pub fn build_root() -> (r: &'static str)
    ensures
        r@ == spec_build_root(),
{
    "/var/lib/nv-helper/build"
}

/// Home root handed to the build identity via the child environment.
pub fn home_root() -> (r: &'static str)
    ensures
        r@ == spec_home_root(),
{
    "/var/lib/nv-helper/home"
}

/// Name of the unprivileged build account.
pub fn build_user() -> (r: &'static str)
    ensures
        r@ == spec_build_user(),
{
    "nvbuild"
}

/// The four roots that must exist (and be creatable idempotently) before
/// any other step runs.
pub open spec fn spec_roots() -> Seq<Seq<char>> {
    seq![spec_src_root(), spec_pkg_root(), spec_build_root(), spec_home_root()]
}

/// The directories ensured at the start of every run.
pub fn root_dirs() -> (r: Vec<String>)
    ensures
        r.deep_view() == spec_roots(),
{
    let mut v: Vec<String> = Vec::new();
    v.push(String::from_str(src_root()));
    v.push(String::from_str(pkg_root()));
    v.push(String::from_str(build_root()));
    v.push(String::from_str(home_root()));
    proof {
        assert(v.deep_view() =~= spec_roots());
    }
    v
}

/// The roots handed over to the build identity before any build step.
pub open spec fn spec_owned_roots() -> Seq<Seq<char>> {
    seq![spec_build_root(), spec_pkg_root(), spec_home_root()]
}

/// The roots whose ownership is assigned to the build identity.
pub fn owned_roots() -> (r: Vec<String>)
    ensures
        r.deep_view() == spec_owned_roots(),
{
    let mut v: Vec<String> = Vec::new();
    v.push(String::from_str(build_root()));
    v.push(String::from_str(pkg_root()));
    v.push(String::from_str(home_root()));
    proof {
        assert(v.deep_view() =~= spec_owned_roots());
    }
    v
}

/// Official packages that conflict with the ones this run produces.
pub open spec fn spec_conflicts() -> Seq<Seq<char>> {
    seq!["nvidia-open-dkms"@, "nvidia-utils"@]
}

/// The conflicting packages checked (and, where installed, removed) before
/// a run builds anything.
pub fn conflict_candidates() -> (r: Vec<String>)
    ensures
        r.deep_view() == spec_conflicts(),
{
    let mut v: Vec<String> = Vec::new();
    v.push(String::from_str("nvidia-open-dkms"));
    v.push(String::from_str("nvidia-utils"));
    proof {
        assert(v.deep_view() =~= spec_conflicts());
    }
    v
}

pub open spec fn spec_branch_repos(b: Branch) -> Seq<Seq<char>> {
    match b {
        Branch::B580xx => seq!["nvidia-580xx-utils"@, "nvidia-580xx-settings"@],
        Branch::B470xx => seq!["nvidia-470xx-utils"@, "nvidia-470xx-settings"@],
    }
}

/// The source repositories processed for a release line, in order.
pub fn branch_repos(branch: Branch) -> (r: Vec<String>)
    ensures
        r.deep_view() == spec_branch_repos(branch),
{
    let mut v: Vec<String> = Vec::new();
    match branch {
        Branch::B580xx => {
            v.push(String::from_str("nvidia-580xx-utils"));
            v.push(String::from_str("nvidia-580xx-settings"));
        },
        Branch::B470xx => {
            v.push(String::from_str("nvidia-470xx-utils"));
            v.push(String::from_str("nvidia-470xx-settings"));
        },
    }
    proof {
        assert(v.deep_view() =~= spec_branch_repos(branch));
    }
    v
}

pub open spec fn spec_prereqs() -> Seq<Seq<char>> {
    seq!["git"@, "base-devel"@, "dkms"@, "rsync"@]
}

/// Host prerequisites installed before any repository is processed.
pub fn prereqs() -> (r: Vec<String>)
    ensures
        r.deep_view() == spec_prereqs(),
{
    let mut v: Vec<String> = Vec::new();
    v.push(String::from_str("git"));
    v.push(String::from_str("base-devel"));
    v.push(String::from_str("dkms"));
    v.push(String::from_str("rsync"));
    proof {
        assert(v.deep_view() =~= spec_prereqs());
    }
    v
}

pub open spec fn spec_repo_deps(repo: Seq<char>) -> Seq<Seq<char>> {
    if contains_seq(repo, "utils"@) {
        seq!["libglvnd"@, "egl-wayland"@, "egl-gbm"@, "egl-x11"@]
    } else if contains_seq(repo, "settings"@) {
        seq!["jansson"@, "gtk3"@, "libxv"@, "libvdpau"@, "libxext"@, "vulkan-headers"@]
    } else {
        Seq::empty()
    }
}

/// Extra build-time dependencies of a repository, keyed on its name.
pub fn repo_deps(repo: &str) -> (r: Vec<String>)
    ensures
        r.deep_view() == spec_repo_deps(repo@),
{
    let mut v: Vec<String> = Vec::new();
    if str_contains(repo, "utils") {
        v.push(String::from_str("libglvnd"));
        v.push(String::from_str("egl-wayland"));
        v.push(String::from_str("egl-gbm"));
        v.push(String::from_str("egl-x11"));
    } else if str_contains(repo, "settings") {
        v.push(String::from_str("jansson"));
        v.push(String::from_str("gtk3"));
        v.push(String::from_str("libxv"));
        v.push(String::from_str("libvdpau"));
        v.push(String::from_str("libxext"));
        v.push(String::from_str("vulkan-headers"));
    }
    proof {
        assert(v.deep_view() =~= spec_repo_deps(repo@));
    }
    v
}

/// Where the source mirror of `repo` lives.
pub open spec fn spec_repo_src_dir(repo: Seq<char>) -> Seq<char> {
    spec_src_root() + "/"@ + repo
}

/// Where the build directory of `repo` is opened.
pub open spec fn spec_repo_build_dir(repo: Seq<char>) -> Seq<char> {
    spec_build_root() + "/"@ + repo
}

/// Joins the source-mirror root with a repository name.
pub fn repo_src_dir(repo: &str) -> (r: String)
    ensures
        r@ == spec_repo_src_dir(repo@),
{
    let mut s = String::from_str(src_root());
    s.append("/");
    s.append(repo);
    s
}

/// Joins the build root with a repository name.
pub fn repo_build_dir(repo: &str) -> (r: String)
    ensures
        r@ == spec_repo_build_dir(repo@),
{
    let mut s = String::from_str(build_root());
    s.append("/");
    s.append(repo);
    s
}

/// Checks that the process holds full host privilege.
pub fn ensure_root(euid: u32) -> (r: Result<(), OrchError>)
    ensures
        r is Ok <==> euid == 0,
        r matches Err(e) ==> e is Privilege,
{
    if euid == 0 {
        Ok(())
    } else {
        Err(OrchError::Privilege)
    }
}

/// Selects the release line from the full argument vector, exactly one
/// positional argument out of the closed set being accepted.
pub fn parse_args(args: &Vec<String>) -> (r: Result<Branch, OrchError>)
    ensures
        r is Ok <==> (args@.len() == 2 && (args@[1]@ == "580xx"@ || args@[1]@ == "470xx"@)),
        args@.len() == 2 && args@[1]@ == "580xx"@ ==> (r matches Ok(b) && b == Branch::B580xx),
        args@.len() == 2 && args@[1]@ == "470xx"@ ==> (r matches Ok(b) && b == Branch::B470xx),
        r matches Err(e) ==> e is Usage,
{
    proof {
        reveal_strlit("580xx");
        reveal_strlit("470xx");
        assert("580xx"@[0] != "470xx"@[0]);
    }
    if args.len() != 2 {
        return Err(OrchError::Usage);
    }
    let sel: &String = &args[1];
    if str_eq(sel.as_str(), "580xx") {
        Ok(Branch::B580xx)
    } else if str_eq(sel.as_str(), "470xx") {
        Ok(Branch::B470xx)
    } else {
        Err(OrchError::Usage)
    }
}

} // verus!
