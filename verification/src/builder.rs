//! Construction of the build-toolchain invocation: the privilege
//! separation contract in argv form. Both modes run the toolchain as the
//! unprivileged build identity, through a privilege switch, with the
//! package-output and home directories overridden in the environment;
//! the listing mode only enumerates produced artifacts and must not
//! trigger a rebuild.

use vstd::prelude::*;
use crate::config::{
    build_user,
    home_root,
    pkg_root,
    spec_build_user,
    spec_home_root,
    spec_pkg_root,
};

verus! {

/// Which of the toolchain's two operations is invoked.
#[derive(Clone, Copy, PartialEq, Eq, Structural, Debug)]
pub enum BuildMode {
    /// Force a full rebuild, ignoring any toolchain cache, resolving
    /// build-time dependencies non-interactively.
    ForceBuild,
    /// Only enumerate the artifact paths the prior build produced.
    ListArtifacts,
}

/// The full command line of a toolchain invocation: the privilege switch
/// to the build identity, the environment overrides, and the toolchain
/// with its mode arguments.
pub open spec fn spec_builder_argv(mode: BuildMode) -> Seq<Seq<char>> {
    let common = seq![
        "runuser"@,
        "-u"@,
        spec_build_user(),
        "--"@,
        "env"@,
        "PKGDEST="@ + spec_pkg_root(),
        "HOME="@ + spec_home_root(),
        "makepkg"@,
    ];
    match mode {
        BuildMode::ForceBuild => common + seq!["-f"@, "--noconfirm"@, "--needed"@],
        BuildMode::ListArtifacts => common + seq!["--packagelist"@],
    }
}

/// The exact argv to spawn for the given mode, run in the prepared
/// build directory.
pub fn builder_argv(mode: BuildMode) -> (r: Vec<String>)
    ensures
        r.deep_view() == spec_builder_argv(mode),
{
    let mut v: Vec<String> = Vec::new();
    v.push(String::from_str("runuser"));
    v.push(String::from_str("-u"));
    v.push(String::from_str(build_user()));
    v.push(String::from_str("--"));
    v.push(String::from_str("env"));
    let mut pkgdest = String::from_str("PKGDEST=");
    pkgdest.append(pkg_root());
    v.push(pkgdest);
    let mut home = String::from_str("HOME=");
    home.append(home_root());
    v.push(home);
    v.push(String::from_str("makepkg"));
    match mode {
        BuildMode::ForceBuild => {
            v.push(String::from_str("-f"));
            v.push(String::from_str("--noconfirm"));
            v.push(String::from_str("--needed"));
        },
        BuildMode::ListArtifacts => {
            v.push(String::from_str("--packagelist"));
        },
    }
    proof {
        assert(v.deep_view() =~= spec_builder_argv(mode));
    }
    v
}

} // verus!
