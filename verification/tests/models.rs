use nv_helper::config::{
    branch_repos, conflict_candidates, ensure_root, owned_roots, parse_args, prereqs,
    repo_build_dir, repo_deps, repo_src_dir, root_dirs, Branch,
};
use nv_helper::conflicts::conflicts_to_remove;
use nv_helper::dirscope::BuildDirGuard;
use nv_helper::errors::OrchError;
use nv_helper::identity::{BuildUserGuard, IdentitySetup, IdentityTeardown};
use nv_helper::sync::{sync_plan, sync_update, SyncPlan};

fn strings(v: &[&str]) -> Vec<String> {
    v.iter().map(|s| s.to_string()).collect()
}

#[test]
fn parse_args_accepts_each_release_line() {
    let a = strings(&["nv-helper", "580xx"]);
    assert_eq!(parse_args(&a).unwrap(), Branch::B580xx);
    let b = strings(&["nv-helper", "470xx"]);
    assert_eq!(parse_args(&b).unwrap(), Branch::B470xx);
}

#[test]
fn parse_args_rejects_bad_arity_and_unknown_selector() {
    assert!(matches!(parse_args(&strings(&["nv-helper"])), Err(OrchError::Usage)));
    assert!(matches!(
        parse_args(&strings(&["nv-helper", "580xx", "470xx"])),
        Err(OrchError::Usage)
    ));
    assert!(matches!(parse_args(&strings(&["nv-helper", "999xx"])), Err(OrchError::Usage)));
}

#[test]
fn ensure_root_requires_full_privilege() {
    assert!(ensure_root(0).is_ok());
    assert!(matches!(ensure_root(1000), Err(OrchError::Privilege)));
}

#[test]
fn branch_repos_lists_both_repositories_in_order() {
    assert_eq!(
        branch_repos(Branch::B580xx),
        strings(&["nvidia-580xx-utils", "nvidia-580xx-settings"])
    );
    assert_eq!(
        branch_repos(Branch::B470xx),
        strings(&["nvidia-470xx-utils", "nvidia-470xx-settings"])
    );
}

#[test]
fn repo_deps_depend_on_repository_kind() {
    assert_eq!(
        repo_deps("nvidia-580xx-utils"),
        strings(&["libglvnd", "egl-wayland", "egl-gbm", "egl-x11"])
    );
    assert_eq!(
        repo_deps("nvidia-470xx-settings"),
        strings(&["jansson", "gtk3", "libxv", "libvdpau", "libxext", "vulkan-headers"])
    );
    assert!(repo_deps("something-else").is_empty());
}

#[test]
fn prereqs_and_roots_are_fixed() {
    assert_eq!(prereqs(), strings(&["git", "base-devel", "dkms", "rsync"]));
    assert_eq!(
        root_dirs(),
        strings(&[
            "/var/cache/nv-helper/src",
            "/var/cache/nv-helper/pkg",
            "/var/lib/nv-helper/build",
            "/var/lib/nv-helper/home",
        ])
    );
    assert_eq!(
        owned_roots(),
        strings(&[
            "/var/lib/nv-helper/build",
            "/var/cache/nv-helper/pkg",
            "/var/lib/nv-helper/home",
        ])
    );
    assert_eq!(conflict_candidates(), strings(&["nvidia-open-dkms", "nvidia-utils"]));
}

#[test]
fn repo_paths_join_root_and_name() {
    assert_eq!(repo_src_dir("r1"), "/var/cache/nv-helper/src/r1");
    assert_eq!(repo_build_dir("r1"), "/var/lib/nv-helper/build/r1");
}

#[test]
fn conflicts_selected_are_exactly_the_installed_ones() {
    let cands = strings(&["x", "y"]);
    assert_eq!(conflicts_to_remove(&cands, &vec![true, false]), strings(&["x"]));
    assert_eq!(conflicts_to_remove(&cands, &vec![false, true]), strings(&["y"]));
    assert_eq!(conflicts_to_remove(&cands, &vec![true, true]), strings(&["x", "y"]));
    assert!(conflicts_to_remove(&cands, &vec![false, false]).is_empty());
}

#[test]
fn identity_existing_account_is_reused_and_kept() {
    let (guard, setup) = BuildUserGuard::ensure(true);
    assert!(!guard.created_by_us);
    assert_eq!(setup, IdentitySetup::ReuseExisting);
    assert_eq!(guard.teardown(), IdentityTeardown::KeepAccount);
}

#[test]
fn identity_created_account_is_deleted_at_the_end() {
    let (guard, setup) = BuildUserGuard::ensure(false);
    assert!(guard.created_by_us);
    assert_eq!(setup, IdentitySetup::CreateAccount);
    assert_eq!(guard.teardown(), IdentityTeardown::DeleteAccount);
}

#[test]
fn dir_guard_keeps_the_path_it_must_remove() {
    let g = BuildDirGuard::new("/var/lib/nv-helper/build/r1".to_string());
    assert_eq!(g.close_path(), "/var/lib/nv-helper/build/r1");
}

#[test]
fn sync_plan_depends_on_mirror_existence() {
    assert_eq!(sync_plan(false), SyncPlan::CloneFresh);
    assert_eq!(sync_plan(true), SyncPlan::Refresh);
}

#[test]
fn sync_clones_when_no_mirror_exists() {
    let remote = vec![1u64, 2, 3];
    assert_eq!(sync_update(None, &remote).unwrap(), remote);
}

#[test]
fn sync_twice_with_unchanged_remote_is_idempotent() {
    let remote = vec![1u64, 2, 3];
    let first = sync_update(None, &remote).unwrap();
    let second = sync_update(Some(&first), &remote).unwrap();
    assert_eq!(first, second);
}

#[test]
fn sync_fast_forwards_a_strict_ancestor() {
    let local = vec![1u64, 2];
    let remote = vec![1u64, 2, 3];
    assert_eq!(sync_update(Some(&local), &remote).unwrap(), remote);
}

#[test]
fn sync_refuses_diverged_history() {
    let local = vec![1u64, 9];
    let remote = vec![1u64, 2, 3];
    assert!(matches!(sync_update(Some(&local), &remote), Err(OrchError::Sync { .. })));
}

#[test]
fn error_messages_are_fixed_lines() {
    assert_eq!(OrchError::Usage.message(), "usage: nv-helper <580xx|470xx>");
    assert_eq!(OrchError::Privilege.message(), "nv-helper must be run as root");
    assert_eq!(OrchError::EmptyResult.message(), "no packages were built");
    let e = OrchError::Lock { detail: "/run/nv-helper.lock".to_string() };
    assert_eq!(e.message(), "failed to open lock file /run/nv-helper.lock");
    let t = OrchError::ExternalTool {
        tool: "makepkg".to_string(),
        detail: "exit code 4".to_string(),
        code: 4,
    };
    assert_eq!(t.message(), "makepkg failed: exit code 4");
    let io = OrchError::Io { detail: "failed to create /x".to_string() };
    assert_eq!(io.message(), "failed to create /x");
    let sy = OrchError::Sync { detail: "diverged".to_string() };
    assert_eq!(sy.message(), "diverged");
}
