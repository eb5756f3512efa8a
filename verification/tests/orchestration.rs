use nv_helper::config::Branch;
use nv_helper::errors::OrchError;
use nv_helper::orchestrator::{
    install_prereqs, install_repo_deps, step, Action, Directive, Event, OrchState,
};

fn run_action(state: OrchState, ev: Event) -> (OrchState, Action) {
    assert!(state.permits_event(&ev));
    let (next, directive) = step(state, ev);
    match directive {
        Directive::Run(a) => (next, a),
        Directive::Succeed(_) => panic!("run ended in success before the expected action"),
        Directive::Fail(e) => panic!("run failed early: {}", e.message()),
    }
}

/// Drives one repository from the sync request up to the close request,
/// feeding `listing` as the captured artifact listing, and returns the
/// state holding the directive issued after the close step.
fn drive_repo(state: OrchState, listing: &str) -> (OrchState, Directive) {
    let (state, a) = run_action(state, Event::Proceed); // -> OpenBuildDir
    assert!(matches!(a, Action::OpenBuildDir(_)));
    let (state, a) = run_action(state, Event::Proceed); // -> MirrorSource
    assert!(matches!(a, Action::MirrorSource { .. }));
    let (state, a) = run_action(state, Event::Proceed); // -> OwnTree
    assert!(matches!(a, Action::OwnTree { .. }));
    let (state, a) = run_action(state, Event::Proceed); // -> InstallPackages (repo deps)
    assert!(matches!(a, Action::InstallPackages(_)));
    let (state, a) = run_action(state, Event::Proceed); // -> Build
    assert!(matches!(a, Action::Build(_)));
    let (state, a) = run_action(state, Event::Proceed); // -> ListArtifacts
    assert!(matches!(a, Action::ListArtifacts(_)));
    let listed = Event::Listed(listing.to_string());
    assert!(state.permits_event(&listed));
    let (state, directive) = step(state, listed);
    let state = match directive {
        Directive::Run(Action::InstallArtifacts(pkgs)) => {
            assert!(!pkgs.is_empty(), "installation is only requested for a non-empty list");
            let (state, a) = run_action(state, Event::Proceed); // -> CloseBuildDir
            assert!(matches!(a, Action::CloseBuildDir(_)));
            state
        },
        Directive::Run(Action::CloseBuildDir(_)) => state,
        _ => panic!("unexpected directive after listing"),
    };
    assert!(state.permits_event(&Event::Proceed));
    step(state, Event::Proceed)
}

/// Walks the run up to the first repository's sync request. The
/// installed-state answers decide whether a removal is requested.
fn start_run(installed: Vec<bool>, expect_removal: bool) -> OrchState {
    let state = OrchState::init(Branch::B580xx);
    let (state, a) = run_action(state, Event::Proceed);
    assert!(matches!(a, Action::AcquireLock(_)));
    let (state, a) = run_action(state, Event::Proceed);
    assert!(matches!(a, Action::EnsureDirs(_)));
    let (state, a) = run_action(state, Event::Proceed);
    match a {
        Action::QueryInstalled(cands) => {
            assert_eq!(cands, vec!["nvidia-open-dkms".to_string(), "nvidia-utils".to_string()]);
        },
        _ => panic!("expected the installed-state query"),
    }
    let (state, a) = run_action(state, Event::InstalledState(installed));
    let state = if expect_removal {
        match a {
            Action::RemovePackages(_) => {},
            _ => panic!("expected a removal request"),
        }
        let (state, a) = run_action(state, Event::Proceed);
        assert!(matches!(a, Action::ProbeCapability));
        state
    } else {
        assert!(
            matches!(a, Action::ProbeCapability),
            "with nothing installed the removal step must be skipped"
        );
        state
    };
    let (state, a) = run_action(state, Event::Capability(false));
    assert!(matches!(a, Action::LookupAccount(_)));
    let (state, a) = run_action(state, Event::AccountLookup(true));
    assert!(matches!(a, Action::AssignOwnership { .. }));
    let (state, a) = run_action(state, Event::Proceed);
    assert!(matches!(a, Action::InstallPackages(_)));
    let (state, a) = run_action(state, Event::Proceed);
    match a {
        Action::SyncRepo(repo) => assert_eq!(repo, "nvidia-580xx-utils"),
        _ => panic!("expected the first sync request"),
    }
    state
}

#[test]
fn removal_is_skipped_when_no_conflict_is_installed() {
    // Walking past the conflict query with neither candidate installed
    // asserts, inside start_run, that no removal is requested.
    start_run(vec![false, false], false);
}

#[test]
fn removal_is_requested_for_the_installed_subset_only() {
    let state = OrchState::init(Branch::B580xx);
    let (state, _) = run_action(state, Event::Proceed);
    let (state, _) = run_action(state, Event::Proceed);
    let (state, _) = run_action(state, Event::Proceed);
    let (_, a) = run_action(state, Event::InstalledState(vec![true, false]));
    match a {
        Action::RemovePackages(pkgs) => {
            assert_eq!(pkgs, vec!["nvidia-open-dkms".to_string()]);
        },
        _ => panic!("expected a removal request for exactly the installed candidate"),
    }
}

#[test]
fn two_repositories_with_one_artifact_each_succeed_with_both() {
    let state = start_run(vec![false, false], false);
    let (state, directive) = drive_repo(state, "/pkg/pkgA-1.0-x86_64.pkg\n");
    let state = match directive {
        Directive::Run(Action::SyncRepo(repo)) => {
            assert_eq!(repo, "nvidia-580xx-settings");
            state
        },
        _ => panic!("expected the second repository's sync request"),
    };
    let (_, directive) = drive_repo(state, "/pkg/pkgB-2.0-x86_64.pkg\n");
    match directive {
        Directive::Succeed(artifacts) => {
            assert_eq!(
                artifacts,
                vec![
                    "/pkg/pkgA-1.0-x86_64.pkg".to_string(),
                    "/pkg/pkgB-2.0-x86_64.pkg".to_string(),
                ]
            );
        },
        _ => panic!("expected the run to succeed with both artifacts"),
    }
}

#[test]
fn all_steps_succeed_but_nothing_produced_is_a_failure() {
    let state = start_run(vec![false, false], false);
    let (state, directive) = drive_repo(state, "");
    let state = match directive {
        Directive::Run(Action::SyncRepo(_)) => state,
        _ => panic!("expected the second repository's sync request"),
    };
    let (_, directive) = drive_repo(state, "\n  \n");
    match directive {
        Directive::Fail(OrchError::EmptyResult) => {},
        _ => panic!("an all-success run with no artifacts must fail with the empty result"),
    }
}

#[test]
fn multilib_artifacts_are_dropped_without_the_capability() {
    let state = start_run(vec![false, false], false);
    let (_, directive) = drive_repo(
        state,
        "/pkg/lib32-pkgA-1.0-x86_64.pkg\n/pkg/pkgA-1.0-x86_64.pkg\n",
    );
    match directive {
        Directive::Run(Action::SyncRepo(_)) => {},
        _ => panic!("expected the second repository's sync request"),
    }
}

#[test]
fn missing_account_is_created_before_ownership_is_assigned() {
    let state = OrchState::init(Branch::B470xx);
    let (state, _) = run_action(state, Event::Proceed); // lock
    let (state, _) = run_action(state, Event::Proceed); // dirs
    let (state, _) = run_action(state, Event::Proceed); // query
    let (state, a) = run_action(state, Event::InstalledState(vec![false, false]));
    assert!(matches!(a, Action::ProbeCapability));
    let (state, a) = run_action(state, Event::Capability(true));
    assert!(matches!(a, Action::LookupAccount(_)));
    let (state, a) = run_action(state, Event::AccountLookup(false));
    match a {
        Action::CreateAccount(user) => assert_eq!(user, "nvbuild"),
        _ => panic!("a missing account must be created"),
    }
    let (state, a) = run_action(state, Event::Proceed);
    assert!(matches!(a, Action::AssignOwnership { .. }));
    let (state, a) = run_action(state, Event::Proceed);
    assert!(matches!(a, Action::InstallPackages(_)));
    let (_, a) = run_action(state, Event::Proceed);
    match a {
        Action::SyncRepo(repo) => assert_eq!(repo, "nvidia-470xx-utils"),
        _ => panic!("expected the first sync request of the selected release line"),
    }
}

#[test]
fn prereq_step_installs_the_fixed_prerequisites() {
    match install_prereqs() {
        Action::InstallPackages(pkgs) => {
            assert_eq!(
                pkgs,
                vec![
                    "git".to_string(),
                    "base-devel".to_string(),
                    "dkms".to_string(),
                    "rsync".to_string(),
                ]
            );
        },
        _ => panic!("the prerequisite step must be a package installation"),
    }
}

#[test]
fn repo_dep_step_installs_prereqs_and_repo_deps() {
    match install_repo_deps("nvidia-580xx-utils") {
        Action::InstallPackages(pkgs) => {
            assert_eq!(
                pkgs,
                vec![
                    "git".to_string(),
                    "base-devel".to_string(),
                    "dkms".to_string(),
                    "rsync".to_string(),
                    "libglvnd".to_string(),
                    "egl-wayland".to_string(),
                    "egl-gbm".to_string(),
                    "egl-x11".to_string(),
                ]
            );
        },
        _ => panic!("the dependency step must be a package installation"),
    }
}

#[test]
fn a_step_failure_aborts_the_run_with_that_error() {
    let state = start_run(vec![false, false], false);
    let failure = Event::Failure(OrchError::ExternalTool {
        tool: "git".to_string(),
        detail: "exit code 128".to_string(),
        code: 128,
    });
    assert!(state.permits_event(&failure));
    let (state, directive) = step(state, failure);
    match directive {
        Directive::Fail(OrchError::ExternalTool { tool, code, .. }) => {
            assert_eq!(tool, "git");
            assert_eq!(code, 128);
        },
        _ => panic!("a failure event must abort the run with the same error"),
    }
    assert!(!state.permits_event(&Event::Proceed));
}
