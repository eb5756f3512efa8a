//! The orchestrator: a strictly sequential state machine that sequences
//! locking, conflict removal, identity setup, ownership assignment,
//! prerequisite installation and the per-repository pipeline, and
//! aggregates the produced artifacts. Each step names the next external
//! action to perform; the surrounding program performs it and hands the
//! outcome back as an event.

use vstd::prelude::*;
use crate::artifacts::{
    filter_multilib_packages,
    parse_package_list,
    spec_filter_packages,
    spec_package_lines,
};
use crate::config::{
    branch_repos,
    build_user,
    conflict_candidates,
    lock_path,
    owned_roots,
    prereqs,
    repo_build_dir,
    repo_src_dir,
    root_dirs,
    spec_branch_repos,
    spec_build_user,
    spec_conflicts,
    spec_lock_path,
    spec_owned_roots,
    spec_prereqs,
    spec_repo_build_dir,
    spec_repo_deps,
    spec_repo_src_dir,
    spec_roots,
    Branch,
};
use crate::conflicts::{conflicts_to_remove, spec_selected};
use crate::errors::{ErrorView, OrchError};

verus! {

/// Where the run stands: which external action is outstanding.
#[derive(Clone, Copy, PartialEq, Eq, Structural, Debug)]
pub enum Phase {
    Init,
    AwaitingLock,
    AwaitingDirs,
    AwaitingConflictQuery,
    AwaitingRemoval,
    AwaitingCapability,
    AwaitingLookup,
    AwaitingCreation,
    AwaitingOwnership,
    AwaitingPrereqs,
    Syncing,
    Opening,
    Mirroring,
    OwningTree,
    InstallingDeps,
    Building,
    Listing,
    InstallingArtifacts,
    Closing,
    Finished,
}

/// The external action the run asks its driver to perform next. Build
/// and listing actions are run as the unprivileged build identity with
/// the package-output and home directories overridden.
pub enum Action {
    AcquireLock(String),
    EnsureDirs(Vec<String>),
    QueryInstalled(Vec<String>),
    RemovePackages(Vec<String>),
    ProbeCapability,
    LookupAccount(String),
    CreateAccount(String),
    AssignOwnership { user: String, paths: Vec<String> },
    InstallPackages(Vec<String>),
    SyncRepo(String),
    OpenBuildDir(String),
    MirrorSource { src: String, dst: String },
    OwnTree { user: String, path: String },
    Build(String),
    ListArtifacts(String),
    InstallArtifacts(Vec<String>),
    CloseBuildDir(String),
}

/// Spec-level value of an [`Action`].
pub enum ActionView {
    AcquireLock(Seq<char>),
    EnsureDirs(Seq<Seq<char>>),
    QueryInstalled(Seq<Seq<char>>),
    RemovePackages(Seq<Seq<char>>),
    ProbeCapability,
    LookupAccount(Seq<char>),
    CreateAccount(Seq<char>),
    AssignOwnership { user: Seq<char>, paths: Seq<Seq<char>> },
    InstallPackages(Seq<Seq<char>>),
    SyncRepo(Seq<char>),
    OpenBuildDir(Seq<char>),
    MirrorSource { src: Seq<char>, dst: Seq<char> },
    OwnTree { user: Seq<char>, path: Seq<char> },
    Build(Seq<char>),
    ListArtifacts(Seq<char>),
    InstallArtifacts(Seq<Seq<char>>),
    CloseBuildDir(Seq<char>),
}

impl View for Action {
    type V = ActionView;

    open spec fn view(&self) -> ActionView {
        match self {
            Action::AcquireLock(p) => ActionView::AcquireLock(p@),
            Action::EnsureDirs(ps) => ActionView::EnsureDirs(ps.deep_view()),
            Action::QueryInstalled(ps) => ActionView::QueryInstalled(ps.deep_view()),
            Action::RemovePackages(ps) => ActionView::RemovePackages(ps.deep_view()),
            Action::ProbeCapability => ActionView::ProbeCapability,
            Action::LookupAccount(u) => ActionView::LookupAccount(u@),
            Action::CreateAccount(u) => ActionView::CreateAccount(u@),
            Action::AssignOwnership { user, paths } => ActionView::AssignOwnership {
                user: user@,
                paths: paths.deep_view(),
            },
            Action::InstallPackages(ps) => ActionView::InstallPackages(ps.deep_view()),
            Action::SyncRepo(r) => ActionView::SyncRepo(r@),
            Action::OpenBuildDir(p) => ActionView::OpenBuildDir(p@),
            Action::MirrorSource { src, dst } => ActionView::MirrorSource {
                src: src@,
                dst: dst@,
            },
            Action::OwnTree { user, path } => ActionView::OwnTree {
                user: user@,
                path: path@,
            },
            Action::Build(d) => ActionView::Build(d@),
            Action::ListArtifacts(d) => ActionView::ListArtifacts(d@),
            Action::InstallArtifacts(ps) => ActionView::InstallArtifacts(ps.deep_view()),
            Action::CloseBuildDir(p) => ActionView::CloseBuildDir(p@),
        }
    }
}

/// The outcome of the last action, handed back by the driver.
pub enum Event {
    /// The action completed successfully (also kicks off the run).
    Proceed,
    /// Installed-state answers, one per queried conflict candidate.
    InstalledState(Vec<bool>),
    /// Whether the host supports the secondary architecture.
    Capability(bool),
    /// Whether the build account already exists.
    AccountLookup(bool),
    /// The captured output of the artifact-listing step.
    Listed(String),
    /// The action failed; the run aborts with this error.
    Failure(OrchError),
}

/// Spec-level value of an [`Event`].
pub enum EventView {
    Proceed,
    InstalledState(Seq<bool>),
    Capability(bool),
    AccountLookup(bool),
    Listed(Seq<char>),
    Failure(ErrorView),
}

impl View for Event {
    type V = EventView;

    open spec fn view(&self) -> EventView {
        match self {
            Event::Proceed => EventView::Proceed,
            Event::InstalledState(f) => EventView::InstalledState(f@),
            Event::Capability(b) => EventView::Capability(*b),
            Event::AccountLookup(b) => EventView::AccountLookup(*b),
            Event::Listed(s) => EventView::Listed(s@),
            Event::Failure(e) => EventView::Failure(e@),
        }
    }
}

/// What the run does next: perform an action, or stop.
pub enum Directive {
    /// Perform this external action and report its outcome.
    Run(Action),
    /// The run is over and succeeded; these are all produced artifacts.
    Succeed(Vec<String>),
    /// The run is over and failed.
    Fail(OrchError),
}

/// Spec-level value of a [`Directive`].
pub enum DirectiveView {
    Run(ActionView),
    Succeed(Seq<Seq<char>>),
    Fail(ErrorView),
}

impl View for Directive {
    type V = DirectiveView;

    open spec fn view(&self) -> DirectiveView {
        match self {
            Directive::Run(a) => DirectiveView::Run(a@),
            Directive::Succeed(ps) => DirectiveView::Succeed(ps.deep_view()),
            Directive::Fail(e) => DirectiveView::Fail(e@),
        }
    }
}

/// The orchestrator's state between two events.
pub struct OrchState {
    pub phase: Phase,
    pub branch: Branch,
    pub multilib: bool,
    pub created_account: bool,
    pub repo_index: usize,
    pub artifacts: Vec<String>,
}

/// Spec-level value of an [`OrchState`].
pub struct OrchStateView {
    pub phase: Phase,
    pub branch: Branch,
    pub multilib: bool,
    pub created_account: bool,
    pub repo_index: int,
    pub artifacts: Seq<Seq<char>>,
}

impl View for OrchState {
    type V = OrchStateView;

    open spec fn view(&self) -> OrchStateView {
        OrchStateView {
            phase: self.phase,
            branch: self.branch,
            multilib: self.multilib,
            created_account: self.created_account,
            repo_index: self.repo_index as int,
            artifacts: self.artifacts.deep_view(),
        }
    }
}

/// The phases processing one repository.
pub open spec fn in_repo_phase(p: Phase) -> bool {
    p == Phase::Syncing || p == Phase::Opening || p == Phase::Mirroring || p == Phase::OwningTree
        || p == Phase::InstallingDeps || p == Phase::Building || p == Phase::Listing
        || p == Phase::InstallingArtifacts || p == Phase::Closing
}

/// Well-formedness of a state: the repository index is in range while a
/// repository is being processed, and zero before the loop starts.
pub open spec fn wf(s: OrchStateView) -> bool {
    if in_repo_phase(s.phase) {
        0 <= s.repo_index < spec_branch_repos(s.branch).len()
    } else if s.phase == Phase::Finished {
        0 <= s.repo_index <= spec_branch_repos(s.branch).len()
    } else {
        s.repo_index == 0
    }
}

/// The repository currently being processed.
pub open spec fn spec_repo(s: OrchStateView) -> Seq<char> {
    spec_branch_repos(s.branch)[s.repo_index]
}

/// Which events a state can take: the one kind of answer its outstanding
/// action produces, or a failure anywhere before the run has finished.
pub open spec fn permits(s: OrchStateView, ev: EventView) -> bool {
    match ev {
        EventView::Failure(_) => s.phase != Phase::Finished,
        EventView::Proceed => s.phase == Phase::Init || s.phase == Phase::AwaitingLock
            || s.phase == Phase::AwaitingDirs || s.phase == Phase::AwaitingRemoval
            || s.phase == Phase::AwaitingCreation || s.phase == Phase::AwaitingOwnership
            || s.phase == Phase::AwaitingPrereqs || s.phase == Phase::Syncing
            || s.phase == Phase::Opening || s.phase == Phase::Mirroring
            || s.phase == Phase::OwningTree || s.phase == Phase::InstallingDeps
            || s.phase == Phase::Building || s.phase == Phase::InstallingArtifacts
            || s.phase == Phase::Closing,
        EventView::InstalledState(f) => s.phase == Phase::AwaitingConflictQuery && f.len()
            == spec_conflicts().len(),
        EventView::Capability(_) => s.phase == Phase::AwaitingCapability,
        EventView::AccountLookup(_) => s.phase == Phase::AwaitingLookup,
        EventView::Listed(_) => s.phase == Phase::Listing,
    }
}

/// The successor of a state whose outstanding action succeeded with no
/// data to report.
pub open spec fn spec_proceed(s: OrchStateView) -> (OrchStateView, DirectiveView) {
    if s.phase == Phase::Init {
        (
            OrchStateView { phase: Phase::AwaitingLock, ..s },
            DirectiveView::Run(ActionView::AcquireLock(spec_lock_path())),
        )
    } else if s.phase == Phase::AwaitingLock {
        (
            OrchStateView { phase: Phase::AwaitingDirs, ..s },
            DirectiveView::Run(ActionView::EnsureDirs(spec_roots())),
        )
    } else if s.phase == Phase::AwaitingDirs {
        (
            OrchStateView { phase: Phase::AwaitingConflictQuery, ..s },
            DirectiveView::Run(ActionView::QueryInstalled(spec_conflicts())),
        )
    } else if s.phase == Phase::AwaitingRemoval {
        (
            OrchStateView { phase: Phase::AwaitingCapability, ..s },
            DirectiveView::Run(ActionView::ProbeCapability),
        )
    } else if s.phase == Phase::AwaitingCreation {
        (
            OrchStateView { phase: Phase::AwaitingOwnership, ..s },
            DirectiveView::Run(
                ActionView::AssignOwnership {
                    user: spec_build_user(),
                    paths: spec_owned_roots(),
                },
            ),
        )
    } else if s.phase == Phase::AwaitingOwnership {
        (
            OrchStateView { phase: Phase::AwaitingPrereqs, ..s },
            DirectiveView::Run(ActionView::InstallPackages(spec_prereqs())),
        )
    } else if s.phase == Phase::AwaitingPrereqs {
        (
            OrchStateView { phase: Phase::Syncing, ..s },
            DirectiveView::Run(ActionView::SyncRepo(spec_repo(s))),
        )
    } else if s.phase == Phase::Syncing {
        (
            OrchStateView { phase: Phase::Opening, ..s },
            DirectiveView::Run(ActionView::OpenBuildDir(spec_repo_build_dir(spec_repo(s)))),
        )
    } else if s.phase == Phase::Opening {
        (
            OrchStateView { phase: Phase::Mirroring, ..s },
            DirectiveView::Run(
                ActionView::MirrorSource {
                    src: spec_repo_src_dir(spec_repo(s)),
                    dst: spec_repo_build_dir(spec_repo(s)),
                },
            ),
        )
    } else if s.phase == Phase::Mirroring {
        (
            OrchStateView { phase: Phase::OwningTree, ..s },
            DirectiveView::Run(
                ActionView::OwnTree {
                    user: spec_build_user(),
                    path: spec_repo_build_dir(spec_repo(s)),
                },
            ),
        )
    } else if s.phase == Phase::OwningTree {
        (
            OrchStateView { phase: Phase::InstallingDeps, ..s },
            DirectiveView::Run(
                ActionView::InstallPackages(spec_prereqs() + spec_repo_deps(spec_repo(s))),
            ),
        )
    } else if s.phase == Phase::InstallingDeps {
        (
            OrchStateView { phase: Phase::Building, ..s },
            DirectiveView::Run(ActionView::Build(spec_repo_build_dir(spec_repo(s)))),
        )
    } else if s.phase == Phase::Building {
        (
            OrchStateView { phase: Phase::Listing, ..s },
            DirectiveView::Run(ActionView::ListArtifacts(spec_repo_build_dir(spec_repo(s)))),
        )
    } else if s.phase == Phase::InstallingArtifacts {
        (
            OrchStateView { phase: Phase::Closing, ..s },
            DirectiveView::Run(ActionView::CloseBuildDir(spec_repo_build_dir(spec_repo(s)))),
        )
    } else {
        if s.repo_index + 1 < spec_branch_repos(s.branch).len() {
            let s2 = OrchStateView { phase: Phase::Syncing, repo_index: s.repo_index + 1, ..s };
            (s2, DirectiveView::Run(ActionView::SyncRepo(spec_repo(s2))))
        } else if s.artifacts.len() == 0 {
            (
                OrchStateView { phase: Phase::Finished, ..s },
                DirectiveView::Fail(ErrorView::EmptyResult),
            )
        } else {
            (
                OrchStateView { phase: Phase::Finished, ..s },
                DirectiveView::Succeed(s.artifacts),
            )
        }
    }
}

/// The orchestrator's transition function: from a state and the outcome
/// of its outstanding action to the next state and the next directive.
pub open spec fn spec_step(s: OrchStateView, ev: EventView) -> (OrchStateView, DirectiveView) {
    match ev {
        EventView::Failure(e) => (
            OrchStateView { phase: Phase::Finished, ..s },
            DirectiveView::Fail(e),
        ),
        EventView::InstalledState(flags) => {
            let sel = spec_selected(spec_conflicts(), flags);
            if sel.len() > 0 {
                (
                    OrchStateView { phase: Phase::AwaitingRemoval, ..s },
                    DirectiveView::Run(ActionView::RemovePackages(sel)),
                )
            } else {
                (
                    OrchStateView { phase: Phase::AwaitingCapability, ..s },
                    DirectiveView::Run(ActionView::ProbeCapability),
                )
            }
        },
        EventView::Capability(b) => (
            OrchStateView { phase: Phase::AwaitingLookup, multilib: b, ..s },
            DirectiveView::Run(ActionView::LookupAccount(spec_build_user())),
        ),
        EventView::AccountLookup(existed) => {
            if existed {
                (
                    OrchStateView {
                        phase: Phase::AwaitingOwnership,
                        created_account: false,
                        ..s
                    },
                    DirectiveView::Run(
                        ActionView::AssignOwnership {
                            user: spec_build_user(),
                            paths: spec_owned_roots(),
                        },
                    ),
                )
            } else {
                (
                    OrchStateView { phase: Phase::AwaitingCreation, created_account: true, ..s },
                    DirectiveView::Run(ActionView::CreateAccount(spec_build_user())),
                )
            }
        },
        EventView::Listed(out) => {
            let produced = spec_filter_packages(spec_package_lines(out), s.multilib);
            let s2 = OrchStateView { artifacts: s.artifacts + produced, ..s };
            if produced.len() > 0 {
                (
                    OrchStateView { phase: Phase::InstallingArtifacts, ..s2 },
                    DirectiveView::Run(ActionView::InstallArtifacts(produced)),
                )
            } else {
                (
                    OrchStateView { phase: Phase::Closing, ..s2 },
                    DirectiveView::Run(
                        ActionView::CloseBuildDir(spec_repo_build_dir(spec_repo(s))),
                    ),
                )
            }
        },
        EventView::Proceed => spec_proceed(s),
    }
}

/// The state a run starts from.
pub open spec fn spec_init(branch: Branch) -> OrchStateView {
    OrchStateView {
        phase: Phase::Init,
        branch,
        multilib: false,
        created_account: false,
        repo_index: 0,
        artifacts: Seq::empty(),
    }
}

fn clone_packages(v: &Vec<String>) -> (r: Vec<String>)
    ensures
        r.deep_view() == v.deep_view(),
{
    let mut r: Vec<String> = Vec::new();
    let mut i: usize = 0;
    proof {
        assert(v.deep_view().take(0) =~= Seq::<Seq<char>>::empty());
    }
    while i < v.len()
        invariant
            i <= v@.len(),
            v.deep_view().len() == v@.len(),
            r.deep_view() == v.deep_view().take(i as int),
        decreases v@.len() - i,
    {
        let p: &String = &v[i];
        r.push(p.clone());
        proof {
            assert(v.deep_view().take(i + 1 as int) =~= v.deep_view().take(i as int).push(p@));
        }
        i = i + 1;
    }
    proof {
        assert(v.deep_view().take(v@.len() as int) =~= v.deep_view());
    }
    r
}

fn current_repo(branch: Branch, idx: usize) -> (r: String)
    requires
        idx < spec_branch_repos(branch).len(),
    ensures
        r@ == spec_branch_repos(branch)[idx as int],
{
    let repos = branch_repos(branch);
    proof {
        assert(repos.deep_view().len() == repos@.len());
        assert(repos.deep_view()[idx as int] == repos@[idx as int]@);
    }
    let p: &String = &repos[idx];
    p.clone()
}

/// The prerequisite-installation step: the packages installed before any
/// repository is processed.
pub fn install_prereqs() -> (a: Action)
    ensures
        a@ == ActionView::InstallPackages(spec_prereqs()),
{
    Action::InstallPackages(prereqs())
}

/// The per-repository dependency step: the prerequisites together with
/// the repository's own build-time dependencies.
pub fn install_repo_deps(repo: &str) -> (a: Action)
    ensures
        a@ == ActionView::InstallPackages(spec_prereqs() + spec_repo_deps(repo@)),
{
    let mut pkgs = prereqs();
    let mut extra = crate::config::repo_deps(repo);
    pkgs.append(&mut extra);
    proof {
        assert(pkgs.deep_view() =~= spec_prereqs() + spec_repo_deps(repo@));
    }
    Action::InstallPackages(pkgs)
}

impl OrchState {
    /// A fresh run for the selected release line.
    pub fn init(branch: Branch) -> (r: OrchState)
        ensures
            r@ == spec_init(branch),
            wf(r@),
    {
        let r = OrchState {
            phase: Phase::Init,
            branch,
            multilib: false,
            created_account: false,
            repo_index: 0,
            artifacts: Vec::new(),
        };
        proof {
            assert(r@.artifacts =~= spec_init(branch).artifacts);
        }
        r
    }

    /// Whether this state can take this event next.
    pub fn permits_event(&self, ev: &Event) -> (r: bool)
        ensures
            r == permits(self@, ev@),
    {
        match ev {
            Event::Failure(_) => !matches!(self.phase, Phase::Finished),
            Event::Proceed => match self.phase {
                Phase::Init | Phase::AwaitingLock | Phase::AwaitingDirs | Phase::AwaitingRemoval
                    | Phase::AwaitingCreation | Phase::AwaitingOwnership
                    | Phase::AwaitingPrereqs | Phase::Syncing | Phase::Opening
                    | Phase::Mirroring | Phase::OwningTree | Phase::InstallingDeps
                    | Phase::Building | Phase::InstallingArtifacts | Phase::Closing => true,
                _ => false,
            },
            Event::InstalledState(f) => matches!(self.phase, Phase::AwaitingConflictQuery)
                && f.len() == 2,
            Event::Capability(_) => matches!(self.phase, Phase::AwaitingCapability),
            Event::AccountLookup(_) => matches!(self.phase, Phase::AwaitingLookup),
            Event::Listed(_) => matches!(self.phase, Phase::Listing),
        }
    }
}

/// One transition of the orchestrator: feeds the outcome of the
/// outstanding action into the state machine and yields the next
/// directive.
pub fn step(state: OrchState, ev: Event) -> (r: (OrchState, Directive))
    requires
        wf(state@),
        permits(state@, ev@),
    ensures
        r.0@ == spec_step(state@, ev@).0,
        r.1@ == spec_step(state@, ev@).1,
        wf(r.0@),
{
    let mut s = state;
    match ev {
        Event::Failure(e) => {
            s.phase = Phase::Finished;
            (s, Directive::Fail(e))
        },
        Event::InstalledState(flags) => {
            let cands = conflict_candidates();
            proof {
                assert(cands.deep_view().len() == cands@.len());
            }
            let sel = conflicts_to_remove(&cands, &flags);
            proof {
                assert(sel.deep_view().len() == sel@.len());
            }
            if sel.len() > 0 {
                s.phase = Phase::AwaitingRemoval;
                (s, Directive::Run(Action::RemovePackages(sel)))
            } else {
                s.phase = Phase::AwaitingCapability;
                (s, Directive::Run(Action::ProbeCapability))
            }
        },
        Event::Capability(b) => {
            s.multilib = b;
            s.phase = Phase::AwaitingLookup;
            (s, Directive::Run(Action::LookupAccount(String::from_str(build_user()))))
        },
        Event::AccountLookup(existed) => {
            if existed {
                s.created_account = false;
                s.phase = Phase::AwaitingOwnership;
                (
                    s,
                    Directive::Run(
                        Action::AssignOwnership {
                            user: String::from_str(build_user()),
                            paths: owned_roots(),
                        },
                    ),
                )
            } else {
                s.created_account = true;
                s.phase = Phase::AwaitingCreation;
                (s, Directive::Run(Action::CreateAccount(String::from_str(build_user()))))
            }
        },
        Event::Listed(out) => {
            let pkgs = parse_package_list(out.as_str());
            let produced = filter_multilib_packages(pkgs, s.multilib);
            proof {
                assert(produced.deep_view().len() == produced@.len());
            }
            let ghost old_artifacts = s.artifacts.deep_view();
            let mut incoming = clone_packages(&produced);
            s.artifacts.append(&mut incoming);
            proof {
                assert(s.artifacts.deep_view() =~= old_artifacts + produced.deep_view());
            }
            if produced.len() > 0 {
                s.phase = Phase::InstallingArtifacts;
                (s, Directive::Run(Action::InstallArtifacts(produced)))
            } else {
                let repo = current_repo(s.branch, s.repo_index);
                s.phase = Phase::Closing;
                (s, Directive::Run(Action::CloseBuildDir(repo_build_dir(repo.as_str()))))
            }
        },
        Event::Proceed => step_proceed(s),
    }
}

fn step_proceed(state: OrchState) -> (r: (OrchState, Directive))
    requires
        wf(state@),
        permits(state@, EventView::Proceed),
    ensures
        r.0@ == spec_proceed(state@).0,
        r.1@ == spec_proceed(state@).1,
        wf(r.0@),
{
    let mut s = state;
    match s.phase {
        Phase::Init => {
            s.phase = Phase::AwaitingLock;
            (s, Directive::Run(Action::AcquireLock(String::from_str(lock_path()))))
        },
        Phase::AwaitingLock => {
            s.phase = Phase::AwaitingDirs;
            (s, Directive::Run(Action::EnsureDirs(root_dirs())))
        },
        Phase::AwaitingDirs => {
            s.phase = Phase::AwaitingConflictQuery;
            (s, Directive::Run(Action::QueryInstalled(conflict_candidates())))
        },
        Phase::AwaitingRemoval => {
            s.phase = Phase::AwaitingCapability;
            (s, Directive::Run(Action::ProbeCapability))
        },
        Phase::AwaitingCreation => {
            s.phase = Phase::AwaitingOwnership;
            (
                s,
                Directive::Run(
                    Action::AssignOwnership {
                        user: String::from_str(build_user()),
                        paths: owned_roots(),
                    },
                ),
            )
        },
        Phase::AwaitingOwnership => {
            s.phase = Phase::AwaitingPrereqs;
            (s, Directive::Run(install_prereqs()))
        },
        Phase::AwaitingPrereqs => {
            let repo = current_repo(s.branch, s.repo_index);
            s.phase = Phase::Syncing;
            (s, Directive::Run(Action::SyncRepo(repo)))
        },
        Phase::Syncing => {
            let repo = current_repo(s.branch, s.repo_index);
            s.phase = Phase::Opening;
            (s, Directive::Run(Action::OpenBuildDir(repo_build_dir(repo.as_str()))))
        },
        Phase::Opening => {
            let repo = current_repo(s.branch, s.repo_index);
            s.phase = Phase::Mirroring;
            (
                s,
                Directive::Run(
                    Action::MirrorSource {
                        src: repo_src_dir(repo.as_str()),
                        dst: repo_build_dir(repo.as_str()),
                    },
                ),
            )
        },
        Phase::Mirroring => {
            let repo = current_repo(s.branch, s.repo_index);
            s.phase = Phase::OwningTree;
            (
                s,
                Directive::Run(
                    Action::OwnTree {
                        user: String::from_str(build_user()),
                        path: repo_build_dir(repo.as_str()),
                    },
                ),
            )
        },
        Phase::OwningTree => {
            let repo = current_repo(s.branch, s.repo_index);
            s.phase = Phase::InstallingDeps;
            (s, Directive::Run(install_repo_deps(repo.as_str())))
        },
        Phase::InstallingDeps => {
            let repo = current_repo(s.branch, s.repo_index);
            s.phase = Phase::Building;
            (s, Directive::Run(Action::Build(repo_build_dir(repo.as_str()))))
        },
        Phase::Building => {
            let repo = current_repo(s.branch, s.repo_index);
            s.phase = Phase::Listing;
            (s, Directive::Run(Action::ListArtifacts(repo_build_dir(repo.as_str()))))
        },
        Phase::InstallingArtifacts => {
            let repo = current_repo(s.branch, s.repo_index);
            s.phase = Phase::Closing;
            (s, Directive::Run(Action::CloseBuildDir(repo_build_dir(repo.as_str()))))
        },
        Phase::Closing => {
            let repos = branch_repos(s.branch);
            proof {
                assert(repos.deep_view().len() == repos@.len());
            }
            if s.repo_index + 1 < repos.len() {
                s.repo_index = s.repo_index + 1;
                let repo = current_repo(s.branch, s.repo_index);
                s.phase = Phase::Syncing;
                (s, Directive::Run(Action::SyncRepo(repo)))
            } else if s.artifacts.len() == 0 {
                s.phase = Phase::Finished;
                (s, Directive::Fail(OrchError::EmptyResult))
            } else {
                let arts = clone_packages(&s.artifacts);
                s.phase = Phase::Finished;
                (s, Directive::Succeed(arts))
            }
        },
        // The remaining phases answer with their own event kind, never
        // with a bare success, so they are excluded by the precondition.
        _ => unreached(),
    }
}

/// Installation of built artifacts is requested exactly for a non-empty
/// filtered list; a repository whose listing filters down to nothing
/// skips installation and goes straight to closing its directory.
pub proof fn lemma_install_only_when_produced(s: OrchStateView, out: Seq<char>)
    requires
        wf(s),
        permits(s, EventView::Listed(out)),
    ensures
        spec_filter_packages(spec_package_lines(out), s.multilib).len() > 0
            ==> spec_step(s, EventView::Listed(out)).1 == DirectiveView::Run(
            ActionView::InstallArtifacts(
                spec_filter_packages(spec_package_lines(out), s.multilib),
            ),
        ),
        spec_filter_packages(spec_package_lines(out), s.multilib).len() == 0
            ==> spec_step(s, EventView::Listed(out)).1 == DirectiveView::Run(
            ActionView::CloseBuildDir(spec_repo_build_dir(spec_repo(s))),
        ),
        spec_step(s, EventView::Listed(out)).0.artifacts == s.artifacts
            + spec_filter_packages(spec_package_lines(out), s.multilib),
{
}

/// Position of a state in the strictly sequential run: pre-loop phases
/// first, then nine phases per processed repository, then the end.
pub open spec fn spec_measure(s: OrchStateView) -> int {
    let reach = spec_phase_rank(s.phase);
    if in_repo_phase(s.phase) {
        10 + 9 * s.repo_index + (reach - 10)
    } else if s.phase == Phase::Finished {
        10 + 9 * (spec_branch_repos(s.branch).len() as int)
    } else {
        reach
    }
}

pub open spec fn spec_phase_rank(p: Phase) -> int {
    match p {
        Phase::Init => 0,
        Phase::AwaitingLock => 1,
        Phase::AwaitingDirs => 2,
        Phase::AwaitingConflictQuery => 3,
        Phase::AwaitingRemoval => 4,
        Phase::AwaitingCapability => 5,
        Phase::AwaitingLookup => 6,
        Phase::AwaitingCreation => 7,
        Phase::AwaitingOwnership => 8,
        Phase::AwaitingPrereqs => 9,
        Phase::Syncing => 10,
        Phase::Opening => 11,
        Phase::Mirroring => 12,
        Phase::OwningTree => 13,
        Phase::InstallingDeps => 14,
        Phase::Building => 15,
        Phase::Listing => 16,
        Phase::InstallingArtifacts => 17,
        Phase::Closing => 18,
        Phase::Finished => 19,
    }
}

/// The run is strictly sequential with no backward transitions: every
/// permitted event moves the state strictly forward, so no step is ever
/// retried and no repository is ever revisited.
pub proof fn lemma_strict_progress(s: OrchStateView, ev: EventView)
    requires
        wf(s),
        permits(s, ev),
    ensures
        spec_measure(spec_step(s, ev).0) > spec_measure(s),
{
}

/// A run in which every step succeeded but which produced no artifact
/// fails with the empty-result error, distinct from any step-level error.
pub proof fn lemma_empty_result_failure(s: OrchStateView)
    requires
        wf(s),
        s.phase == Phase::Closing,
        s.repo_index + 1 == spec_branch_repos(s.branch).len(),
        s.artifacts.len() == 0,
    ensures
        spec_step(s, EventView::Proceed).1 == DirectiveView::Fail(ErrorView::EmptyResult),
        spec_step(s, EventView::Proceed).0.phase == Phase::Finished,
{
}

/// A run that closes its last repository with a non-empty aggregate
/// succeeds and reports exactly the aggregated artifacts.
pub proof fn lemma_success_reports_all(s: OrchStateView)
    requires
        wf(s),
        s.phase == Phase::Closing,
        s.repo_index + 1 == spec_branch_repos(s.branch).len(),
        s.artifacts.len() > 0,
    ensures
        spec_step(s, EventView::Proceed).1 == DirectiveView::Succeed(s.artifacts),
        spec_step(s, EventView::Proceed).0.phase == Phase::Finished,
{
}

} // verus!
