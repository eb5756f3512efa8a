//! A privileged, single-shot build orchestrator: it synchronizes external
//! source repositories, builds them under an ephemeral unprivileged
//! identity, and installs the produced artifacts, under a system-wide
//! exclusive lock and with guaranteed teardown of all transient state.
//!
//! The library holds the run's entire decision logic: the orchestration
//! state machine, the static configuration, and the pure pipeline steps.
//! External tools (the package manager, the version-control client, the
//! build toolchain, account management) are performed by the surrounding
//! program, which feeds each outcome back in as an event.

pub mod artifacts;
pub mod builder;
pub mod config;
pub mod conflicts;
pub mod dirscope;
pub mod errors;
pub mod identity;
pub mod orchestrator;
pub mod strutil;
pub mod sync;
