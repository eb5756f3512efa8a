//! The error taxonomy of a run. Every failure of the orchestration surfaces
//! as one of these variants, wrapped with the failing operation's
//! description.

use vstd::prelude::*;

verus! {

/// Spec-level value of an [`OrchError`].
pub enum ErrorView {
    Usage,
    Privilege,
    Lock { detail: Seq<char> },
    Io { detail: Seq<char> },
    Sync { detail: Seq<char> },
    ExternalTool { tool: Seq<char>, detail: Seq<char>, code: int },
    EmptyResult,
}

/// Why a run failed.
#[derive(Debug)]
pub enum OrchError {
    /// The command line did not name exactly one known release line.
    Usage,
    /// The process does not hold full host privilege.
    Privilege,
    /// The lock path could not be opened.
    Lock { detail: String },
    /// A directory could not be created, removed or re-owned.
    Io { detail: String },
    /// The source mirror could not be brought up to date.
    Sync { detail: String },
    /// An external tool exited unsuccessfully.
    ExternalTool { tool: String, detail: String, code: i32 },
    /// Every step succeeded but no artifact was produced.
    EmptyResult,
}

impl View for OrchError {
    type V = ErrorView;

    open spec fn view(&self) -> ErrorView {
        match self {
            OrchError::Usage => ErrorView::Usage,
            OrchError::Privilege => ErrorView::Privilege,
            OrchError::Lock { detail } => ErrorView::Lock { detail: detail@ },
            OrchError::Io { detail } => ErrorView::Io { detail: detail@ },
            OrchError::Sync { detail } => ErrorView::Sync { detail: detail@ },
            OrchError::ExternalTool { tool, detail, code } => ErrorView::ExternalTool {
                tool: tool@,
                detail: detail@,
                code: *code as int,
            },
            OrchError::EmptyResult => ErrorView::EmptyResult,
        }
    }
}

/// The single human-readable line reported for an error.
pub open spec fn spec_message(e: ErrorView) -> Seq<char> {
    match e {
        ErrorView::Usage => "usage: nv-helper <580xx|470xx>"@,
        ErrorView::Privilege => "nv-helper must be run as root"@,
        ErrorView::Lock { detail } => "failed to open lock file "@ + detail,
        ErrorView::Io { detail } => detail,
        ErrorView::Sync { detail } => detail,
        ErrorView::ExternalTool { tool, detail, .. } => tool + " failed: "@ + detail,
        ErrorView::EmptyResult => "no packages were built"@,
    }
}

impl OrchError {
    /// Renders the error as the single line a run prints before exiting.
    pub fn message(&self) -> (r: String)
        ensures
            r@ == spec_message(self@),
    {
        match self {
            OrchError::Usage => String::from_str("usage: nv-helper <580xx|470xx>"),
            OrchError::Privilege => String::from_str("nv-helper must be run as root"),
            OrchError::Lock { detail } => {
                let mut m = String::from_str("failed to open lock file ");
                m.append(detail.as_str());
                m
            },
            OrchError::Io { detail } => detail.clone(),
            OrchError::Sync { detail } => detail.clone(),
            OrchError::ExternalTool { tool, detail, .. } => {
                let mut m = tool.clone();
                m.append(" failed: ");
                m.append(detail.as_str());
                m
            },
            OrchError::EmptyResult => String::from_str("no packages were built"),
        }
    }
}

} // verus!
