//! The errors that the engine reports.

use crate::text::join_texts;
use vstd::prelude::*;
use vstd::string::*;

verus! {

/// Why a request could not be taken further, or why a step of a plan failed.
#[derive(Debug)]
pub enum EngineError {
    /// A capability that the request needs is missing or switched off.
    CapabilityUnavailable(String),
    /// No plan could be drawn up for the request.
    NoViablePath,
    /// The approval token was not accepted.
    InvalidApprovalToken,
    /// The chosen plan is not one of those proposed.
    InvalidPathIndex,
    /// The proposal waited for approval longer than allowed.
    ApprovalExpired,
    /// The session is not at the stage that the operation needs.
    SessionNotReady,
    /// One step of the chosen plan failed: its id and what went wrong.
    ExecutionStepFailure(String, String),
    /// A conflict found while checking a proposal; advisory only.
    ConflictDetected(String),
}

/// Model of an `EngineError`.
pub enum EngineErrorView {
    CapabilityUnavailable(Seq<char>),
    NoViablePath,
    InvalidApprovalToken,
    InvalidPathIndex,
    ApprovalExpired,
    SessionNotReady,
    ExecutionStepFailure(Seq<char>, Seq<char>),
    ConflictDetected(Seq<char>),
}

impl View for EngineError {
    type V = EngineErrorView;

    open spec fn view(&self) -> EngineErrorView {
        match self {
            EngineError::CapabilityUnavailable(name) => EngineErrorView::CapabilityUnavailable(
                name@,
            ),
            EngineError::NoViablePath => EngineErrorView::NoViablePath,
            EngineError::InvalidApprovalToken => EngineErrorView::InvalidApprovalToken,
            EngineError::InvalidPathIndex => EngineErrorView::InvalidPathIndex,
            EngineError::ApprovalExpired => EngineErrorView::ApprovalExpired,
            EngineError::SessionNotReady => EngineErrorView::SessionNotReady,
            EngineError::ExecutionStepFailure(step, detail) =>
                EngineErrorView::ExecutionStepFailure(step@, detail@),
            EngineError::ConflictDetected(what) => EngineErrorView::ConflictDetected(what@),
        }
    }
}

impl DeepView for EngineError {
    type V = EngineErrorView;

    open spec fn deep_view(&self) -> EngineErrorView {
        self.view()
    }
}

impl EngineErrorView {
    /// The sentence that describes the error.
    pub open spec fn message(self) -> Seq<char> {
        match self {
            EngineErrorView::CapabilityUnavailable(name) => "Required capability '"@ + name
                + "' is not available"@,
            EngineErrorView::NoViablePath =>
                "Could not generate any viable paths for the given intent"@,
            EngineErrorView::InvalidApprovalToken => "Invalid or expired approval token"@,
            EngineErrorView::InvalidPathIndex => "Invalid path index"@,
            EngineErrorView::ApprovalExpired => "Approval window has expired"@,
            EngineErrorView::SessionNotReady => "Session is not ready for this operation"@,
            EngineErrorView::ExecutionStepFailure(step, detail) => "Step "@ + step + " failed: "@
                + detail,
            EngineErrorView::ConflictDetected(what) => "Conflict detected: "@ + what,
        }
    }
}

impl Clone for EngineError {
    fn clone(&self) -> (copy: Self)
        ensures
            copy@ == self@,
    {
        match self {
            EngineError::CapabilityUnavailable(name) => EngineError::CapabilityUnavailable(
                name.clone(),
            ),
            EngineError::NoViablePath => EngineError::NoViablePath,
            EngineError::InvalidApprovalToken => EngineError::InvalidApprovalToken,
            EngineError::InvalidPathIndex => EngineError::InvalidPathIndex,
            EngineError::ApprovalExpired => EngineError::ApprovalExpired,
            EngineError::SessionNotReady => EngineError::SessionNotReady,
            EngineError::ExecutionStepFailure(step, detail) => EngineError::ExecutionStepFailure(
                step.clone(),
                detail.clone(),
            ),
            EngineError::ConflictDetected(what) => EngineError::ConflictDetected(what.clone()),
        }
    }
}

impl EngineError {
    /// The sentence that describes the error.
    pub fn message(&self) -> (text: String)
        ensures
            text@ == self@.message(),
    {
        match self {
            EngineError::CapabilityUnavailable(name) => {
                let mut text = join_texts("Required capability '", name.as_str());
                text.append("' is not available");
                text
            },
            EngineError::NoViablePath => String::from_str(
                "Could not generate any viable paths for the given intent",
            ),
            EngineError::InvalidApprovalToken => String::from_str(
                "Invalid or expired approval token",
            ),
            EngineError::InvalidPathIndex => String::from_str("Invalid path index"),
            EngineError::ApprovalExpired => String::from_str("Approval window has expired"),
            EngineError::SessionNotReady => String::from_str(
                "Session is not ready for this operation",
            ),
            EngineError::ExecutionStepFailure(step, detail) => {
                let mut text = join_texts("Step ", step.as_str());
                text.append(" failed: ");
                text.append(detail.as_str());
                text
            },
            EngineError::ConflictDetected(what) => join_texts("Conflict detected: ", what.as_str()),
        }
    }
}

} // verus!
