//! What can go wrong, and how it is told to the operator.

use vstd::prelude::*;

verus! {

/// The ways an operation on environments or packages can fail. None of them
/// ends a session: each is shown as a passing status message.
#[derive(Debug, PartialEq, Eq)]
pub enum Failure {
    /// A directory or interpreter did not yield an environment record.
    DetectionFailure,
    /// No candidate executable of a fallback chain could be started.
    ToolMissing,
    /// An executable ran and exited unsuccessfully; its diagnostic text.
    ExecutionFailure(String),
    /// A tool exited cleanly, but its output had an unexpected shape.
    ParseFailure,
    /// Creating or removing a directory tree failed; the system's text.
    FilesystemFailure(String),
}

/// The mathematical value of a [`Failure`].
pub ghost enum FailureModel {
    DetectionFailure,
    ToolMissing,
    ExecutionFailure(Seq<char>),
    ParseFailure,
    FilesystemFailure(Seq<char>),
}

impl DeepView for Failure {
    type V = FailureModel;

    open spec fn deep_view(&self) -> FailureModel {
        match self {
            Failure::DetectionFailure => FailureModel::DetectionFailure,
            Failure::ToolMissing => FailureModel::ToolMissing,
            Failure::ExecutionFailure(text) => FailureModel::ExecutionFailure(text@),
            Failure::ParseFailure => FailureModel::ParseFailure,
            Failure::FilesystemFailure(text) => FailureModel::FilesystemFailure(text@),
        }
    }
}

/// The text shown for a failure. Diagnostic text captured from a tool or
/// from the system is shown as it came.
pub open spec fn failure_text(failure: FailureModel) -> Seq<char> {
    match failure {
        FailureModel::DetectionFailure => "no environment found at the given location"@,
        FailureModel::ToolMissing => "no package manager found"@,
        FailureModel::ExecutionFailure(text) => text,
        FailureModel::ParseFailure => "unexpected output from the package manager"@,
        FailureModel::FilesystemFailure(text) => text,
    }
}

impl Failure {
    /// The text shown for this failure.
    pub fn message(&self) -> (r: String)
        ensures
            r@ == failure_text(self.deep_view()),
    {
        match self {
            Failure::DetectionFailure => "no environment found at the given location".to_owned(),
            Failure::ToolMissing => "no package manager found".to_owned(),
            Failure::ExecutionFailure(text) => text.clone(),
            Failure::ParseFailure => "unexpected output from the package manager".to_owned(),
            Failure::FilesystemFailure(text) => text.clone(),
        }
    }
}

impl Clone for Failure {
    fn clone(&self) -> (r: Self)
        ensures
            r.deep_view() == self.deep_view(),
    {
        match self {
            Failure::DetectionFailure => Failure::DetectionFailure,
            Failure::ToolMissing => Failure::ToolMissing,
            Failure::ExecutionFailure(text) => Failure::ExecutionFailure(text.clone()),
            Failure::ParseFailure => Failure::ParseFailure,
            Failure::FilesystemFailure(text) => Failure::FilesystemFailure(text.clone()),
        }
    }
}

} // verus!
