//! The failures that a request can end in. Each belongs to one of four
//! categories, which a front end can tell apart.

use crate::extract::ParseError;
use crate::extract::ParseErrorKind;
use crate::extract::ParseErrorView;
use vstd::prelude::*;
use vstd::string::StringExecFns;

verus! {

/// The runtime environment is not what the inference program needs.
#[derive(Debug, Clone, PartialEq, Eq)]
pub enum EnvironmentError {
    /// The interpreter could not be started.
    InterpreterMissing { message: String },
    /// The interpreter's answer does not mention the required version.
    VersionMismatch { required: String, reported: String },
    /// The isolated environment could not be created.
    CreationFailed { diagnostics: String },
    /// The dependencies could not be installed.
    InstallationFailed { diagnostics: String },
}

pub enum EnvironmentErrorView {
    InterpreterMissing { message: Seq<char> },
    VersionMismatch { required: Seq<char>, reported: Seq<char> },
    CreationFailed { diagnostics: Seq<char> },
    InstallationFailed { diagnostics: Seq<char> },
}

impl View for EnvironmentError {
    type V = EnvironmentErrorView;

    open spec fn view(&self) -> EnvironmentErrorView {
        match *self {
            EnvironmentError::InterpreterMissing { message } => {
                EnvironmentErrorView::InterpreterMissing { message: message@ }
            },
            EnvironmentError::VersionMismatch { required, reported } => {
                EnvironmentErrorView::VersionMismatch { required: required@, reported: reported@ }
            },
            EnvironmentError::CreationFailed { diagnostics } => {
                EnvironmentErrorView::CreationFailed { diagnostics: diagnostics@ }
            },
            EnvironmentError::InstallationFailed { diagnostics } => {
                EnvironmentErrorView::InstallationFailed { diagnostics: diagnostics@ }
            },
        }
    }
}

/// Why a request produced no prediction.
#[derive(Debug, Clone, PartialEq, Eq)]
pub enum BridgeError {
    /// The environment is not ready.
    Environment(EnvironmentError),
    /// The inference program could not be started.
    Launch { message: String },
    /// The inference program ran and reported failure by its exit status.
    Execution { exit_status: Option<i32>, stderr: String },
    /// The inference program's output held no prediction that could be read.
    Parse(ParseError),
}

pub enum BridgeErrorView {
    Environment(EnvironmentErrorView),
    Launch { message: Seq<char> },
    Execution { exit_status: Option<i32>, stderr: Seq<char> },
    Parse(ParseErrorView),
}

impl View for BridgeError {
    type V = BridgeErrorView;

    open spec fn view(&self) -> BridgeErrorView {
        match *self {
            BridgeError::Environment(error) => BridgeErrorView::Environment(error@),
            BridgeError::Launch { message } => BridgeErrorView::Launch { message: message@ },
            BridgeError::Execution { exit_status, stderr } => {
                BridgeErrorView::Execution { exit_status, stderr: stderr@ }
            },
            BridgeError::Parse(error) => BridgeErrorView::Parse(error@),
        }
    }
}

/// The four kinds of failure.
#[derive(Debug, Clone, Copy, PartialEq, Eq, Structural)]
pub enum ErrorCategory {
    Environment,
    Launch,
    Execution,
    Parse,
}

impl BridgeErrorView {
    pub open spec fn category(self) -> ErrorCategory {
        match self {
            BridgeErrorView::Environment(_) => ErrorCategory::Environment,
            BridgeErrorView::Launch { .. } => ErrorCategory::Launch,
            BridgeErrorView::Execution { .. } => ErrorCategory::Execution,
            BridgeErrorView::Parse(_) => ErrorCategory::Parse,
        }
    }
}

/// What is wrong with an output that could not be read, in words.
pub open spec fn kind_label(kind: ParseErrorKind) -> Seq<char> {
    match kind {
        ParseErrorKind::NoResultLine => "the output has no result line"@,
        ParseErrorKind::MalformedQuoting => "the result line holds no quoted token"@,
        ParseErrorKind::EmptyPrediction => "the quoted token is empty"@,
        ParseErrorKind::InvalidEncoding => "the output is not text"@,
    }
}

impl EnvironmentErrorView {
    pub open spec fn description(self) -> Seq<char> {
        match self {
            EnvironmentErrorView::InterpreterMissing { message } => {
                "the interpreter could not be started: "@ + message
            },
            EnvironmentErrorView::VersionMismatch { required, reported } => {
                "Python "@ + required + " is not installed"@
            },
            EnvironmentErrorView::CreationFailed { diagnostics } => {
                "failed to create virtual environment: "@ + diagnostics
            },
            EnvironmentErrorView::InstallationFailed { diagnostics } => {
                "failed to install dependencies: "@ + diagnostics
            },
        }
    }
}

impl BridgeErrorView {
    /// The message for the front end: the category in words, a colon, and
    /// what went wrong.
    pub open spec fn description(self) -> Seq<char> {
        match self {
            BridgeErrorView::Environment(error) => {
                "environment not ready: "@ + error.description()
            },
            BridgeErrorView::Launch { message } => "could not start inference: "@ + message,
            BridgeErrorView::Execution { exit_status, stderr } => "inference failed: "@ + stderr,
            BridgeErrorView::Parse(error) => "could not read result: "@ + kind_label(error.kind),
        }
    }
}

/// `head` followed by `tail`.
fn joined(head: &str, tail: &str) -> (text: String)
    ensures
        text@ == head@ + tail@,
{
    String::from_str(head).concat(tail)
}

fn label_of(kind: ParseErrorKind) -> (label: &'static str)
    ensures
        label@ == kind_label(kind),
{
    match kind {
        ParseErrorKind::NoResultLine => "the output has no result line",
        ParseErrorKind::MalformedQuoting => "the result line holds no quoted token",
        ParseErrorKind::EmptyPrediction => "the quoted token is empty",
        ParseErrorKind::InvalidEncoding => "the output is not text",
    }
}

impl EnvironmentError {
    /// What went wrong, in words.
    pub fn describe(&self) -> (text: String)
        ensures
            text@ == self@.description(),
    {
        match self {
            EnvironmentError::InterpreterMissing { message } => joined(
                "the interpreter could not be started: ",
                message.as_str(),
            ),
            EnvironmentError::VersionMismatch { required, reported } => joined(
                "Python ",
                required.as_str(),
            ).concat(" is not installed"),
            EnvironmentError::CreationFailed { diagnostics } => joined(
                "failed to create virtual environment: ",
                diagnostics.as_str(),
            ),
            EnvironmentError::InstallationFailed { diagnostics } => joined(
                "failed to install dependencies: ",
                diagnostics.as_str(),
            ),
        }
    }
}

impl BridgeError {
    /// The message for the front end.
    pub fn describe(&self) -> (text: String)
        ensures
            text@ == self@.description(),
    {
        match self {
            BridgeError::Environment(error) => joined(
                "environment not ready: ",
                error.describe().as_str(),
            ),
            BridgeError::Launch { message } => joined(
                "could not start inference: ",
                message.as_str(),
            ),
            BridgeError::Execution { exit_status, stderr } => joined(
                "inference failed: ",
                stderr.as_str(),
            ),
            BridgeError::Parse(error) => joined("could not read result: ", label_of(error.kind)),
        }
    }

    /// The kind of failure that this error is.
    pub fn category(&self) -> (category: ErrorCategory)
        ensures
            category == self@.category(),
    {
        match self {
            BridgeError::Environment(_) => ErrorCategory::Environment,
            BridgeError::Launch { .. } => ErrorCategory::Launch,
            BridgeError::Execution { .. } => ErrorCategory::Execution,
            BridgeError::Parse(_) => ErrorCategory::Parse,
        }
    }
}

} // verus!
