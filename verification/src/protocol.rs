//! What the discovery engine and the host say to each other, and what a
//! search comes to.

use vstd::prelude::*;
use crate::strategy::{Source, Strategy};

verus! {

/// The operating system family of the host.
#[derive(Clone, Copy, Debug, PartialEq, Eq, Structural)]
pub enum Platform {
    Windows,
    Other,
}

/// Why discovery produced no path.
#[derive(Clone, Copy, Debug, PartialEq, Eq, Structural)]
pub enum DiscoveryError {
    /// The host is not of the one family on which the game client runs.
    PlatformUnsupported,
    /// Every strategy was tried and none yielded a path.
    NotFound,
}

impl DiscoveryError {
    /// The sentence that tells the user of the failure.
    pub open spec fn text(self) -> Seq<char> {
        match self {
            DiscoveryError::PlatformUnsupported => "Star Citizen is only available on Windows"@,
            DiscoveryError::NotFound => "Could not find Star Citizen installation or logs"@,
        }
    }

    /// Renders the sentence that tells the user of the failure.
    pub fn message(&self) -> (message: String)
        ensures
            message@ == self.text(),
    {
        match self {
            DiscoveryError::PlatformUnsupported => "Star Citizen is only available on Windows"
                .to_owned(),
            DiscoveryError::NotFound => "Could not find Star Citizen installation or logs"
                .to_owned(),
        }
    }
}

/// Why a registry value could not be read.
#[derive(Clone, Copy, Debug, PartialEq, Eq, Structural)]
pub enum RegistryReadError {
    /// The key or the value does not exist.
    NotFound,
    /// The key exists and the process may not read it.
    AccessDenied,
    /// Any other failure of the read.
    Other,
}

/// A registry read that failed, kept for diagnostics. Discovery treats every
/// such failure alike, as a source that names no root; a denied read is in
/// particular not told apart from a missing key when the next source is chosen.
#[derive(Clone, Copy, Debug, PartialEq, Eq, Structural)]
pub struct RegistryFailure {
    pub source: Source,
    pub error: RegistryReadError,
}

/// A path believed to hold the game client's log, or the directory that would
/// hold it, together with the strategy that produced it.
#[derive(Clone, Debug, PartialEq, Eq)]
pub struct LogPath {
    pub path: String,
    pub strategy: Strategy,
}

/// A [`LogPath`] as a mathematical value.
pub struct LogPathView {
    pub path: Seq<char>,
    pub strategy: Strategy,
}

impl View for LogPath {
    type V = LogPathView;

    open spec fn view(&self) -> LogPathView {
        LogPathView { path: self.path@, strategy: self.strategy }
    }
}

/// The views of a list of paths, in the same order.
pub open spec fn log_views(paths: Seq<LogPath>) -> Seq<LogPathView> {
    paths.map_values(|p: LogPath| p@)
}

/// Whether all of `found` were produced by one strategy.
pub open spec fn of_one_strategy(found: Seq<LogPathView>) -> bool {
    forall|i: int, j: int|
        0 <= i < found.len() && 0 <= j < found.len() ==> (#[trigger] found[i]).strategy == (
        #[trigger] found[j]).strategy
}

/// The outcome of discovery as a mathematical value: the paths found, in
/// the order of their discovery, or the reason why there are none.
pub type OutcomeView = Result<Seq<LogPathView>, DiscoveryError>;

/// A question to the host.
#[derive(Clone, Debug, PartialEq, Eq)]
pub enum Request {
    /// Read a string value below the machine-wide registry root.
    ReadRegistry { key: String, value: String },
    /// Read an environment variable.
    ReadVariable { name: String },
    /// Tell whether anything exists at a path.
    ProbePath { path: String },
}

/// A [`Request`] as a mathematical value.
pub enum RequestView {
    ReadRegistry { key: Seq<char>, value: Seq<char> },
    ReadVariable { name: Seq<char> },
    ProbePath { path: Seq<char> },
}

impl View for Request {
    type V = RequestView;

    open spec fn view(&self) -> RequestView {
        match *self {
            Request::ReadRegistry { key, value } => RequestView::ReadRegistry {
                key: key@,
                value: value@,
            },
            Request::ReadVariable { name } => RequestView::ReadVariable { name: name@ },
            Request::ProbePath { path } => RequestView::ProbePath { path: path@ },
        }
    }
}

/// The host's answer to a request.
#[derive(Debug, PartialEq, Eq)]
pub enum Answer {
    /// The registry value, or why it could not be read.
    Registry(Result<String, RegistryReadError>),
    /// The variable's value, if it is set and is valid Unicode.
    Variable(Option<String>),
    /// Whether the probed path exists.
    Exists(bool),
}

/// An [`Answer`] as a mathematical value.
pub enum AnswerView {
    Registry(Result<Seq<char>, RegistryReadError>),
    Variable(Option<Seq<char>>),
    Exists(bool),
}

impl View for Answer {
    type V = AnswerView;

    open spec fn view(&self) -> AnswerView {
        match *self {
            Answer::Registry(Ok(value)) => AnswerView::Registry(Ok(value@)),
            Answer::Registry(Err(error)) => AnswerView::Registry(Err(error)),
            Answer::Variable(Some(value)) => AnswerView::Variable(Some(value@)),
            Answer::Variable(None) => AnswerView::Variable(None),
            Answer::Exists(present) => AnswerView::Exists(present),
        }
    }
}

/// The view of an outcome: the views of the paths, or the error.
pub open spec fn outcome_view(outcome: Result<Vec<LogPath>, DiscoveryError>) -> OutcomeView {
    match outcome {
        Ok(paths) => Ok(log_views(paths@)),
        Err(error) => Err(error),
    }
}

} // verus!
