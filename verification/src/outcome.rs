//! How a run ends: the file that was written, or the failure that stopped
//! it.

use crate::tools::DependencyError;
use vstd::prelude::*;

verus! {

/// What is wrong with what the operator entered.
#[derive(Clone, Copy, Debug, PartialEq, Eq, Structural)]
pub enum InputError {
    /// The URL is empty or white space only.
    EmptyUrl,
    /// The output directory is the empty text.
    EmptyOutputDir,
    /// The file name is the empty text.
    EmptyFilename,
}

impl InputError {
    /// The description of the failure.
    pub open spec fn message_spec(self) -> Seq<char> {
        match self {
            InputError::EmptyUrl => "URL cannot be empty"@,
            InputError::EmptyOutputDir => "Output directory cannot be empty"@,
            InputError::EmptyFilename => "Filename cannot be empty"@,
        }
    }

    /// The description of the failure.
    pub fn message(self) -> (text: &'static str)
        ensures
            text@ == self.message_spec(),
    {
        match self {
            InputError::EmptyUrl => "URL cannot be empty",
            InputError::EmptyOutputDir => "Output directory cannot be empty",
            InputError::EmptyFilename => "Filename cannot be empty",
        }
    }
}

/// A failure of the download engine, with the engine's own words.
#[derive(Debug, PartialEq, Eq)]
pub enum DownloadError {
    /// The engine could not be set up with the two programs.
    InitFailed(String),
    /// The engine gave up on the fetch.
    FetchFailed(String),
}

/// The mathematical value of a [`DownloadError`].
pub enum DownloadErrorView {
    InitFailed(Seq<char>),
    FetchFailed(Seq<char>),
}

impl View for DownloadError {
    type V = DownloadErrorView;

    open spec fn view(&self) -> DownloadErrorView {
        match self {
            DownloadError::InitFailed(message) => DownloadErrorView::InitFailed(message@),
            DownloadError::FetchFailed(message) => DownloadErrorView::FetchFailed(message@),
        }
    }
}

impl DownloadErrorView {
    /// The engine's words.
    pub open spec fn message(self) -> Seq<char> {
        match self {
            DownloadErrorView::InitFailed(message) => message,
            DownloadErrorView::FetchFailed(message) => message,
        }
    }
}

impl DownloadError {
    /// The engine's words.
    pub fn message(&self) -> (text: &str)
        ensures
            text@ == self@.message(),
    {
        match self {
            DownloadError::InitFailed(message) => message.as_str(),
            DownloadError::FetchFailed(message) => message.as_str(),
        }
    }
}

/// Why a run stopped before its end.
#[derive(Debug, PartialEq, Eq)]
pub enum PipelineError {
    /// The operator's input cannot be used.
    Input(InputError),
    /// A helper program is missing.
    Dependency(DependencyError),
    /// The output directory could not be created; the text says why.
    Io(String),
    /// The download engine failed.
    Download(DownloadError),
}

/// The mathematical value of a [`PipelineError`].
pub enum PipelineErrorView {
    Input(InputError),
    Dependency(DependencyError),
    Io(Seq<char>),
    Download(DownloadErrorView),
}

impl View for PipelineError {
    type V = PipelineErrorView;

    open spec fn view(&self) -> PipelineErrorView {
        match self {
            PipelineError::Input(error) => PipelineErrorView::Input(*error),
            PipelineError::Dependency(error) => PipelineErrorView::Dependency(*error),
            PipelineError::Io(message) => PipelineErrorView::Io(message@),
            PipelineError::Download(error) => PipelineErrorView::Download(error@),
        }
    }
}

impl PipelineErrorView {
    /// What the operator is told, line by line. A wrong input is named as
    /// it is; every other failure follows the word `Error: `, and a
    /// missing program is followed by the advice on how to get it.
    pub open spec fn description(self) -> Seq<Seq<char>> {
        match self {
            PipelineErrorView::Input(error) => seq![error.message_spec()],
            PipelineErrorView::Dependency(error) => seq!["Error: "@ + error.message_spec()]
                + error.advice_spec(),
            PipelineErrorView::Io(message) => seq!["Error: "@ + message],
            PipelineErrorView::Download(error) => seq!["Error: "@ + error.message()],
        }
    }
}

/// Writes `message` behind the word `Error: `.
fn error_line(message: &str) -> (line: String)
    ensures
        line@ == "Error: "@ + message@,
{
    let mut line = String::from_str("Error: ");
    line.append(message);
    line
}

impl PipelineError {
    /// What the operator is told, line by line.
    pub fn description(&self) -> (lines: Vec<String>)
        ensures
            lines.deep_view() == self@.description(),
    {
        let mut lines: Vec<String> = Vec::new();
        match self {
            PipelineError::Input(error) => {
                lines.push(String::from_str(error.message()));
            },
            PipelineError::Dependency(error) => {
                lines.push(error_line(error.message().as_str()));
                let mut advice = error.advice();
                lines.append(&mut advice);
            },
            PipelineError::Io(message) => {
                lines.push(error_line(message.as_str()));
            },
            PipelineError::Download(error) => {
                lines.push(error_line(error.message()));
            },
        }
        lines
    }
}

/// The result of one download attempt.
#[derive(Debug, PartialEq, Eq)]
pub enum DownloadOutcome {
    /// The file was written.
    Success {
        /// Where the engine put it.
        path: String,
        /// How many bytes it holds, where that could be read.
        size: Option<u64>,
    },
    /// The run stopped.
    Failure {
        /// Why.
        error: PipelineError,
    },
}

/// The mathematical value of a [`DownloadOutcome`].
pub enum DownloadOutcomeView {
    Success { path: Seq<char>, size: Option<u64> },
    Failure { error: PipelineErrorView },
}

impl View for DownloadOutcome {
    type V = DownloadOutcomeView;

    open spec fn view(&self) -> DownloadOutcomeView {
        match self {
            DownloadOutcome::Success { path, size } => DownloadOutcomeView::Success {
                path: path@,
                size: *size,
            },
            DownloadOutcome::Failure { error } => DownloadOutcomeView::Failure { error: error@ },
        }
    }
}

} // verus!
