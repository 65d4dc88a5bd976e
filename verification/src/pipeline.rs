//! The order of a run.
//!
//! A run alternates between decisions, which are made here, and outside
//! work, which the caller does. A [`Stage`] says how far the run has come;
//! [`Stage::request`] says what outside work it waits for; the caller does
//! that work and reports the result as an [`Event`]; [`Stage::step`] takes
//! the run to its next stage. An event that does not answer the request of
//! the stage changes nothing.

use crate::outcome::{
    DownloadError, DownloadErrorView, DownloadOutcome, DownloadOutcomeView, InputError,
    PipelineError, PipelineErrorView,
};
use crate::output::{
    default_filename, default_filename_text, is_clock_stamp, local_stamp, DownloadRequest,
    DownloadRequestView,
};
use crate::report::{exit_code, exit_status, report, report_lines, Line, LineView};
use crate::text::{name_of, text_of, trim, trimmed, NonEmpty};
use crate::tools::{
    answers, check_dependencies, locate, missing_of, DependencyError, Lookup, LookupView, Strategy,
    Tool, ToolHandle, ToolHandleView,
};
use vstd::prelude::*;

verus! {

/// What the operator asked for on the command line.
#[derive(Debug, PartialEq, Eq)]
pub struct Invocation {
    /// The address of the media, if it was given.
    pub url: Option<String>,
    /// Whether a download was asked for at all.
    pub download: bool,
    /// The directory the file is to go to.
    pub output_dir: String,
    /// The name the file is to get, if one was given.
    pub filename: Option<String>,
}

/// The mathematical value of an [`Invocation`].
pub struct InvocationView {
    pub url: Option<Seq<char>>,
    pub download: bool,
    pub output_dir: Seq<char>,
    pub filename: Option<Seq<char>>,
}

impl View for Invocation {
    type V = InvocationView;

    open spec fn view(&self) -> InvocationView {
        InvocationView {
            url: text_of(self.url),
            download: self.download,
            output_dir: self.output_dir@,
            filename: text_of(self.filename),
        }
    }
}

/// The result of a piece of outside work, as the caller reports it.
#[derive(Debug, PartialEq, Eq)]
pub enum Event {
    /// The command line was read.
    Invoked(Invocation),
    /// The operator entered this line when asked for the URL.
    UrlEntered(String),
    /// The two programs were looked for; each was found at the given
    /// place or not at all.
    ToolsLocated { extractor: Option<String>, transcoder: Option<String> },
    /// The output directory is there.
    DirectoryCreated,
    /// The output directory could not be created; the text says why.
    DirectoryFailed(String),
    /// The local clock was read; this is its timestamp.
    ClockRead(String),
    /// The download engine is set up.
    EngineReady,
    /// The download engine could not be set up; the text says why.
    EngineFailed(String),
    /// The engine wrote the file at this path.
    FetchSucceeded(String),
    /// The engine gave up; the text says why.
    FetchFailed(String),
    /// The size of the file in bytes, or nothing if it could not be read.
    SizeRead(Option<u64>),
}

/// The mathematical value of an [`Event`].
pub enum EventView {
    Invoked(InvocationView),
    UrlEntered(Seq<char>),
    ToolsLocated { extractor: Option<Seq<char>>, transcoder: Option<Seq<char>> },
    DirectoryCreated,
    DirectoryFailed(Seq<char>),
    ClockRead(Seq<char>),
    EngineReady,
    EngineFailed(Seq<char>),
    FetchSucceeded(Seq<char>),
    FetchFailed(Seq<char>),
    SizeRead(Option<u64>),
}

impl View for Event {
    type V = EventView;

    open spec fn view(&self) -> EventView {
        match self {
            Event::Invoked(invocation) => EventView::Invoked(invocation@),
            Event::UrlEntered(line) => EventView::UrlEntered(line@),
            Event::ToolsLocated { extractor, transcoder } => EventView::ToolsLocated {
                extractor: text_of(*extractor),
                transcoder: text_of(*transcoder),
            },
            Event::DirectoryCreated => EventView::DirectoryCreated,
            Event::DirectoryFailed(message) => EventView::DirectoryFailed(message@),
            Event::ClockRead(stamp) => EventView::ClockRead(stamp@),
            Event::EngineReady => EventView::EngineReady,
            Event::EngineFailed(message) => EventView::EngineFailed(message@),
            Event::FetchSucceeded(path) => EventView::FetchSucceeded(path@),
            Event::FetchFailed(message) => EventView::FetchFailed(message@),
            Event::SizeRead(size) => EventView::SizeRead(*size),
        }
    }
}

/// The outside work a stage waits for.
#[derive(Debug, PartialEq, Eq)]
pub enum Action {
    /// Read the command line.
    ReadInvocation,
    /// Ask the operator for the URL and read one line.
    PromptUrl,
    /// Look for the two programs.
    Locate { extractor: Lookup, transcoder: Lookup },
    /// Create this directory and its missing ancestors.
    CreateDirectory(String),
    /// Read the local clock.
    ReadClock,
    /// Set up the download engine with the two programs and the output
    /// directory.
    InitEngine { extractor_path: String, transcoder_path: String, output_dir: String },
    /// Fetch the media at `url` into the file `filename`.
    Fetch { url: String, filename: String },
    /// Read the size of the file at this path.
    ReadSize(String),
    /// Show how the program is used, and leave with status 0.
    ShowUsage,
    /// Print these lines and leave with this status.
    Report { lines: Vec<Line>, code: u8 },
}

/// The mathematical value of an [`Action`].
pub enum ActionView {
    ReadInvocation,
    PromptUrl,
    Locate { extractor: LookupView, transcoder: LookupView },
    CreateDirectory(Seq<char>),
    ReadClock,
    InitEngine {
        extractor_path: Seq<char>,
        transcoder_path: Seq<char>,
        output_dir: Seq<char>,
    },
    Fetch { url: Seq<char>, filename: Seq<char> },
    ReadSize(Seq<char>),
    ShowUsage,
    Report { lines: Seq<LineView>, code: u8 },
}

impl View for Action {
    type V = ActionView;

    open spec fn view(&self) -> ActionView {
        match self {
            Action::ReadInvocation => ActionView::ReadInvocation,
            Action::PromptUrl => ActionView::PromptUrl,
            Action::Locate { extractor, transcoder } => ActionView::Locate {
                extractor: extractor@,
                transcoder: transcoder@,
            },
            Action::CreateDirectory(path) => ActionView::CreateDirectory(path@),
            Action::ReadClock => ActionView::ReadClock,
            Action::InitEngine { extractor_path, transcoder_path, output_dir } =>
                ActionView::InitEngine {
                extractor_path: extractor_path@,
                transcoder_path: transcoder_path@,
                output_dir: output_dir@,
            },
            Action::Fetch { url, filename } => ActionView::Fetch { url: url@, filename: filename@ },
            Action::ReadSize(path) => ActionView::ReadSize(path@),
            Action::ShowUsage => ActionView::ShowUsage,
            Action::Report { lines, code } => ActionView::Report {
                lines: lines.deep_view(),
                code: *code,
            },
        }
    }
}

/// How far a run has come.
#[derive(Debug, PartialEq, Eq)]
pub enum Stage {
    /// Nothing has happened yet.
    Idle { strategy: Strategy },
    /// The operator is being asked for the URL.
    AwaitingUrl { strategy: Strategy, given_dir: String, given_name: Option<String> },
    /// The input is in order; the two programs are being looked for.
    Locating {
        strategy: Strategy,
        url: NonEmpty,
        output_dir: NonEmpty,
        filename: Option<NonEmpty>,
    },
    /// Both programs are there; the output directory is being created.
    DependenciesChecked {
        extractor: ToolHandle,
        transcoder: ToolHandle,
        url: NonEmpty,
        output_dir: NonEmpty,
        filename: Option<NonEmpty>,
    },
    /// The directory is there and no name was given; the clock is being
    /// read for one.
    AwaitingClock {
        extractor: ToolHandle,
        transcoder: ToolHandle,
        url: NonEmpty,
        output_dir: NonEmpty,
    },
    /// Directory and name are settled; the engine is being set up.
    OutputResolved { extractor: ToolHandle, transcoder: ToolHandle, request: DownloadRequest },
    /// The engine is fetching.
    Fetching { request: DownloadRequest },
    /// The file is written; its size is being read.
    Measuring { path: String },
    /// No download was asked for. The run is over.
    Declined,
    /// The run is over, with this outcome.
    Finished(DownloadOutcome),
}

/// The mathematical value of a [`Stage`].
pub enum StageView {
    Idle { strategy: Strategy },
    AwaitingUrl { strategy: Strategy, given_dir: Seq<char>, given_name: Option<Seq<char>> },
    Locating {
        strategy: Strategy,
        url: Seq<char>,
        output_dir: Seq<char>,
        filename: Option<Seq<char>>,
    },
    DependenciesChecked {
        extractor: ToolHandleView,
        transcoder: ToolHandleView,
        url: Seq<char>,
        output_dir: Seq<char>,
        filename: Option<Seq<char>>,
    },
    AwaitingClock {
        extractor: ToolHandleView,
        transcoder: ToolHandleView,
        url: Seq<char>,
        output_dir: Seq<char>,
    },
    OutputResolved {
        extractor: ToolHandleView,
        transcoder: ToolHandleView,
        request: DownloadRequestView,
    },
    Fetching { request: DownloadRequestView },
    Measuring { path: Seq<char> },
    Declined,
    Finished(DownloadOutcomeView),
}

impl View for Stage {
    type V = StageView;

    open spec fn view(&self) -> StageView {
        match self {
            Stage::Idle { strategy } => StageView::Idle { strategy: *strategy },
            Stage::AwaitingUrl { strategy, given_dir, given_name } => StageView::AwaitingUrl {
                strategy: *strategy,
                given_dir: given_dir@,
                given_name: text_of(*given_name),
            },
            Stage::Locating { strategy, url, output_dir, filename } => StageView::Locating {
                strategy: *strategy,
                url: url@,
                output_dir: output_dir@,
                filename: name_of(*filename),
            },
            Stage::DependenciesChecked { extractor, transcoder, url, output_dir, filename } =>
                StageView::DependenciesChecked {
                extractor: extractor@,
                transcoder: transcoder@,
                url: url@,
                output_dir: output_dir@,
                filename: name_of(*filename),
            },
            Stage::AwaitingClock { extractor, transcoder, url, output_dir } =>
                StageView::AwaitingClock {
                extractor: extractor@,
                transcoder: transcoder@,
                url: url@,
                output_dir: output_dir@,
            },
            Stage::OutputResolved { extractor, transcoder, request } => StageView::OutputResolved {
                extractor: extractor@,
                transcoder: transcoder@,
                request: request@,
            },
            Stage::Fetching { request } => StageView::Fetching { request: request@ },
            Stage::Measuring { path } => StageView::Measuring { path: path@ },
            Stage::Declined => StageView::Declined,
            Stage::Finished(outcome) => StageView::Finished(outcome@),
        }
    }
}

/// The stage that a run ends in for a failure.
pub open spec fn failed(error: PipelineErrorView) -> StageView {
    StageView::Finished(DownloadOutcomeView::Failure { error })
}

/// The stage after the operator's input is known. The URL counts without
/// the white space around it. An empty URL ends the run, then an empty
/// directory, then an empty file name; otherwise the programs are looked
/// for next.
pub open spec fn after_input(
    strategy: Strategy,
    raw_url: Seq<char>,
    output_dir: Seq<char>,
    filename: Option<Seq<char>>,
) -> StageView {
    if trimmed(raw_url).len() == 0 {
        failed(PipelineErrorView::Input(InputError::EmptyUrl))
    } else if output_dir.len() == 0 {
        failed(PipelineErrorView::Input(InputError::EmptyOutputDir))
    } else if filename is Some && filename->0.len() == 0 {
        failed(PipelineErrorView::Input(InputError::EmptyFilename))
    } else {
        StageView::Locating { strategy, url: trimmed(raw_url), output_dir, filename }
    }
}

/// The stage that follows `stage` when `event` is reported.
pub open spec fn next(stage: StageView, event: EventView) -> StageView {
    match (stage, event) {
        (StageView::Idle { strategy }, EventView::Invoked(invocation)) => {
            if !invocation.download {
                StageView::Declined
            } else {
                match invocation.url {
                    Some(url) => after_input(
                        strategy,
                        url,
                        invocation.output_dir,
                        invocation.filename,
                    ),
                    None => StageView::AwaitingUrl {
                        strategy,
                        given_dir: invocation.output_dir,
                        given_name: invocation.filename,
                    },
                }
            }
        },
        (
            StageView::AwaitingUrl { strategy, given_dir, given_name },
            EventView::UrlEntered(line),
        ) => after_input(strategy, line, given_dir, given_name),
        (
            StageView::Locating { strategy, url, output_dir, filename },
            EventView::ToolsLocated { extractor, transcoder },
        ) => {
            match missing_of(extractor is Some, transcoder is Some) {
                Some(missing) => failed(
                    PipelineErrorView::Dependency(DependencyError { strategy, missing }),
                ),
                None => StageView::DependenciesChecked {
                    extractor: ToolHandleView { tool: Tool::Extractor, path: extractor->0 },
                    transcoder: ToolHandleView { tool: Tool::Transcoder, path: transcoder->0 },
                    url,
                    output_dir,
                    filename,
                },
            }
        },
        (
            StageView::DependenciesChecked { extractor, transcoder, url, output_dir, filename },
            EventView::DirectoryCreated,
        ) => {
            match filename {
                Some(filename) => StageView::OutputResolved {
                    extractor,
                    transcoder,
                    request: DownloadRequestView { url, output_dir, filename },
                },
                None => StageView::AwaitingClock { extractor, transcoder, url, output_dir },
            }
        },
        (StageView::DependenciesChecked { .. }, EventView::DirectoryFailed(message)) => failed(
            PipelineErrorView::Io(message),
        ),
        (
            StageView::AwaitingClock { extractor, transcoder, url, output_dir },
            EventView::ClockRead(stamp),
        ) => StageView::OutputResolved {
            extractor,
            transcoder,
            request: DownloadRequestView { url, output_dir, filename: default_filename(stamp) },
        },
        (StageView::OutputResolved { request, .. }, EventView::EngineReady) => StageView::Fetching {
            request,
        },
        (StageView::OutputResolved { .. }, EventView::EngineFailed(message)) => failed(
            PipelineErrorView::Download(DownloadErrorView::InitFailed(message)),
        ),
        (StageView::Fetching { .. }, EventView::FetchSucceeded(path)) => StageView::Measuring {
            path,
        },
        (StageView::Fetching { .. }, EventView::FetchFailed(message)) => failed(
            PipelineErrorView::Download(DownloadErrorView::FetchFailed(message)),
        ),
        (StageView::Measuring { path }, EventView::SizeRead(size)) => StageView::Finished(
            DownloadOutcomeView::Success { path, size },
        ),
        (stage, _) => stage,
    }
}

/// The outside work that `stage` waits for.
pub open spec fn request_of(stage: StageView) -> ActionView {
    match stage {
        StageView::Idle { .. } => ActionView::ReadInvocation,
        StageView::AwaitingUrl { .. } => ActionView::PromptUrl,
        StageView::Locating { strategy, .. } => ActionView::Locate {
            extractor: strategy.lookup_spec(Tool::Extractor),
            transcoder: strategy.lookup_spec(Tool::Transcoder),
        },
        StageView::DependenciesChecked { output_dir, .. } => ActionView::CreateDirectory(
            output_dir,
        ),
        StageView::AwaitingClock { .. } => ActionView::ReadClock,
        StageView::OutputResolved { extractor, transcoder, request } => ActionView::InitEngine {
            extractor_path: extractor.path,
            transcoder_path: transcoder.path,
            output_dir: request.output_dir,
        },
        StageView::Fetching { request } => ActionView::Fetch {
            url: request.url,
            filename: request.filename,
        },
        StageView::Measuring { path } => ActionView::ReadSize(path),
        StageView::Declined => ActionView::ShowUsage,
        StageView::Finished(outcome) => ActionView::Report {
            lines: report_lines(outcome),
            code: exit_status(outcome),
        },
    }
}

impl StageView {
    /// Whether the run is over.
    pub open spec fn is_final(self) -> bool {
        self is Declined || self is Finished
    }

    /// Whether the stage puts the download engine to work.
    pub open spec fn engages(self) -> bool {
        self is OutputResolved || self is Fetching
    }
}

/// The stage that a run ends in for a failure.
fn fail(error: PipelineError) -> (stage: Stage)
    ensures
        stage@ == failed(error@),
{
    Stage::Finished(DownloadOutcome::Failure { error })
}

/// Checks the operator's input and takes the run to its next stage.
fn check_input(
    strategy: Strategy,
    raw_url: &str,
    output_dir: String,
    filename: Option<String>,
) -> (stage: Stage)
    ensures
        stage@ == after_input(strategy, raw_url@, output_dir@, text_of(filename)),
{
    let url = match NonEmpty::new(trim(raw_url)) {
        Some(url) => url,
        None => {
            return fail(PipelineError::Input(InputError::EmptyUrl));
        },
    };
    let output_dir = match NonEmpty::new(output_dir) {
        Some(output_dir) => output_dir,
        None => {
            return fail(PipelineError::Input(InputError::EmptyOutputDir));
        },
    };
    let filename = match filename {
        Some(filename) => match NonEmpty::new(filename) {
            Some(filename) => Some(filename),
            None => {
                return fail(PipelineError::Input(InputError::EmptyFilename));
            },
        },
        None => None,
    };
    Stage::Locating { strategy, url, output_dir, filename }
}

impl Stage {
    /// The stage of a run that has not begun, for programs that are looked
    /// for as `strategy` says.
    pub fn new(strategy: Strategy) -> (stage: Stage)
        ensures
            stage@ == (StageView::Idle { strategy }),
    {
        Stage::Idle { strategy }
    }

    /// Whether the run is over.
    pub fn is_final(&self) -> (over: bool)
        ensures
            over == self@.is_final(),
    {
        match self {
            Stage::Declined => true,
            Stage::Finished(_) => true,
            _ => false,
        }
    }

    /// Takes the run to the stage that follows when `event` is reported.
    pub fn step(self, event: Event) -> (stage: Stage)
        ensures
            stage@ == next(self@, event@),
    {
        match (self, event) {
            (Stage::Idle { strategy }, Event::Invoked(invocation)) => {
                if !invocation.download {
                    Stage::Declined
                } else {
                    match invocation.url {
                        Some(url) => check_input(
                            strategy,
                            url.as_str(),
                            invocation.output_dir,
                            invocation.filename,
                        ),
                        None => Stage::AwaitingUrl {
                            strategy,
                            given_dir: invocation.output_dir,
                            given_name: invocation.filename,
                        },
                    }
                }
            },
            (Stage::AwaitingUrl { strategy, given_dir, given_name }, Event::UrlEntered(line)) => {
                check_input(strategy, line.as_str(), given_dir, given_name)
            },
            (
                Stage::Locating { strategy, url, output_dir, filename },
                Event::ToolsLocated { extractor, transcoder },
            ) => {
                match check_dependencies(strategy, extractor, transcoder) {
                    Ok((extractor, transcoder)) => Stage::DependenciesChecked {
                        extractor,
                        transcoder,
                        url,
                        output_dir,
                        filename,
                    },
                    Err(error) => fail(PipelineError::Dependency(error)),
                }
            },
            (
                Stage::DependenciesChecked { extractor, transcoder, url, output_dir, filename },
                Event::DirectoryCreated,
            ) => {
                match filename {
                    Some(filename) => Stage::OutputResolved {
                        extractor,
                        transcoder,
                        request: DownloadRequest { url, output_dir, filename },
                    },
                    None => Stage::AwaitingClock { extractor, transcoder, url, output_dir },
                }
            },
            (Stage::DependenciesChecked { .. }, Event::DirectoryFailed(message)) => fail(
                PipelineError::Io(message),
            ),
            (
                Stage::AwaitingClock { extractor, transcoder, url, output_dir },
                Event::ClockRead(stamp),
            ) => Stage::OutputResolved {
                extractor,
                transcoder,
                request: DownloadRequest {
                    url,
                    output_dir,
                    filename: default_filename_text(stamp.as_str()),
                },
            },
            (Stage::OutputResolved { request, .. }, Event::EngineReady) => Stage::Fetching {
                request,
            },
            (Stage::OutputResolved { .. }, Event::EngineFailed(message)) => fail(
                PipelineError::Download(DownloadError::InitFailed(message)),
            ),
            (Stage::Fetching { .. }, Event::FetchSucceeded(path)) => Stage::Measuring { path },
            (Stage::Fetching { .. }, Event::FetchFailed(message)) => fail(
                PipelineError::Download(DownloadError::FetchFailed(message)),
            ),
            (Stage::Measuring { path }, Event::SizeRead(size)) => Stage::Finished(
                DownloadOutcome::Success { path, size },
            ),
            (stage, _) => stage,
        }
    }

    /// The outside work that the stage waits for.
    pub fn request(&self) -> (action: Action)
        ensures
            action@ == request_of(self@),
    {
        match self {
            Stage::Idle { .. } => Action::ReadInvocation,
            Stage::AwaitingUrl { .. } => Action::PromptUrl,
            Stage::Locating { strategy, .. } => Action::Locate {
                extractor: strategy.lookup(Tool::Extractor),
                transcoder: strategy.lookup(Tool::Transcoder),
            },
            Stage::DependenciesChecked { output_dir, .. } => Action::CreateDirectory(
                String::from_str(output_dir.as_str()),
            ),
            Stage::AwaitingClock { .. } => Action::ReadClock,
            Stage::OutputResolved { extractor, transcoder, request } => Action::InitEngine {
                extractor_path: String::from_str(extractor.path.as_str()),
                transcoder_path: String::from_str(transcoder.path.as_str()),
                output_dir: String::from_str(request.output_dir.as_str()),
            },
            Stage::Fetching { request } => Action::Fetch {
                url: String::from_str(request.url.as_str()),
                filename: String::from_str(request.filename.as_str()),
            },
            Stage::Measuring { path } => Action::ReadSize(String::from_str(path.as_str())),
            Stage::Declined => Action::ShowUsage,
            Stage::Finished(outcome) => Action::Report {
                lines: report(outcome),
                code: exit_code(outcome),
            },
        }
    }
}

/// Whether `event` can be the result of the work that `action` asks for,
/// where that work is done here: a lookup finds a file where it was
/// looked for or not at all, and the clock is read as a timestamp.
pub open spec fn performs(action: ActionView, event: Option<EventView>) -> bool {
    match action {
        ActionView::Locate { extractor, transcoder } => event matches Some(
            EventView::ToolsLocated { extractor: first, transcoder: second },
        ) && answers(extractor, first) && answers(transcoder, second),
        ActionView::ReadClock => event matches Some(EventView::ClockRead(stamp)) && is_clock_stamp(
            stamp,
        ),
        _ => event is None,
    }
}

/// The view of an optional event.
pub open spec fn event_of(event: Option<Event>) -> Option<EventView> {
    match event {
        Some(event) => Some(event@),
        None => None,
    }
}

impl Action {
    /// Does the work that needs nothing but a look at the machine: the
    /// lookup of the two programs and the reading of the clock. For these
    /// the event that reports the result comes back; all other work is the
    /// caller's, and nothing comes back.
    pub fn perform(&self) -> (event: Option<Event>)
        ensures
            performs(self@, event_of(event)),
    {
        match self {
            Action::Locate { extractor, transcoder } => {
                let extractor = locate(extractor);
                let transcoder = locate(transcoder);
                Some(Event::ToolsLocated { extractor, transcoder })
            },
            Action::ReadClock => Some(Event::ClockRead(local_stamp())),
            _ => None,
        }
    }
}

} // verus!
