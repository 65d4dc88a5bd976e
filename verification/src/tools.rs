//! The two helper programs a download needs, and the rule that no download
//! begins without them.

use crate::text::{occurs_in, text_of};
use vstd::prelude::*;

verus! {

/// One of the two helper programs.
#[derive(Clone, Copy, Debug, PartialEq, Eq, Structural)]
pub enum Tool {
    /// The program that finds and downloads the media.
    Extractor,
    /// The program that converts the media into its final container.
    Transcoder,
}

impl Tool {
    /// The file name of the program.
    pub open spec fn name_spec(self) -> Seq<char> {
        match self {
            Tool::Extractor => "yt-dlp"@,
            Tool::Transcoder => "ffmpeg"@,
        }
    }

    /// Where the program can be had.
    pub open spec fn homepage_spec(self) -> Seq<char> {
        match self {
            Tool::Extractor => "https://github.com/yt-dlp/yt-dlp"@,
            Tool::Transcoder => "https://ffmpeg.org"@,
        }
    }

    /// The file name of the program.
    pub fn name(self) -> (name: &'static str)
        ensures
            name@ == self.name_spec(),
    {
        match self {
            Tool::Extractor => "yt-dlp",
            Tool::Transcoder => "ffmpeg",
        }
    }

    /// Where the program can be had.
    pub fn homepage(self) -> (url: &'static str)
        ensures
            url@ == self.homepage_spec(),
    {
        match self {
            Tool::Extractor => "https://github.com/yt-dlp/yt-dlp",
            Tool::Transcoder => "https://ffmpeg.org",
        }
    }
}

/// Where the helper programs are looked for.
#[derive(Clone, Copy, Debug, PartialEq, Eq, Structural)]
pub enum Strategy {
    /// On the executable search path of the process.
    SystemPath,
    /// In the directory `libs` below the working directory.
    LocalInstall,
}

/// What is looked for in order to find one program.
#[derive(Debug, PartialEq, Eq)]
pub enum Lookup {
    /// An executable of this name on the search path.
    SearchPath(String),
    /// A file at this path.
    File(String),
}

/// The mathematical value of a [`Lookup`].
pub enum LookupView {
    SearchPath(Seq<char>),
    File(Seq<char>),
}

impl View for Lookup {
    type V = LookupView;

    open spec fn view(&self) -> LookupView {
        match self {
            Lookup::SearchPath(name) => LookupView::SearchPath(name@),
            Lookup::File(path) => LookupView::File(path@),
        }
    }
}

impl Strategy {
    /// The place that is searched, as the operator is told.
    pub open spec fn place_spec(self) -> Seq<char> {
        match self {
            Strategy::SystemPath => "system PATH"@,
            Strategy::LocalInstall => "libs/"@,
        }
    }

    /// What to look for in order to find `tool`: its name on the search
    /// path, or the file of that name in `libs/`.
    pub open spec fn lookup_spec(self, tool: Tool) -> LookupView {
        match self {
            Strategy::SystemPath => LookupView::SearchPath(tool.name_spec()),
            Strategy::LocalInstall => LookupView::File("libs/"@ + tool.name_spec()),
        }
    }

    /// The place that is searched, as the operator is told.
    pub fn place(self) -> (place: &'static str)
        ensures
            place@ == self.place_spec(),
    {
        match self {
            Strategy::SystemPath => "system PATH",
            Strategy::LocalInstall => "libs/",
        }
    }

    /// What to look for in order to find `tool`.
    pub fn lookup(self, tool: Tool) -> (lookup: Lookup)
        ensures
            lookup@ == self.lookup_spec(tool),
    {
        match self {
            Strategy::SystemPath => Lookup::SearchPath(String::from_str(tool.name())),
            Strategy::LocalInstall => {
                let mut path = String::from_str("libs/");
                path.append(tool.name());
                Lookup::File(path)
            },
        }
    }
}

/// Searches the executable search path of the process for `name`.
///
/// Trusted: `which::which`. Whether a program is found depends on the
/// search path and on what is on disk, so the contract claims nothing of
/// the result. A path that is not valid Unicode comes back with the
/// replacement character in place of what is not.
#[verifier::external_body]
fn search_path(name: &str) -> (found: Option<String>) {
    match which::which(name) {
        Ok(path) => Some(path.to_string_lossy().into_owned()),
        Err(_) => None,
    }
}

/// Whether there is something at `path` on disk.
///
/// Trusted: `std::path::Path::exists`. The answer depends on what is on
/// disk, so the contract claims nothing of it.
#[verifier::external_body]
fn exists_on_disk(path: &str) -> (there: bool) {
    std::path::Path::new(path).exists()
}

/// Whether `found` can be the result of `lookup`: a file that is looked
/// for at a path is found at that path or not at all.
pub open spec fn answers(lookup: LookupView, found: Option<Seq<char>>) -> bool {
    lookup matches LookupView::File(path) ==> found is None || found == Some(path)
}

/// The binary locator: the place of the program that `lookup` describes,
/// or nothing if it is not there.
pub fn locate(lookup: &Lookup) -> (found: Option<String>)
    ensures
        answers(lookup@, text_of(found)),
{
    match lookup {
        Lookup::SearchPath(name) => search_path(name.as_str()),
        Lookup::File(path) => file_if_there(path.as_str(), exists_on_disk(path.as_str())),
    }
}

/// The place of a file that was looked for at `path`, given whether
/// something is there: `path` itself if so, otherwise nothing.
pub fn file_if_there(path: &str, there: bool) -> (found: Option<String>)
    ensures
        text_of(found) == if there {
            Some(path@)
        } else {
            None
        },
{
    if there {
        Some(String::from_str(path))
    } else {
        None
    }
}

/// One helper program together with the place where it was found.
#[derive(Debug, PartialEq, Eq)]
pub struct ToolHandle {
    /// Which of the two programs this is.
    pub tool: Tool,
    /// Where it was found.
    pub path: String,
}

/// The mathematical value of a [`ToolHandle`].
pub struct ToolHandleView {
    pub tool: Tool,
    pub path: Seq<char>,
}

impl View for ToolHandle {
    type V = ToolHandleView;

    open spec fn view(&self) -> ToolHandleView {
        ToolHandleView { tool: self.tool, path: self.path@ }
    }
}

/// Which of the two programs could not be found.
#[derive(Clone, Copy, Debug, PartialEq, Eq, Structural)]
pub enum Missing {
    /// The extractor alone.
    Extractor,
    /// The transcoder alone.
    Transcoder,
    /// The one and the other.
    Both,
}

impl Missing {
    /// Whether `tool` is among the missing.
    pub open spec fn includes(self, tool: Tool) -> bool {
        match self {
            Missing::Extractor => tool == Tool::Extractor,
            Missing::Transcoder => tool == Tool::Transcoder,
            Missing::Both => true,
        }
    }

    /// The names of the missing programs, as the operator reads them.
    pub open spec fn names_spec(self) -> Seq<char> {
        match self {
            Missing::Extractor => Tool::Extractor.name_spec(),
            Missing::Transcoder => Tool::Transcoder.name_spec(),
            Missing::Both => Tool::Extractor.name_spec() + " and "@ + Tool::Transcoder.name_spec(),
        }
    }

    /// Whether `tool` is among the missing.
    pub fn has(self, tool: Tool) -> (included: bool)
        ensures
            included == self.includes(tool),
    {
        match self {
            Missing::Extractor => tool == Tool::Extractor,
            Missing::Transcoder => tool == Tool::Transcoder,
            Missing::Both => true,
        }
    }
}

/// What is missing, given which of the two programs were found: nothing
/// when both were.
pub open spec fn missing_of(extractor_found: bool, transcoder_found: bool) -> Option<Missing> {
    if extractor_found && transcoder_found {
        None
    } else if transcoder_found {
        Some(Missing::Extractor)
    } else if extractor_found {
        Some(Missing::Transcoder)
    } else {
        Some(Missing::Both)
    }
}

/// The failure of the dependency gate: at least one program is missing.
#[derive(Clone, Copy, Debug, PartialEq, Eq, Structural)]
pub struct DependencyError {
    /// Where the programs were looked for.
    pub strategy: Strategy,
    /// Which of them were not there.
    pub missing: Missing,
}

impl DependencyError {
    /// The one-line description of the failure.
    pub open spec fn message_spec(self) -> Seq<char> {
        self.missing.names_spec() + " not found in "@ + self.strategy.place_spec()
    }

    /// The line of advice on where to get `tool`.
    pub open spec fn source_line(tool: Tool) -> Seq<char> {
        "- "@ + tool.name_spec() + " ("@ + tool.homepage_spec() + ")"@
    }

    /// The last line of the advice: where to put the programs.
    pub open spec fn closing_line(self) -> Seq<char> {
        match self.strategy {
            Strategy::SystemPath => "And make sure they're in your PATH."@,
            Strategy::LocalInstall => "And place them in libs/."@,
        }
    }

    /// The advice on how to mend the failure: a heading, one line for each
    /// missing program, and where to put them.
    pub open spec fn advice_spec(self) -> Seq<Seq<char>> {
        match self.missing {
            Missing::Extractor => seq![
                "Please install:"@,
                Self::source_line(Tool::Extractor),
                self.closing_line(),
            ],
            Missing::Transcoder => seq![
                "Please install:"@,
                Self::source_line(Tool::Transcoder),
                self.closing_line(),
            ],
            Missing::Both => seq![
                "Please install:"@,
                Self::source_line(Tool::Extractor),
                Self::source_line(Tool::Transcoder),
                self.closing_line(),
            ],
        }
    }

    /// The one-line description of the failure.
    pub fn message(&self) -> (text: String)
        ensures
            text@ == self.message_spec(),
    {
        let mut text = match self.missing {
            Missing::Extractor => String::from_str(Tool::Extractor.name()),
            Missing::Transcoder => String::from_str(Tool::Transcoder.name()),
            Missing::Both => {
                let mut names = String::from_str(Tool::Extractor.name());
                names.append(" and ");
                names.append(Tool::Transcoder.name());
                names
            },
        };
        text.append(" not found in ");
        text.append(self.strategy.place());
        text
    }

    /// The advice on how to mend the failure, line by line.
    pub fn advice(&self) -> (lines: Vec<String>)
        ensures
            lines.deep_view() == self.advice_spec(),
    {
        let mut lines: Vec<String> = Vec::new();
        lines.push(String::from_str("Please install:"));
        if self.missing.has(Tool::Extractor) {
            lines.push(source_text(Tool::Extractor));
        }
        if self.missing.has(Tool::Transcoder) {
            lines.push(source_text(Tool::Transcoder));
        }
        let closing = match self.strategy {
            Strategy::SystemPath => "And make sure they're in your PATH.",
            Strategy::LocalInstall => "And place them in libs/.",
        };
        lines.push(String::from_str(closing));
        lines
    }
}

/// Writes the line of advice on where to get `tool`.
fn source_text(tool: Tool) -> (line: String)
    ensures
        line@ == DependencyError::source_line(tool),
{
    let mut line = String::from_str("- ");
    line.append(tool.name());
    line.append(" (");
    line.append(tool.homepage());
    line.append(")");
    line
}

/// The dependency gate: both programs, each with the place where it was
/// found, or the failure that says exactly which are missing.
pub fn check_dependencies(
    strategy: Strategy,
    extractor: Option<String>,
    transcoder: Option<String>,
) -> (checked: Result<(ToolHandle, ToolHandle), DependencyError>)
    ensures
        checked is Ok <==> extractor is Some && transcoder is Some,
        checked matches Ok(tools) ==> {
            &&& tools.0.tool == Tool::Extractor
            &&& tools.0.path == extractor->0
            &&& tools.1.tool == Tool::Transcoder
            &&& tools.1.path == transcoder->0
        },
        checked matches Err(error) ==> {
            &&& error.strategy == strategy
            &&& Some(error.missing) == missing_of(extractor is Some, transcoder is Some)
        },
{
    match (extractor, transcoder) {
        (Some(extractor), Some(transcoder)) => Ok(
            (
                ToolHandle { tool: Tool::Extractor, path: extractor },
                ToolHandle { tool: Tool::Transcoder, path: transcoder },
            ),
        ),
        (None, Some(_)) => Err(DependencyError { strategy, missing: Missing::Extractor }),
        (Some(_), None) => Err(DependencyError { strategy, missing: Missing::Transcoder }),
        (None, None) => Err(DependencyError { strategy, missing: Missing::Both }),
    }
}

/// The description of a failed gate names exactly the missing programs:
/// the name of a program stands in it if and only if that program is
/// missing.
pub proof fn lemma_message_names_the_missing(error: DependencyError, tool: Tool)
    ensures
        occurs_in(tool.name_spec(), error.message_spec()) <==> error.missing.includes(tool),
{
    reveal_strlit("yt-dlp");
    reveal_strlit("ffmpeg");
    reveal_strlit(" and ");
    reveal_strlit(" not found in ");
    reveal_strlit("system PATH");
    reveal_strlit("libs/");
    let message = error.message_spec();
    let name = tool.name_spec();
    if error.missing.includes(tool) {
        let at: int = if error.missing == Missing::Both && tool == Tool::Transcoder {
            11
        } else {
            0
        };
        assert(message.subrange(at, at + name.len()) =~= name);
    } else {
        assert forall|at: int|
            0 <= at && at + name.len() <= message.len() implies #[trigger] message.subrange(
            at,
            at + name.len(),
        ) != name by {
            let part = message.subrange(at, at + name.len());
            if tool == Tool::Extractor {
                assert(forall|i: int| 0 <= i < message.len() ==> message[i] != '-');
                assert(part[2] == message[at + 2]);
                assert(name[2] == '-');
            } else {
                assert(forall|i: int| 0 <= i < message.len() ==> message[i] != 'g');
                assert(part[5] == message[at + 5]);
                assert(name[5] == 'g');
            }
        }
    }
}

} // verus!
