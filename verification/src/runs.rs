//! What holds of whole runs.
//!
//! A run is a beginning stage and the events that were reported since.
//! The lemmas here follow a run through all its stages: what must have
//! been reported before the download engine is put to work, which file
//! name the engine is given, and that a run that is over stays over.

use crate::outcome::{DownloadErrorView, PipelineErrorView};
use crate::output::{default_filename, DownloadRequestView};
use crate::pipeline::{failed, next, request_of, ActionView, EventView, InvocationView, StageView};
use crate::report::{lines_on, LineView, Stream};
use crate::text::{is_space, lemma_trimmed_is_empty, occurs_in};
use crate::tools::{lemma_message_names_the_missing, missing_of, DependencyError, Strategy, Tool};
use vstd::prelude::*;

verus! {

/// The stage that `stage` has become after `events`, in their order.
pub open spec fn run(stage: StageView, events: Seq<EventView>) -> StageView
    decreases events.len(),
{
    if events.len() == 0 {
        stage
    } else {
        next(run(stage, events.drop_last()), events.last())
    }
}

/// Whether the event says that both programs were found.
pub open spec fn both_found(event: EventView) -> bool {
    event matches EventView::ToolsLocated { extractor, transcoder } && extractor is Some
        && transcoder is Some
}

/// Whether both programs were reported found at some point of `events`,
/// and the output directory reported created at a later one.
pub open spec fn prepared(events: Seq<EventView>) -> bool {
    exists|i: int, j: int|
        0 <= i < j < events.len() && both_found(#[trigger] events[i]) && (#[trigger] events[j])
            is DirectoryCreated
}

/// The places of the two programs, where the stage holds them.
pub open spec fn places_of(stage: StageView) -> Option<(Seq<char>, Seq<char>)> {
    match stage {
        StageView::DependenciesChecked { extractor, transcoder, .. } => Some(
            (extractor.path, transcoder.path),
        ),
        StageView::AwaitingClock { extractor, transcoder, .. } => Some(
            (extractor.path, transcoder.path),
        ),
        StageView::OutputResolved { extractor, transcoder, .. } => Some(
            (extractor.path, transcoder.path),
        ),
        _ => None,
    }
}

/// The report that the two programs were found at `places`.
pub open spec fn found_at(places: (Seq<char>, Seq<char>)) -> EventView {
    EventView::ToolsLocated { extractor: Some(places.0), transcoder: Some(places.1) }
}

/// Whether the stage lies behind the creation of the directory.
spec fn past_directory(stage: StageView) -> bool {
    stage is AwaitingClock || stage is OutputResolved || stage is Fetching || stage is Measuring
}

/// What holds of a stage that a run has reached from its beginning
/// through `events`.
spec fn reached(stage: StageView, events: Seq<EventView>) -> bool {
    &&& stage is DependenciesChecked ==> exists|i: int|
        0 <= i < events.len() && both_found(#[trigger] events[i])
    &&& past_directory(stage) ==> prepared(events)
    &&& places_of(stage) matches Some(places) ==> events.contains(found_at(places))
}

/// Every stage of a run from its beginning is as `reached` says.
proof fn lemma_reached(strategy: Strategy, events: Seq<EventView>)
    ensures
        reached(run(StageView::Idle { strategy }, events), events),
    decreases events.len(),
{
    if events.len() > 0 {
        let before = events.drop_last();
        let last = events.last();
        let stage = run(StageView::Idle { strategy }, before);
        lemma_reached(strategy, before);
        assert forall|i: int| 0 <= i < before.len() implies before[i] == events[i] by {}
        assert(events[events.len() - 1] == last);
        if stage is DependenciesChecked {
            let i = choose|i: int| 0 <= i < before.len() && both_found(#[trigger] before[i]);
            assert(both_found(events[i]));
            if last is DirectoryCreated {
                assert(events[events.len() - 1] is DirectoryCreated);
                assert(prepared(events));
            }
        }
        if past_directory(stage) {
            let (i, j) = choose|i: int, j: int|
                0 <= i < j < before.len() && both_found(#[trigger] before[i]) && (
                #[trigger] before[j]) is DirectoryCreated;
            assert(both_found(events[i]) && events[j] is DirectoryCreated);
        }
        match places_of(stage) {
            Some(places) => {
                let i = choose|i: int| 0 <= i < before.len() && before[i] == found_at(places);
                assert(events[i] == found_at(places));
            },
            None => {},
        }
        if stage is Locating && both_found(last) {
            assert(both_found(events[events.len() - 1]));
            assert(last == found_at(places_of(next(stage, last))->0));
        }
    }
}

/// A run that is over stays as it is, whatever is reported: nothing is
/// tried a second time.
pub proof fn lemma_over_stays_over(stage: StageView, events: Seq<EventView>)
    requires
        stage.is_final(),
    ensures
        run(stage, events) == stage,
    decreases events.len(),
{
    if events.len() > 0 {
        lemma_over_stays_over(stage, events.drop_last());
    }
}

/// The download engine is put to work only after both programs were
/// reported found and, later, the output directory was reported created;
/// and it is set up with the very places that were reported.
pub proof fn lemma_engine_waits_for_gate(strategy: Strategy, events: Seq<EventView>)
    ensures
        run(StageView::Idle { strategy }, events).engages() ==> prepared(events),
        places_of(run(StageView::Idle { strategy }, events)) matches Some(places)
            ==> events.contains(found_at(places)),
{
    lemma_reached(strategy, events);
}

/// The output directory that the stage holds once it is created.
pub open spec fn directory_of(stage: StageView) -> Option<Seq<char>> {
    match stage {
        StageView::AwaitingClock { output_dir, .. } => Some(output_dir),
        StageView::OutputResolved { request, .. } => Some(request.output_dir),
        StageView::Fetching { request } => Some(request.output_dir),
        _ => None,
    }
}

/// Whether at some point of `events` the run from its beginning asked for
/// the creation of `directory` and was told that the directory is there.
pub open spec fn created(strategy: Strategy, events: Seq<EventView>, directory: Seq<char>) -> bool {
    exists|k: int|
        0 <= k < events.len() && events[k] is DirectoryCreated && request_of(
            run(StageView::Idle { strategy }, #[trigger] events.take(k)),
        ) == ActionView::CreateDirectory(directory)
}

/// The directory that a download goes to is created first: a run holds
/// its output directory as settled only after it asked for the creation
/// of that very directory and was told that the directory is there.
pub proof fn lemma_directory_comes_first(strategy: Strategy, events: Seq<EventView>)
    ensures
        directory_of(run(StageView::Idle { strategy }, events)) matches Some(directory) ==> created(
            strategy,
            events,
            directory,
        ),
    decreases events.len(),
{
    if events.len() > 0 {
        let before = events.drop_last();
        let earlier = run(StageView::Idle { strategy }, before);
        lemma_directory_comes_first(strategy, before);
        match directory_of(earlier) {
            Some(directory) => {
                let k = choose|k: int|
                    0 <= k < before.len() && before[k] is DirectoryCreated && request_of(
                        run(StageView::Idle { strategy }, #[trigger] before.take(k)),
                    ) == ActionView::CreateDirectory(directory);
                assert(events.take(k) =~= before.take(k));
                assert(events[k] == before[k]);
            },
            None => {
                let k = events.len() - 1;
                assert(events.take(k) =~= before);
            },
        }
    }
}

/// The request that the stage holds, if it holds one.
pub open spec fn request_in(stage: StageView) -> Option<DownloadRequestView> {
    match stage {
        StageView::OutputResolved { request, .. } => Some(request),
        StageView::Fetching { request } => Some(request),
        _ => None,
    }
}

/// Whether the stage holds no empty text where it may not.
spec fn filled(stage: StageView) -> bool {
    match stage {
        StageView::Locating { url, output_dir, filename, .. } => url.len() > 0 && output_dir.len()
            > 0 && (filename is Some ==> filename->0.len() > 0),
        StageView::DependenciesChecked { url, output_dir, filename, .. } => url.len() > 0
            && output_dir.len() > 0 && (filename is Some ==> filename->0.len() > 0),
        StageView::AwaitingClock { url, output_dir, .. } => url.len() > 0 && output_dir.len() > 0,
        StageView::OutputResolved { request, .. } => request.is_complete(),
        StageView::Fetching { request } => request.is_complete(),
        _ => true,
    }
}

/// No stage of a run from its beginning holds an empty text where it may
/// not.
proof fn lemma_filled(strategy: Strategy, events: Seq<EventView>)
    ensures
        filled(run(StageView::Idle { strategy }, events)),
    decreases events.len(),
{
    if events.len() > 0 {
        lemma_filled(strategy, events.drop_last());
        reveal_strlit("video_");
    }
}

/// The request of a run is complete: the engine is never handed an empty
/// URL, an empty directory or an empty file name.
pub proof fn lemma_requests_are_complete(strategy: Strategy, events: Seq<EventView>)
    ensures
        request_in(run(StageView::Idle { strategy }, events)) matches Some(request)
            ==> request.is_complete(),
{
    lemma_filled(strategy, events);
}

/// Whether the stage still knows that the operator named the file `name`.
spec fn keeps_name(stage: StageView, name: Seq<char>) -> bool {
    match stage {
        StageView::Idle { .. } => false,
        StageView::AwaitingUrl { given_name, .. } => given_name == Some(name),
        StageView::Locating { filename, .. } => filename == Some(name),
        StageView::DependenciesChecked { filename, .. } => filename == Some(name),
        StageView::AwaitingClock { .. } => false,
        StageView::OutputResolved { request, .. } => request.filename == name,
        StageView::Fetching { request } => request.filename == name,
        _ => true,
    }
}

/// A name that a stage knows is known at every later stage.
proof fn lemma_name_is_kept(stage: StageView, events: Seq<EventView>, name: Seq<char>)
    requires
        keeps_name(stage, name),
    ensures
        keeps_name(run(stage, events), name),
    decreases events.len(),
{
    if events.len() > 0 {
        lemma_name_is_kept(stage, events.drop_last(), name);
    }
}

/// A file name that the operator gave is the name of the request, letter
/// for letter: whatever is reported after the command line was read, the
/// engine is asked for that name and no other.
pub proof fn lemma_given_name_is_used(
    strategy: Strategy,
    invocation: InvocationView,
    events: Seq<EventView>,
)
    requires
        invocation.filename is Some,
    ensures
        request_in(
            run(next(StageView::Idle { strategy }, EventView::Invoked(invocation)), events),
        ) matches Some(request) ==> request.filename == invocation.filename->0,
{
    let begun = next(StageView::Idle { strategy }, EventView::Invoked(invocation));
    lemma_name_is_kept(begun, events, invocation.filename->0);
}

/// Whether the file of `request` has the default name for a timestamp
/// that was reported among `events`.
pub open spec fn named_by_clock(request: DownloadRequestView, events: Seq<EventView>) -> bool {
    exists|stamp: Seq<char>|
        #![trigger default_filename(stamp)]
        events.contains(EventView::ClockRead(stamp)) && request.filename == default_filename(stamp)
}

/// Whether the stage has no name for the file, or one made from a
/// timestamp among `events`.
spec fn names_by_clock(stage: StageView, events: Seq<EventView>) -> bool {
    match stage {
        StageView::Idle { .. } => false,
        StageView::AwaitingUrl { given_name, .. } => given_name is None,
        StageView::Locating { filename, .. } => filename is None,
        StageView::DependenciesChecked { filename, .. } => filename is None,
        StageView::OutputResolved { request, .. } => named_by_clock(request, events),
        StageView::Fetching { request } => named_by_clock(request, events),
        _ => true,
    }
}

/// A run without a given name has its name from a timestamp.
proof fn lemma_name_is_by_clock(stage: StageView, events: Seq<EventView>)
    requires
        names_by_clock(stage, Seq::empty()),
    ensures
        names_by_clock(run(stage, events), events),
    decreases events.len(),
{
    if events.len() > 0 {
        let before = events.drop_last();
        let earlier = run(stage, before);
        lemma_name_is_by_clock(stage, before);
        assert(events[events.len() - 1] == events.last());
        match request_in(earlier) {
            Some(request) => {
                let stamp = choose|stamp: Seq<char>|
                    #![trigger default_filename(stamp)]
                    before.contains(EventView::ClockRead(stamp)) && request.filename
                        == default_filename(stamp);
                let i = choose|i: int|
                    0 <= i < before.len() && before[i] == EventView::ClockRead(stamp);
                assert(events[i] == EventView::ClockRead(stamp));
            },
            None => {},
        }
    }
}

/// Where the operator gave no file name, the name of the request is the
/// default name for a timestamp that was reported in this run.
pub proof fn lemma_default_name_is_by_clock(
    strategy: Strategy,
    invocation: InvocationView,
    events: Seq<EventView>,
)
    requires
        invocation.filename is None,
    ensures
        request_in(
            run(next(StageView::Idle { strategy }, EventView::Invoked(invocation)), events),
        ) matches Some(request) ==> named_by_clock(request, events),
{
    let begun = next(StageView::Idle { strategy }, EventView::Invoked(invocation));
    lemma_name_is_by_clock(begun, events);
}

/// Whether `text` is empty or white space only.
pub open spec fn is_blank(text: Seq<char>) -> bool {
    forall|i: int| 0 <= i < text.len() ==> is_space(#[trigger] text[i])
}

/// What a stage asks for when the run has ended over a blank URL: the
/// operator is told so, and the program leaves with status 1.
pub open spec fn blank_url_report() -> ActionView {
    ActionView::Report {
        lines: seq![LineView { stream: Stream::Error, text: "URL cannot be empty"@ }],
        code: 1,
    }
}

/// A blank URL on the command line ends the run at once: the operator is
/// told that the URL cannot be empty, no program is looked for, and
/// nothing that is reported afterwards changes that.
pub proof fn lemma_blank_url_ends_run(
    strategy: Strategy,
    invocation: InvocationView,
    events: Seq<EventView>,
)
    requires
        invocation.download,
        invocation.url is Some,
        is_blank(invocation.url->0),
    ensures
        ({
            let end = next(StageView::Idle { strategy }, EventView::Invoked(invocation));
            &&& end.is_final()
            &&& request_of(end) == blank_url_report()
            &&& run(end, events) == end
        }),
{
    let end = next(StageView::Idle { strategy }, EventView::Invoked(invocation));
    let report = lines_on(Stream::Error, seq!["URL cannot be empty"@]);
    assert(report =~= seq![LineView { stream: Stream::Error, text: "URL cannot be empty"@ }]);
    lemma_trimmed_is_empty(invocation.url->0);
    lemma_over_stays_over(end, events);
}

/// Without a URL on the command line the operator is asked for one, and a
/// blank answer ends the run as a blank URL on the command line does.
pub proof fn lemma_blank_answer_ends_run(
    strategy: Strategy,
    invocation: InvocationView,
    line: Seq<char>,
    events: Seq<EventView>,
)
    requires
        invocation.download,
        invocation.url is None,
        is_blank(line),
    ensures
        ({
            let asked = next(StageView::Idle { strategy }, EventView::Invoked(invocation));
            let end = next(asked, EventView::UrlEntered(line));
            &&& request_of(asked) == ActionView::PromptUrl
            &&& end.is_final()
            &&& request_of(end) == blank_url_report()
            &&& run(end, events) == end
        }),
{
    let asked = next(StageView::Idle { strategy }, EventView::Invoked(invocation));
    let end = next(asked, EventView::UrlEntered(line));
    let report = lines_on(Stream::Error, seq!["URL cannot be empty"@]);
    assert(report =~= seq![LineView { stream: Stream::Error, text: "URL cannot be empty"@ }]);
    lemma_trimmed_is_empty(line);
    lemma_over_stays_over(end, events);
}

/// When the engine gives up on the fetch, the run is over: the operator
/// is told the engine's words behind `Error: `, nothing more, the program
/// leaves with status 1, and the fetch is not tried again.
pub proof fn lemma_fetch_failure_is_told(
    request: DownloadRequestView,
    message: Seq<char>,
    events: Seq<EventView>,
)
    ensures
        ({
            let end = next(StageView::Fetching { request }, EventView::FetchFailed(message));
            &&& end == failed(PipelineErrorView::Download(DownloadErrorView::FetchFailed(message)))
            &&& request_of(end) == ActionView::Report {
                lines: seq![LineView { stream: Stream::Error, text: "Error: "@ + message }],
                code: 1,
            }
            &&& run(end, events) == end
        }),
{
    let end = next(StageView::Fetching { request }, EventView::FetchFailed(message));
    let report = lines_on(Stream::Error, seq!["Error: "@ + message]);
    assert(report =~= seq![LineView { stream: Stream::Error, text: "Error: "@ + message }]);
    lemma_over_stays_over(end, events);
}

/// When a program is missing, the run is over: the failure is that of the
/// dependency check, its description names the missing programs and no
/// other, and whatever is reported afterwards, the download engine is not
/// put to work.
pub proof fn lemma_missing_tool_ends_run(
    strategy: Strategy,
    url: Seq<char>,
    output_dir: Seq<char>,
    filename: Option<Seq<char>>,
    extractor: Option<Seq<char>>,
    transcoder: Option<Seq<char>>,
    events: Seq<EventView>,
)
    requires
        extractor is None || transcoder is None,
    ensures
        ({
            let end = next(
                StageView::Locating { strategy, url, output_dir, filename },
                EventView::ToolsLocated { extractor, transcoder },
            );
            let error = DependencyError {
                strategy,
                missing: missing_of(extractor is Some, transcoder is Some)->0,
            };
            &&& end == failed(PipelineErrorView::Dependency(error))
            &&& occurs_in(Tool::Extractor.name_spec(), error.message_spec()) <==> extractor is None
            &&& occurs_in(Tool::Transcoder.name_spec(), error.message_spec()) <==> transcoder
                is None
            &&& !run(end, events).engages()
        }),
{
    let end = next(
        StageView::Locating { strategy, url, output_dir, filename },
        EventView::ToolsLocated { extractor, transcoder },
    );
    let error = DependencyError {
        strategy,
        missing: missing_of(extractor is Some, transcoder is Some)->0,
    };
    lemma_message_names_the_missing(error, Tool::Extractor);
    lemma_message_names_the_missing(error, Tool::Transcoder);
    lemma_over_stays_over(end, events);
}

/// How far a stage lies along the one way that every run takes.
pub open spec fn progress(stage: StageView) -> nat {
    match stage {
        StageView::Idle { .. } => 0,
        StageView::AwaitingUrl { .. } => 1,
        StageView::Locating { .. } => 2,
        StageView::DependenciesChecked { .. } => 3,
        StageView::AwaitingClock { .. } => 4,
        StageView::OutputResolved { .. } => 5,
        StageView::Fetching { .. } => 6,
        StageView::Measuring { .. } => 7,
        StageView::Declined => 8,
        StageView::Finished(_) => 8,
    }
}

/// A run never goes back: an event leaves the stage as it is or takes the
/// run further along its way.
pub proof fn lemma_run_goes_forward(stage: StageView, event: EventView)
    ensures
        next(stage, event) == stage || progress(next(stage, event)) > progress(stage),
{
}

} // verus!
