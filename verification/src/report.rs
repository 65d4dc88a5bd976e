//! What the operator reads at the end of a run.

use crate::outcome::{DownloadOutcome, DownloadOutcomeView};
use crate::text::{decimal, decimal_text, padded, padded_text};
use vstd::prelude::*;

verus! {

/// The bytes of one mebibyte.
pub const MIB: u64 = 1_048_576;

/// The bytes of one gibibyte.
pub const GIB: u64 = 1_073_741_824;

/// `amount / unit`, rounded to the nearest whole number, and to the even
/// one of the two where it lies in the middle.
pub open spec fn rounded(amount: nat, unit: nat) -> nat {
    let whole = amount / unit;
    let rest = amount % unit;
    if 2 * rest > unit || (2 * rest == unit && whole % 2 == 1) {
        whole + 1
    } else {
        whole
    }
}

/// A number of hundredths, written with two decimal places.
pub open spec fn two_places(hundredths: nat) -> Seq<char> {
    decimal(hundredths / 100) + seq!['.'] + padded(hundredths % 100, 2)
}

/// A file size as the operator reads it: from one gibibyte on in
/// gibibytes, with the mebibytes in brackets, below that in mebibytes.
pub open spec fn shown_size(bytes: nat) -> Seq<char> {
    if bytes >= GIB {
        two_places(rounded(bytes * 100, GIB as nat)) + " GB ("@ + decimal(
            rounded(bytes, MIB as nat),
        ) + " MB)"@
    } else {
        two_places(rounded(bytes * 100, MIB as nat)) + " MB"@
    }
}

/// Divides and rounds to the nearest whole number, to the even one in the
/// middle.
fn round(amount: u128, unit: u64) -> (quotient: u64)
    requires
        unit == MIB || unit == GIB,
        amount <= 100 * u64::MAX,
    ensures
        quotient == rounded(amount as nat, unit as nat),
{
    let unit: u128 = unit as u128;
    let whole: u128 = amount / unit;
    let rest: u128 = amount % unit;
    let up = 2 * rest > unit || (2 * rest == unit && whole % 2 == 1);
    let quotient: u128 = if up { whole + 1 } else { whole };
    quotient as u64
}

/// Writes a number of hundredths with two decimal places.
fn two_places_text(hundredths: u64) -> (text: String)
    ensures
        text@ == two_places(hundredths as nat),
{
    let mut text = decimal_text(hundredths / 100);
    text.append(".");
    text.append(padded_text(hundredths % 100, 2).as_str());
    proof {
        reveal_strlit(".");
    }
    text
}

/// Writes a file size as the operator reads it.
pub fn size_text(bytes: u64) -> (text: String)
    ensures
        text@ == shown_size(bytes as nat),
{
    let scaled: u128 = bytes as u128 * 100;
    if bytes >= GIB {
        let mut text = two_places_text(round(scaled, GIB));
        text.append(" GB (");
        text.append(decimal_text(round(bytes as u128, MIB)).as_str());
        text.append(" MB)");
        text
    } else {
        let mut text = two_places_text(round(scaled, MIB));
        text.append(" MB");
        text
    }
}

/// Where a line is printed.
#[derive(Clone, Copy, Debug, PartialEq, Eq, Structural)]
pub enum Stream {
    /// The output stream.
    Output,
    /// The error stream.
    Error,
}

/// One line for the operator.
#[derive(Debug, PartialEq, Eq)]
pub struct Line {
    pub stream: Stream,
    pub text: String,
}

/// The mathematical value of a [`Line`].
pub struct LineView {
    pub stream: Stream,
    pub text: Seq<char>,
}

impl View for Line {
    type V = LineView;

    open spec fn view(&self) -> LineView {
        LineView { stream: self.stream, text: self.text@ }
    }
}

impl DeepView for Line {
    type V = LineView;

    open spec fn deep_view(&self) -> LineView {
        self@
    }
}

/// The lines `texts`, all for one stream.
pub open spec fn lines_on(stream: Stream, texts: Seq<Seq<char>>) -> Seq<LineView> {
    Seq::new(texts.len(), |i: int| LineView { stream, text: texts[i] })
}

/// The path `text` as `std` shows a path for debugging: between double
/// quotes, with the characters escaped that would not print as
/// themselves.
pub uninterp spec fn quoted(text: Seq<char>) -> Seq<char>;

/// Shows the path `text` for debugging.
///
/// Trusted: this is `std`'s `Debug` for `Path`, reached through `format!`
/// on the path that `text` spells. The contract gives its result the name
/// [`quoted`] and claims nothing of what the result holds.
#[verifier::external_body]
fn quote(text: &str) -> (shown: String)
    ensures
        shown@ == quoted(text@),
{
    format!("{:?}", std::path::Path::new(text))
}

/// The lines that report a finished download, where `shown_path` is the
/// path as the operator is to read it: that the download is there, where
/// it is, how large it is if `size` is known, and that the run is over.
pub open spec fn success_lines(shown_path: Seq<char>, size: Option<u64>) -> Seq<LineView> {
    lines_on(
        Stream::Output,
        match size {
            Some(bytes) => seq![
                "Video downloaded successfully!"@,
                "Saved to: "@ + shown_path,
                "File size: "@ + shown_size(bytes as nat),
                "Download Complete!"@,
            ],
            None => seq![
                "Video downloaded successfully!"@,
                "Saved to: "@ + shown_path,
                "Download Complete!"@,
            ],
        },
    )
}

/// The lines that report an outcome: on the output stream those of a
/// finished download, on the error stream the description of a failure.
pub open spec fn report_lines(outcome: DownloadOutcomeView) -> Seq<LineView> {
    match outcome {
        DownloadOutcomeView::Success { path, size } => success_lines(quoted(path), size),
        DownloadOutcomeView::Failure { error } => lines_on(Stream::Error, error.description()),
    }
}

/// The exit status that goes with an outcome: 0 for a finished download,
/// 1 for a failure.
pub open spec fn exit_status(outcome: DownloadOutcomeView) -> u8 {
    match outcome {
        DownloadOutcomeView::Success { .. } => 0,
        DownloadOutcomeView::Failure { .. } => 1,
    }
}

/// Turns texts into lines for one stream.
fn put_on(stream: Stream, texts: Vec<String>) -> (lines: Vec<Line>)
    ensures
        lines.deep_view() == lines_on(stream, texts.deep_view()),
{
    let mut lines: Vec<Line> = Vec::new();
    let mut texts = texts;
    let ghost all = texts.deep_view();
    let mut i: usize = 0;
    let n = texts.len();
    while i < n
        invariant
            n == texts.len(),
            i <= n,
            lines.len() == i,
            texts.len() == all.len(),
            forall|k: int| i <= k < n ==> (#[trigger] texts[k])@ == all[k],
            forall|k: int|
                0 <= k < i ==> (#[trigger] lines[k])@ == (LineView { stream, text: all[k] }),
        decreases n - i,
    {
        let mut text = String::new();
        std::mem::swap(&mut text, &mut texts[i]);
        lines.push(Line { stream, text });
        i += 1;
    }
    lines
}

/// The lines that report a finished download.
pub fn report_success(shown_path: &str, size: Option<u64>) -> (lines: Vec<Line>)
    ensures
        lines.deep_view() == success_lines(shown_path@, size),
{
    let mut texts: Vec<String> = Vec::new();
    texts.push(String::from_str("Video downloaded successfully!"));
    let mut saved = String::from_str("Saved to: ");
    saved.append(shown_path);
    texts.push(saved);
    match size {
        Some(bytes) => {
            let mut line = String::from_str("File size: ");
            line.append(size_text(bytes).as_str());
            texts.push(line);
        },
        None => {},
    }
    texts.push(String::from_str("Download Complete!"));
    let lines = put_on(Stream::Output, texts);
    lines
}

/// The result reporter: the lines that tell the operator how the run
/// ended.
pub fn report(outcome: &DownloadOutcome) -> (lines: Vec<Line>)
    ensures
        lines.deep_view() == report_lines(outcome@),
{
    match outcome {
        DownloadOutcome::Success { path, size } => {
            let shown = quote(path.as_str());
            report_success(shown.as_str(), *size)
        },
        DownloadOutcome::Failure { error } => put_on(Stream::Error, error.description()),
    }
}

/// The exit status that goes with an outcome.
pub fn exit_code(outcome: &DownloadOutcome) -> (code: u8)
    ensures
        code == exit_status(outcome@),
{
    match outcome {
        DownloadOutcome::Success { .. } => 0,
        DownloadOutcome::Failure { .. } => 1,
    }
}

} // verus!
