//! Where a download goes: the file name, given or made from the clock, and
//! the request that is handed to the engine.

use crate::text::{
    is_digit, lemma_joined_parts, lemma_padded_digits, lemma_padded_distinct, lemma_padded_four,
    lemma_padded_two, padded, NonEmpty,
};
use vstd::prelude::*;

verus! {

/// A reading of a wall clock, to the second.
pub struct ClockReading {
    pub year: int,
    pub month: nat,
    pub day: nat,
    pub hour: nat,
    pub minute: nat,
    pub second: nat,
}

impl ClockReading {
    /// Whether the fields are in the ranges of a calendar and a clock:
    /// months from 1 to 12, days from 1 to 31, hours up to 23, minutes up
    /// to 59, and seconds up to 60, the leap second.
    pub open spec fn is_valid(self) -> bool {
        &&& 1 <= self.month <= 12
        &&& 1 <= self.day <= 31
        &&& self.hour <= 23
        &&& self.minute <= 59
        &&& self.second <= 60
    }
}

/// The validated unit of work: what to fetch, into which directory, under
/// which name. None of the three is empty.
#[derive(Debug, PartialEq, Eq)]
pub struct DownloadRequest {
    /// The address of the media.
    pub url: NonEmpty,
    /// The directory the file goes to.
    pub output_dir: NonEmpty,
    /// The name of the file.
    pub filename: NonEmpty,
}

/// The mathematical value of a [`DownloadRequest`].
pub struct DownloadRequestView {
    pub url: Seq<char>,
    pub output_dir: Seq<char>,
    pub filename: Seq<char>,
}

impl View for DownloadRequest {
    type V = DownloadRequestView;

    open spec fn view(&self) -> DownloadRequestView {
        DownloadRequestView {
            url: self.url@,
            output_dir: self.output_dir@,
            filename: self.filename@,
        }
    }
}

impl DownloadRequestView {
    /// Whether none of the three fields is empty.
    pub open spec fn is_complete(self) -> bool {
        self.url.len() > 0 && self.output_dir.len() > 0 && self.filename.len() > 0
    }
}

/// The year as it is written in a timestamp: four digits from 0 to 9999,
/// otherwise a sign and at least four digits.
pub open spec fn year_part(year: int) -> Seq<char> {
    if 0 <= year <= 9999 {
        padded(year as nat, 4)
    } else if year < 0 {
        seq!['-'] + padded((-year) as nat, 4)
    } else {
        seq!['+'] + padded(year as nat, 4)
    }
}

/// The month, day, hour, minute and second as they are written in a
/// timestamp: two digits each, with `_` between the day and the hour.
pub open spec fn time_part(at: ClockReading) -> Seq<char> {
    padded(at.month, 2) + padded(at.day, 2) + seq!['_'] + padded(at.hour, 2) + padded(
        at.minute,
        2,
    ) + padded(at.second, 2)
}

/// The timestamp of a reading: `YYYYMMDD_HHMMSS`.
pub open spec fn stamp(at: ClockReading) -> Seq<char> {
    year_part(at.year) + time_part(at)
}

/// Whether `text` is the timestamp of some reading of a clock.
pub open spec fn is_clock_stamp(text: Seq<char>) -> bool {
    exists|at: ClockReading| at.is_valid() && text == #[trigger] stamp(at)
}

/// The name a download gets when the operator gave none, made from the
/// timestamp of the moment.
pub open spec fn default_filename(stamp: Seq<char>) -> Seq<char> {
    "video_"@ + stamp + ".mp4"@
}

/// Whether `name` is `video_`, eight digits, `_`, six digits and `.mp4`.
pub open spec fn is_default_filename(name: Seq<char>) -> bool {
    &&& name.len() == 25
    &&& name.subrange(0, 6) == "video_"@
    &&& forall|i: int| 6 <= i < 14 ==> is_digit(#[trigger] name[i])
    &&& name[14] == '_'
    &&& forall|i: int| 15 <= i < 21 ==> is_digit(#[trigger] name[i])
    &&& name.subrange(21, 25) == ".mp4"@
}

/// How the timestamp is written, in the notation of `strftime`: year,
/// month, day, `_`, hour, minute, second.
pub const STAMP_PATTERN: &'static str = "%Y%m%d_%H%M%S";

/// Reads the local clock and writes the reading as `pattern` says.
///
/// Trusted: `std::time::SystemTime::now`, chrono's conversion of a
/// `SystemTime` into a `DateTime<Local>`, and `format` on what that gives.
/// For the pattern of the timestamp chrono documents the year as four
/// digits, or a sign and at least four digits outside 0 to 9999, and the
/// month, day, hour, minute and second as two digits each. The contract
/// claims that the text is the timestamp of some reading of a clock, and
/// not of which.
#[verifier::external_body]
fn local_time_text(pattern: &str) -> (text: String)
    requires
        pattern@ == STAMP_PATTERN@,
    ensures
        is_clock_stamp(text@),
{
    let now = chrono::DateTime::<chrono::Local>::from(std::time::SystemTime::now());
    now.format(pattern).to_string()
}

/// The timestamp of the moment, by the local clock.
pub fn local_stamp() -> (text: String)
    ensures
        is_clock_stamp(text@),
{
    local_time_text(STAMP_PATTERN)
}

/// The name a download gets when the operator gave none.
pub fn default_filename_text(stamp: &str) -> (name: NonEmpty)
    ensures
        name@ == default_filename(stamp@),
{
    let mut text = String::from_str("video_");
    text.append(stamp);
    text.append(".mp4");
    proof {
        reveal_strlit("video_");
    }
    NonEmpty::new(text).unwrap()
}

/// The month, day and time of a valid reading take eleven characters.
proof fn lemma_time_part_len(at: ClockReading)
    requires
        at.is_valid(),
    ensures
        time_part(at).len() == 11,
{
    lemma_padded_two(at.month);
    lemma_padded_two(at.day);
    lemma_padded_two(at.hour);
    lemma_padded_two(at.minute);
    lemma_padded_two(at.second);
}

/// Different years are written differently.
proof fn lemma_year_part_distinct(a: int, b: int)
    requires
        year_part(a) == year_part(b),
    ensures
        a == b,
{
    let size_a: nat = if a < 0 { (-a) as nat } else { a as nat };
    let size_b: nat = if b < 0 { (-b) as nat } else { b as nat };
    lemma_padded_digits(size_a, 4);
    lemma_padded_digits(size_b, 4);
    let digits_a = padded(size_a, 4);
    let digits_b = padded(size_b, 4);
    assert(is_digit(digits_a[0]));
    assert(is_digit(digits_b[0]));
    let signed_a = !(0 <= a <= 9999);
    let signed_b = !(0 <= b <= 9999);
    assert(year_part(a)[0] == if signed_a { if a < 0 { '-' } else { '+' } } else { digits_a[0] });
    assert(year_part(b)[0] == if signed_b { if b < 0 { '-' } else { '+' } } else { digits_b[0] });
    if signed_a {
        assert(year_part(a).subrange(1, year_part(a).len() as int) =~= digits_a);
        assert(year_part(b).subrange(1, year_part(b).len() as int) =~= digits_b);
    }
    lemma_padded_distinct(size_a, size_b, 4);
}

/// Whether `text` is eight digits, `_` and six digits.
pub open spec fn is_stamp(text: Seq<char>) -> bool {
    &&& text.len() == 15
    &&& forall|i: int| 0 <= i < 8 ==> is_digit(#[trigger] text[i])
    &&& text[8] == '_'
    &&& forall|i: int| 9 <= i < 15 ==> is_digit(#[trigger] text[i])
}

/// Taken at a valid reading in a year from 0 to 9999, the timestamp is
/// eight digits, `_` and six digits.
pub proof fn lemma_stamp_shape(at: ClockReading)
    requires
        at.is_valid(),
        0 <= at.year <= 9999,
    ensures
        is_stamp(stamp(at)),
{
    lemma_padded_four(at.year as nat);
    lemma_padded_digits(at.year as nat, 4);
    lemma_padded_digits(at.month, 2);
    lemma_padded_digits(at.day, 2);
    lemma_padded_digits(at.hour, 2);
    lemma_padded_digits(at.minute, 2);
    lemma_padded_digits(at.second, 2);
    lemma_padded_two(at.month);
    lemma_padded_two(at.day);
    lemma_padded_two(at.hour);
    lemma_padded_two(at.minute);
    lemma_padded_two(at.second);
    let year = padded(at.year as nat, 4);
    let month = padded(at.month, 2);
    let day = padded(at.day, 2);
    let hour = padded(at.hour, 2);
    let minute = padded(at.minute, 2);
    let second = padded(at.second, 2);
    let text = stamp(at);
    assert(text =~= year + month + day + seq!['_'] + hour + minute + second);
    assert(text.len() == 15);
    assert forall|i: int| 0 <= i < 8 implies is_digit(#[trigger] text[i]) by {
        if i < 4 {
            assert(text[i] == year[i]);
        } else if i < 6 {
            assert(text[i] == month[i - 4]);
        } else {
            assert(text[i] == day[i - 6]);
        }
    }
    assert forall|i: int| 9 <= i < 15 implies is_digit(#[trigger] text[i]) by {
        if i < 11 {
            assert(text[i] == hour[i - 9]);
        } else if i < 13 {
            assert(text[i] == minute[i - 11]);
        } else {
            assert(text[i] == second[i - 13]);
        }
    }
}

/// With the timestamp of a valid reading in a year from 0 to 9999, the
/// default name is `video_`, eight digits, `_`, six digits and `.mp4`.
pub proof fn lemma_default_filename_shape(at: ClockReading)
    requires
        at.is_valid(),
        0 <= at.year <= 9999,
    ensures
        is_default_filename(default_filename(stamp(at))),
{
    reveal_strlit("video_");
    reveal_strlit(".mp4");
    lemma_stamp_shape(at);
    let text = stamp(at);
    let name = "video_"@ + text + ".mp4"@;
    assert(name.subrange(0, 6) =~= "video_"@);
    assert(name.subrange(21, 25) =~= ".mp4"@);
    assert forall|i: int| 6 <= i < 14 implies is_digit(#[trigger] name[i]) by {
        assert(name[i] == text[i - 6]);
    }
    assert forall|i: int| 15 <= i < 21 implies is_digit(#[trigger] name[i]) by {
        assert(name[i] == text[i - 6]);
    }
    assert(name[14] == text[8]);
}

/// Valid readings that differ in the month, the day or the time are
/// written differently.
proof fn lemma_time_part_distinct(a: ClockReading, b: ClockReading)
    requires
        a.is_valid(),
        b.is_valid(),
        time_part(a) == time_part(b),
    ensures
        a.month == b.month,
        a.day == b.day,
        a.hour == b.hour,
        a.minute == b.minute,
        a.second == b.second,
{
    lemma_padded_two(a.month);
    lemma_padded_two(a.day);
    lemma_padded_two(a.hour);
    lemma_padded_two(a.minute);
    lemma_padded_two(a.second);
    lemma_padded_two(b.month);
    lemma_padded_two(b.day);
    lemma_padded_two(b.hour);
    lemma_padded_two(b.minute);
    lemma_padded_two(b.second);
    let bar = seq!['_'];
    let month_a = padded(a.month, 2);
    let month_b = padded(b.month, 2);
    let day_a = month_a + padded(a.day, 2);
    let day_b = month_b + padded(b.day, 2);
    let hour_a = day_a + bar + padded(a.hour, 2);
    let hour_b = day_b + bar + padded(b.hour, 2);
    let minute_a = hour_a + padded(a.minute, 2);
    let minute_b = hour_b + padded(b.minute, 2);
    lemma_joined_parts(minute_a, padded(a.second, 2), minute_b, padded(b.second, 2));
    lemma_joined_parts(hour_a, padded(a.minute, 2), hour_b, padded(b.minute, 2));
    lemma_joined_parts(
        day_a + bar,
        padded(a.hour, 2),
        day_b + bar,
        padded(b.hour, 2),
    );
    lemma_joined_parts(day_a, bar, day_b, bar);
    lemma_joined_parts(month_a, padded(a.day, 2), month_b, padded(b.day, 2));
    lemma_padded_distinct(a.month, b.month, 2);
    lemma_padded_distinct(a.day, b.day, 2);
    lemma_padded_distinct(a.hour, b.hour, 2);
    lemma_padded_distinct(a.minute, b.minute, 2);
    lemma_padded_distinct(a.second, b.second, 2);
}

/// Valid readings that differ have different timestamps.
pub proof fn lemma_stamp_distinct(a: ClockReading, b: ClockReading)
    requires
        a.is_valid(),
        b.is_valid(),
        stamp(a) == stamp(b),
    ensures
        a == b,
{
    lemma_time_part_len(a);
    lemma_time_part_len(b);
    let year_a = year_part(a.year);
    let year_b = year_part(b.year);
    assert(stamp(a).len() == year_a.len() + 11);
    assert(stamp(b).len() == year_b.len() + 11);
    lemma_joined_parts(year_a, time_part(a), year_b, time_part(b));
    lemma_year_part_distinct(a.year, b.year);
    lemma_time_part_distinct(a, b);
}

/// Different timestamps give different default names.
pub proof fn lemma_default_filename_distinct(stamp_a: Seq<char>, stamp_b: Seq<char>)
    requires
        stamp_a != stamp_b,
    ensures
        default_filename(stamp_a) != default_filename(stamp_b),
{
    if default_filename(stamp_a) == default_filename(stamp_b) {
        let front = "video_"@;
        let back = ".mp4"@;
        assert(default_filename(stamp_a) =~= front + (stamp_a + back));
        assert(default_filename(stamp_b) =~= front + (stamp_b + back));
        lemma_joined_parts(front, stamp_a + back, front, stamp_b + back);
        assert((stamp_a + back).len() == (stamp_b + back).len());
        lemma_joined_parts(stamp_a, back, stamp_b, back);
    }
}

/// Downloads that are named by the clock at different seconds get
/// different names: valid readings that differ, be it by one second, give
/// different default names.
pub proof fn lemma_default_filename_by_second(a: ClockReading, b: ClockReading)
    requires
        a.is_valid(),
        b.is_valid(),
        a != b,
    ensures
        default_filename(stamp(a)) != default_filename(stamp(b)),
{
    if stamp(a) == stamp(b) {
        lemma_stamp_distinct(a, b);
    }
    lemma_default_filename_distinct(stamp(a), stamp(b));
}

} // verus!
