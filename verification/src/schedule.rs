//! Scheduled matches as rows of a table: the teams, the venue and the local
//! time at which each match starts.
use crate::model::{ScheduleMatchInfo, ScheduleMatchInfoView};
use crate::present::{teams_label, teams_text};
use crate::table::{no_matches_text, show, shown};
use crate::text::{integer_of_text, parse_integer};
use vstd::prelude::*;

verus! {

/// The whole seconds of a number of milliseconds, rounded towards zero.
pub open spec fn whole_seconds(millis: int) -> int {
    if millis >= 0 {
        millis / 1000
    } else {
        -((-millis) / 1000)
    }
}

/// The start of a match in seconds since the epoch: the start date is read
/// as a number of milliseconds; a start date that is no such number stands
/// for the epoch itself.
pub open spec fn start_seconds(start_date: Seq<char>) -> int {
    match integer_of_text(start_date) {
        Some(millis) => whole_seconds(millis as int),
        None => 0,
    }
}

/// Reads the start of a match, in seconds since the epoch.
pub fn seconds_of_start(start_date: &str) -> (seconds: i64)
    ensures
        seconds == start_seconds(start_date@),
        integer_of_text(start_date@) is None ==> seconds == 0,
{
    match parse_integer(start_date) {
        Some(millis) => millis / 1000,
        None => 0,
    }
}

/// Whether `offset` can be the difference of a local time from UTC, in
/// seconds: less than a day either way.
pub open spec fn is_offset(offset: int) -> bool {
    -86400 < offset < 86400
}

/// The moment `seconds` after the epoch, as `chrono` writes it for a time
/// zone that is `offset` seconds ahead of UTC, in the form
/// `2024-03-22 07:30 PM`. Seconds that `chrono` has no date for are
/// written as the epoch is.
pub uninterp spec fn stamp_text(seconds: int, offset: int) -> Seq<char>;

/// How many seconds the machine's local time is ahead of UTC at the moment
/// `seconds` after the epoch (at the epoch, where `chrono` has no date for
/// the moment): `DateTime::from_timestamp`, `with_timezone(&Local)`,
/// `offset` and `FixedOffset::local_minus_utc`. It depends on the time zone
/// that the machine is set to; a `FixedOffset` is always less than a day.
#[verifier::external_body]
fn local_offset(seconds: i64) -> (offset: i32)
    ensures
        is_offset(offset as int),
{
    chrono::DateTime::from_timestamp(seconds, 0)
        .unwrap_or_default()
        .with_timezone(&chrono::Local)
        .offset()
        .local_minus_utc()
}

/// Writes a moment for a time zone of the given offset:
/// `DateTime::from_timestamp` (the epoch, where it has no date),
/// `with_timezone` for `FixedOffset::east_opt(offset)`, and `format` with
/// `%Y-%m-%d %I:%M %p`. The text depends on the two numbers alone.
#[verifier::external_body]
fn stamp_at(seconds: i64, offset: i32) -> (text: String)
    requires
        is_offset(offset as int),
    ensures
        text@ == stamp_text(seconds as int, offset as int),
{
    let zone = chrono::FixedOffset::east_opt(offset).unwrap();
    chrono::DateTime::from_timestamp(seconds, 0)
        .unwrap_or_default()
        .with_timezone(&zone)
        .format("%Y-%m-%d %I:%M %p")
        .to_string()
}

/// Writes a moment for a time zone of the given offset; `None` where the
/// offset is a day or more.
pub fn stamp(seconds: i64, offset: i32) -> (text: Option<String>)
    ensures
        match text {
            Some(text) => is_offset(offset as int) && text@ == stamp_text(
                seconds as int,
                offset as int,
            ),
            None => !is_offset(offset as int),
        },
{
    if -86400 < offset && offset < 86400 {
        Some(stamp_at(seconds, offset))
    } else {
        None
    }
}

/// Writes the start of a match in the machine's local time. Whatever the
/// machine's time zone, the text is that of the start in some offset.
pub fn local_start(start_date: &str) -> (text: String)
    ensures
        exists|offset: int|
            is_offset(offset) && text@ == #[trigger] stamp_text(start_seconds(start_date@), offset),
{
    let seconds = seconds_of_start(start_date);
    let offset = local_offset(seconds);
    let text = stamp_at(seconds, offset);
    assert(is_offset(offset as int) && text@ == stamp_text(
        start_seconds(start_date@),
        offset as int,
    ));
    text
}

/// The row of a scheduled match: teams, venue, and the text `stamp` for the
/// time at which it starts.
pub open spec fn schedule_row(info: ScheduleMatchInfoView, stamp: Seq<char>) -> Seq<Seq<char>> {
    seq![teams_text(info.team1, info.team2), info.venue_info.city, stamp]
}

/// The header of a table of scheduled matches.
pub open spec fn schedule_header() -> Seq<Seq<char>> {
    seq!["Teams"@, "Venue"@, "Schedule"@]
}

/// The rows of scheduled matches, in order, where the match at `k` is
/// shown in a time zone `offsets[k]` seconds ahead of UTC.
pub open spec fn schedule_rows(
    matches: Seq<(ScheduleMatchInfoView, Seq<char>)>,
    offsets: Seq<int>,
) -> Seq<Seq<Seq<char>>> {
    Seq::new(
        matches.len(),
        |k: int|
            schedule_row(
                matches[k].0,
                stamp_text(start_seconds(matches[k].0.start_date), offsets[k]),
            ),
    )
}

/// Whether `offsets` holds one offset for each of `count` matches.
pub open spec fn are_offsets(offsets: Seq<int>, count: nat) -> bool {
    &&& offsets.len() == count
    &&& forall|k: int| 0 <= k < offsets.len() ==> is_offset(#[trigger] offsets[k])
}

/// A match whose start date is no number of milliseconds is shown as one
/// that starts at the epoch.
pub proof fn lemma_unreadable_start(
    matches: Seq<(ScheduleMatchInfoView, Seq<char>)>,
    offsets: Seq<int>,
    k: int,
)
    requires
        0 <= k < matches.len(),
        integer_of_text(matches[k].0.start_date) is None,
    ensures
        schedule_rows(matches, offsets)[k] == schedule_row(
            matches[k].0,
            stamp_text(0, offsets[k]),
        ),
{
}

/// Writes the row of a scheduled match, given the text for its start.
pub fn row_of_schedule(info: &ScheduleMatchInfo, stamp: String) -> (row: Vec<String>)
    ensures
        row.deep_view() == schedule_row(info.deep_view(), stamp@),
{
    let mut row: Vec<String> = Vec::new();
    row.push(teams_label(&info.team1, &info.team2));
    row.push(info.venue_info.city.clone());
    row.push(stamp);
    assert(row.deep_view() =~= schedule_row(info.deep_view(), stamp@));
    row
}

/// Writes the header of a table of scheduled matches.
pub fn header_of_schedule() -> (header: Vec<String>)
    ensures
        header.deep_view() == schedule_header(),
{
    let mut header: Vec<String> = Vec::new();
    header.push(String::from_str("Teams"));
    header.push(String::from_str("Venue"));
    header.push(String::from_str("Schedule"));
    assert(header.deep_view() =~= schedule_header());
    header
}

/// Shows scheduled matches as a table with the columns Teams, Venue and
/// Schedule, one row for each match, in order; or, where there is no match,
/// as the words `No matches found`. The Schedule of a match is its start in
/// the machine's local time; a start date that is no number of
/// milliseconds is shown as the epoch. The series names are not shown.
pub fn format_schedule(matches: &[(ScheduleMatchInfo, String)]) -> (text: String)
    ensures
        exists|offsets: Seq<int>|
            are_offsets(offsets, matches@.len()) && text@ == shown(
                schedule_header(),
                #[trigger] schedule_rows(matches.deep_view(), offsets),
            ),
        matches@.len() == 0 ==> text@ == no_matches_text(),
{
    let ghost views = matches.deep_view();
    let ghost mut offsets: Seq<int> = Seq::empty();
    let mut rows: Vec<Vec<String>> = Vec::new();
    let mut i: usize = 0;
    while i < matches.len()
        invariant
            i <= matches@.len(),
            views == matches.deep_view(),
            rows@.len() == i,
            are_offsets(offsets, i as nat),
            forall|k: int|
                0 <= k < i ==> (#[trigger] rows@[k]).deep_view() == schedule_row(
                    views[k].0,
                    stamp_text(start_seconds(views[k].0.start_date), offsets[k]),
                ),
        decreases matches@.len() - i,
    {
        let info = &matches[i].0;
        let seconds = seconds_of_start(info.start_date.as_str());
        let offset = local_offset(seconds);
        let text = stamp_at(seconds, offset);
        proof {
            assert(views[i as int].0 == info.deep_view());
            offsets = offsets.push(offset as int);
        }
        rows.push(row_of_schedule(info, text));
        i += 1;
    }
    assert(rows.deep_view() =~= schedule_rows(views, offsets));
    show(header_of_schedule(), rows)
}

} // verus!
