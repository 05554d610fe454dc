//! From a document to the flat sequence of its matches.
//!
//! A listing document groups its matches by match type and then by series;
//! a schedule document groups them by day and then by series. Flattening
//! keeps the matches in the order in which the document holds them.
use crate::decode::Record;
use crate::fault::{fault_here, outcome, Decoded, DeserializationError, Problem};
use crate::json::{parse_json, text_model, Json, JsonView};
use crate::model::{
    ApiResponse, ApiResponseView, Match, MatchScheduleView, MatchView, ScheduleMapView,
    ScheduleMatchInfo, ScheduleMatchInfoView, ScheduleResponse, ScheduleResponseView,
    SeriesMatchView, TypeMatchView,
};
use vstd::prelude::*;

verus! {

/// The matches of one entry of a type group: those of its series, none
/// where the entry holds no series.
pub open spec fn entry_matches(entry: SeriesMatchView) -> Seq<MatchView> {
    match entry.series_ad_wrapper {
        Some(series) => series.matches,
        None => Seq::empty(),
    }
}

/// The matches of a run of entries, entry after entry.
pub open spec fn entries_matches(entries: Seq<SeriesMatchView>) -> Seq<MatchView>
    decreases entries.len(),
{
    if entries.len() == 0 {
        Seq::empty()
    } else {
        entries_matches(entries.drop_last()) + entry_matches(entries.last())
    }
}

/// The matches of a run of type groups, group after group.
pub open spec fn groups_matches(groups: Seq<TypeMatchView>) -> Seq<MatchView>
    decreases groups.len(),
{
    if groups.len() == 0 {
        Seq::empty()
    } else {
        groups_matches(groups.drop_last()) + entries_matches(groups.last().series_matches)
    }
}

/// The matches of a listing, in the order of the document: type group by
/// type group, within a group series by series, within a series match by
/// match.
pub open spec fn listing_matches(response: ApiResponseView) -> Seq<MatchView> {
    groups_matches(response.type_matches)
}

/// How many matches one entry of a type group holds.
pub open spec fn entry_count(entry: SeriesMatchView) -> nat {
    match entry.series_ad_wrapper {
        Some(series) => series.matches.len(),
        None => 0,
    }
}

/// How many matches a run of entries holds.
pub open spec fn entries_count(entries: Seq<SeriesMatchView>) -> nat
    decreases entries.len(),
{
    if entries.len() == 0 {
        0
    } else {
        entries_count(entries.drop_last()) + entry_count(entries.last())
    }
}

/// How many matches a run of type groups holds.
pub open spec fn groups_count(groups: Seq<TypeMatchView>) -> nat
    decreases groups.len(),
{
    if groups.len() == 0 {
        0
    } else {
        groups_count(groups.drop_last()) + entries_count(groups.last().series_matches)
    }
}

/// How many matches a listing holds: those of all its series; an entry
/// without a series holds none.
pub open spec fn match_count(response: ApiResponseView) -> nat {
    groups_count(response.type_matches)
}

/// Whether a listing holds a match at `m` in the series of the entry at `s`
/// of the type group at `g`.
pub open spec fn holds_match(response: ApiResponseView, g: int, s: int, m: int) -> bool {
    &&& 0 <= g < response.type_matches.len()
    &&& 0 <= s < response.type_matches[g].series_matches.len()
    &&& response.type_matches[g].series_matches[s].series_ad_wrapper is Some
    &&& 0 <= m < response.type_matches[g].series_matches[s].series_ad_wrapper->Some_0.matches.len()
}

/// The match at `m` in the series of the entry at `s` of the type group at
/// `g`.
pub open spec fn match_at(response: ApiResponseView, g: int, s: int, m: int) -> MatchView {
    response.type_matches[g].series_matches[s].series_ad_wrapper->Some_0.matches[m]
}

/// Where the flattened listing has that match: behind the matches of the
/// type groups before `g`, those of the entries before `s` in that group,
/// and the `m` matches before it in its series.
pub open spec fn place(response: ApiResponseView, g: int, s: int, m: int) -> int {
    groups_matches(response.type_matches.take(g)).len() + entries_matches(
        response.type_matches[g].series_matches.take(s),
    ).len() + m
}

/// Whether the first place in a document comes before the second: an
/// earlier type group, or the same group and an earlier entry, or the same
/// entry and an earlier match.
pub open spec fn comes_before(g1: int, s1: int, m1: int, g2: int, s2: int, m2: int) -> bool {
    g1 < g2 || (g1 == g2 && (s1 < s2 || (s1 == s2 && m1 < m2)))
}

/// A run of entries holds as many matches as it counts.
pub proof fn lemma_entries_length(entries: Seq<SeriesMatchView>)
    ensures
        entries_matches(entries).len() == entries_count(entries),
    decreases entries.len(),
{
    if entries.len() > 0 {
        lemma_entries_length(entries.drop_last());
    }
}

/// A run of type groups holds as many matches as it counts.
pub proof fn lemma_groups_length(groups: Seq<TypeMatchView>)
    ensures
        groups_matches(groups).len() == groups_count(groups),
    decreases groups.len(),
{
    if groups.len() > 0 {
        lemma_groups_length(groups.drop_last());
        lemma_entries_length(groups.last().series_matches);
    }
}

/// The flattened listing has as many matches as the series of the listing
/// hold together.
pub proof fn lemma_listing_length(response: ApiResponseView)
    ensures
        listing_matches(response).len() == match_count(response),
{
    lemma_groups_length(response.type_matches);
}

/// The matches of the first `k` entries open the matches of all entries,
/// and those of the entry at `k` follow them.
pub proof fn lemma_entries_prefix(entries: Seq<SeriesMatchView>, k: int)
    requires
        0 <= k < entries.len(),
    ensures
        entries_matches(entries.take(k)) + entry_matches(entries[k]) == entries_matches(
            entries.take(k + 1),
        ),
        entries_matches(entries.take(k + 1)).is_prefix_of(entries_matches(entries)),
    decreases entries.len() - k,
{
    assert(entries.take(k + 1).drop_last() =~= entries.take(k));
    if k + 1 == entries.len() {
        assert(entries.take(k + 1) =~= entries);
    } else {
        lemma_entries_prefix(entries, k + 1);
    }
}

/// The matches of the first `k` type groups open the matches of all groups,
/// and those of the group at `k` follow them.
pub proof fn lemma_groups_prefix(groups: Seq<TypeMatchView>, k: int)
    requires
        0 <= k < groups.len(),
    ensures
        groups_matches(groups.take(k)) + entries_matches(groups[k].series_matches)
            == groups_matches(groups.take(k + 1)),
        groups_matches(groups.take(k + 1)).is_prefix_of(groups_matches(groups)),
    decreases groups.len() - k,
{
    assert(groups.take(k + 1).drop_last() =~= groups.take(k));
    if k + 1 == groups.len() {
        assert(groups.take(k + 1) =~= groups);
    } else {
        lemma_groups_prefix(groups, k + 1);
    }
}

/// Every match of a listing stands in the flattened listing, at its place.
pub proof fn lemma_listing_place(response: ApiResponseView, g: int, s: int, m: int)
    requires
        holds_match(response, g, s, m),
    ensures
        0 <= place(response, g, s, m) < listing_matches(response).len(),
        listing_matches(response)[place(response, g, s, m)] == match_at(response, g, s, m),
{
    let groups = response.type_matches;
    let entries = groups[g].series_matches;
    lemma_groups_prefix(groups, g);
    lemma_entries_prefix(entries, s);
    let upto_entry = entries_matches(entries.take(s + 1));
    let upto_group = groups_matches(groups.take(g + 1));
    let at = entries_matches(entries.take(s)).len() + m;
    assert(upto_entry[at] == match_at(response, g, s, m));
    assert(entries_matches(entries)[at] == upto_entry[at]);
    let through = groups_matches(groups.take(g)).len() + at;
    assert(upto_group[through] == entries_matches(entries)[at]);
    assert(groups_matches(groups)[through] == upto_group[through]);
}

/// The flattened listing keeps the order of the document: of two matches,
/// the one that comes first in the document stands first.
pub proof fn lemma_listing_order(
    response: ApiResponseView,
    g1: int,
    s1: int,
    m1: int,
    g2: int,
    s2: int,
    m2: int,
)
    requires
        holds_match(response, g1, s1, m1),
        holds_match(response, g2, s2, m2),
        comes_before(g1, s1, m1, g2, s2, m2),
    ensures
        place(response, g1, s1, m1) < place(response, g2, s2, m2),
{
    let groups = response.type_matches;
    let entries = groups[g1].series_matches;
    lemma_entries_prefix(entries, s1);
    if g1 < g2 {
        lemma_groups_prefix(groups, g1);
        if g1 + 1 < g2 {
            lemma_groups_prefix(groups.take(g2), g1);
            assert(groups.take(g2).take(g1 + 1) =~= groups.take(g1 + 1));
        } else {
            assert(groups.take(g2) =~= groups.take(g1 + 1));
        }
    } else if s1 < s2 {
        if s1 + 1 < s2 {
            lemma_entries_prefix(entries.take(s2), s1);
            assert(entries.take(s2).take(s1 + 1) =~= entries.take(s1 + 1));
        } else {
            assert(entries.take(s2) =~= entries.take(s1 + 1));
        }
    }
}

/// Flattens a listing into its matches.
pub fn collect_matches(response: ApiResponse) -> (matches: Vec<Match>)
    ensures
        matches.deep_view() == listing_matches(response.deep_view()),
        matches@.len() == match_count(response.deep_view()),
{
    let ghost groups = response.deep_view().type_matches;
    proof {
        lemma_listing_length(response.deep_view());
    }
    let mut matches: Vec<Match> = Vec::new();
    assert(groups.take(0) =~= Seq::empty());
    assert(matches.deep_view() =~= Seq::empty());
    for type_match in outer: response.type_matches
        invariant
            groups.len() == outer.seq().len(),
            forall|k: int|
                0 <= k < groups.len() ==> #[trigger] groups[k] == outer.seq()[k].deep_view(),
            matches.deep_view() == groups_matches(groups.take(outer.index() as int)),
    {
        let ghost g = outer.index() as int;
        let ghost entries = type_match.deep_view().series_matches;
        let ghost before = matches.deep_view();
        assert(groups[g] == type_match.deep_view());
        assert(entries.take(0) =~= Seq::empty());
        assert(before + entries_matches(entries.take(0)) =~= before);
        for series_match in inner: type_match.series_matches
            invariant
                entries.len() == inner.seq().len(),
                forall|k: int|
                    0 <= k < entries.len() ==> #[trigger] entries[k] == inner.seq()[k].deep_view(),
                matches.deep_view() == before + entries_matches(
                    entries.take(inner.index() as int),
                ),
        {
            let ghost s = inner.index() as int;
            let ghost so_far = matches.deep_view();
            assert(entries[s] == series_match.deep_view());
            assert(entries.take(s + 1).drop_last() =~= entries.take(s));
            if let Some(mut series) = series_match.series_ad_wrapper {
                let ghost added = series.matches.deep_view();
                matches.append(&mut series.matches);
                assert(matches.deep_view() =~= so_far + added);
            }
            assert(matches.deep_view() =~= before + entries_matches(entries.take(s + 1)));
        }
        assert(entries.take(entries.len() as int) =~= entries);
        assert(groups.take(g + 1).drop_last() =~= groups.take(g));
    }
    assert(groups.take(groups.len() as int) =~= groups);
    matches
}

/// What a JSON value holds of a listing, flattened: its matches, or the
/// first fault.
pub open spec fn document_matches(doc: JsonView) -> Decoded<Seq<MatchView>> {
    match ApiResponse::read(doc) {
        Ok(response) => Ok(listing_matches(response)),
        Err(fault) => Err(fault),
    }
}

/// A document that holds a listing gives the matches of the listing, as
/// many as its series hold together.
pub proof fn lemma_document_length(doc: JsonView)
    requires
        ApiResponse::read(doc) is Ok,
    ensures
        document_matches(doc) is Ok,
        document_matches(doc)->Ok_0 == listing_matches(ApiResponse::read(doc)->Ok_0),
        document_matches(doc)->Ok_0.len() == match_count(ApiResponse::read(doc)->Ok_0),
{
    lemma_listing_length(ApiResponse::read(doc)->Ok_0);
}

/// What a JSON text holds of a listing, flattened. A text that is no JSON
/// document is a fault at the root.
pub open spec fn text_matches(text: Seq<char>) -> Decoded<Seq<MatchView>> {
    match text_model(text) {
        Some(doc) => document_matches(doc),
        None => Err(fault_here(Problem::Syntax)),
    }
}

/// Reads a listing out of a JSON value and flattens it. One field that is
/// missing or holds the wrong kind of value fails the whole listing.
pub fn matches_of_document(doc: &Json) -> (r: Result<Vec<Match>, DeserializationError>)
    ensures
        outcome(r) == document_matches(doc.deep_view()),
{
    match ApiResponse::decode(doc) {
        Ok(response) => Ok(collect_matches(response)),
        Err(fault) => Err(fault),
    }
}

/// Reads a listing document and flattens it.
pub fn normalize_matches(raw_json: &str) -> (r: Result<Vec<Match>, DeserializationError>)
    ensures
        outcome(r) == text_matches(raw_json@),
{
    match parse_json(raw_json) {
        Some(doc) => matches_of_document(&doc),
        None => Err(DeserializationError::here(Problem::Syntax)),
    }
}

/// The matches of one series of a schedule, each with the series' name.
pub open spec fn series_entries(series: MatchScheduleView) -> Seq<
    (ScheduleMatchInfoView, Seq<char>),
> {
    Seq::new(series.match_info.len(), |k: int| (series.match_info[k], series.series_name))
}

/// The matches of a run of series, series after series.
pub open spec fn day_entries(list: Seq<MatchScheduleView>) -> Seq<
    (ScheduleMatchInfoView, Seq<char>),
>
    decreases list.len(),
{
    if list.len() == 0 {
        Seq::empty()
    } else {
        day_entries(list.drop_last()) + series_entries(list.last())
    }
}

/// The matches of one bucket: those of its day, none where the bucket holds
/// no day's schedule.
pub open spec fn bucket_entries(bucket: ScheduleMapView) -> Seq<
    (ScheduleMatchInfoView, Seq<char>),
> {
    match bucket.schedule_ad_wrapper {
        Some(day) => day_entries(day.match_schedule_list),
        None => Seq::empty(),
    }
}

/// The matches of a run of buckets, bucket after bucket.
pub open spec fn buckets_entries(buckets: Seq<ScheduleMapView>) -> Seq<
    (ScheduleMatchInfoView, Seq<char>),
>
    decreases buckets.len(),
{
    if buckets.len() == 0 {
        Seq::empty()
    } else {
        buckets_entries(buckets.drop_last()) + bucket_entries(buckets.last())
    }
}

/// The matches of a schedule with the names of their series, in the order
/// of the document: bucket by bucket, within a bucket series by series,
/// within a series match by match.
pub open spec fn schedule_entries(response: ScheduleResponseView) -> Seq<
    (ScheduleMatchInfoView, Seq<char>),
> {
    buckets_entries(response.match_schedule_map)
}

/// Flattens a schedule into its matches, each with the name of its series.
pub fn collect_schedule(response: ScheduleResponse) -> (entries: Vec<(ScheduleMatchInfo, String)>)
    ensures
        entries.deep_view() == schedule_entries(response.deep_view()),
{
    let ghost buckets = response.deep_view().match_schedule_map;
    let mut entries: Vec<(ScheduleMatchInfo, String)> = Vec::new();
    assert(buckets.take(0) =~= Seq::empty());
    assert(entries.deep_view() =~= Seq::empty());
    for bucket in outer: response.match_schedule_map
        invariant
            buckets.len() == outer.seq().len(),
            forall|k: int|
                0 <= k < buckets.len() ==> #[trigger] buckets[k] == outer.seq()[k].deep_view(),
            entries.deep_view() == buckets_entries(buckets.take(outer.index() as int)),
    {
        let ghost b = outer.index() as int;
        let ghost before = entries.deep_view();
        assert(buckets[b] == bucket.deep_view());
        assert(buckets.take(b + 1).drop_last() =~= buckets.take(b));
        if let Some(day) = bucket.schedule_ad_wrapper {
            let ghost list = day.deep_view().match_schedule_list;
            assert(list.take(0) =~= Seq::empty());
            assert(before + day_entries(list.take(0)) =~= before);
            for series in middle: day.match_schedule_list
                invariant
                    list.len() == middle.seq().len(),
                    forall|k: int|
                        0 <= k < list.len() ==> #[trigger] list[k] == middle.seq()[k].deep_view(),
                    entries.deep_view() == before + day_entries(
                        list.take(middle.index() as int),
                    ),
            {
                let ghost s = middle.index() as int;
                let ghost so_far = entries.deep_view();
                let ghost infos = series.deep_view().match_info;
                let ghost name = series.series_name@;
                assert(list[s] == series.deep_view());
                assert(list.take(s + 1).drop_last() =~= list.take(s));
                let series_name = series.series_name;
                for info in inner: series.match_info
                    invariant
                        series_name@ == name,
                        infos.len() == inner.seq().len(),
                        forall|k: int|
                            0 <= k < infos.len() ==> #[trigger] infos[k]
                                == inner.seq()[k].deep_view(),
                        entries.deep_view() == so_far + Seq::new(
                            inner.index() as nat,
                            |k: int| (infos[k], name),
                        ),
                {
                    let ghost m = inner.index() as int;
                    let ghost row = entries.deep_view();
                    let ghost shown = info.deep_view();
                    assert(infos[m] == shown);
                    entries.push((info, series_name.clone()));
                    assert(entries.deep_view() =~= row.push((shown, name)));
                    assert(entries.deep_view() =~= so_far + Seq::new(
                        (m + 1) as nat,
                        |k: int| (infos[k], name),
                    ));
                }
                assert(entries.deep_view() =~= so_far + series_entries(list[s]));
                assert(entries.deep_view() =~= before + day_entries(list.take(s + 1)));
            }
            assert(list.take(list.len() as int) =~= list);
        }
    }
    assert(buckets.take(buckets.len() as int) =~= buckets);
    entries
}

/// What a JSON value holds of a schedule, flattened: its matches with the
/// names of their series, or the first fault.
pub open spec fn document_schedule(doc: JsonView) -> Decoded<
    Seq<(ScheduleMatchInfoView, Seq<char>)>,
> {
    match ScheduleResponse::read(doc) {
        Ok(response) => Ok(schedule_entries(response)),
        Err(fault) => Err(fault),
    }
}

/// What a JSON text holds of a schedule, flattened. A text that is no JSON
/// document is a fault at the root.
pub open spec fn text_schedule(text: Seq<char>) -> Decoded<
    Seq<(ScheduleMatchInfoView, Seq<char>)>,
> {
    match text_model(text) {
        Some(doc) => document_schedule(doc),
        None => Err(fault_here(Problem::Syntax)),
    }
}

/// Reads a schedule out of a JSON value and flattens it.
pub fn schedule_of_document(doc: &Json) -> (r: Result<
    Vec<(ScheduleMatchInfo, String)>,
    DeserializationError,
>)
    ensures
        outcome(r) == document_schedule(doc.deep_view()),
{
    match ScheduleResponse::decode(doc) {
        Ok(response) => Ok(collect_schedule(response)),
        Err(fault) => Err(fault),
    }
}

/// Reads a schedule document and flattens it.
pub fn normalize_schedule(raw_json: &str) -> (r: Result<
    Vec<(ScheduleMatchInfo, String)>,
    DeserializationError,
>)
    ensures
        outcome(r) == text_schedule(raw_json@),
{
    match parse_json(raw_json) {
        Some(doc) => schedule_of_document(&doc),
        None => Err(DeserializationError::here(Problem::Syntax)),
    }
}

} // verus!
