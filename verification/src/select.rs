//! Choosing among the matches of a listing, and what to say of a listing.
use crate::model::{Match, MatchView};
use crate::present::{format_matches, match_header, match_rows};
use crate::table::shown;
use crate::text::{contains_text, occurs_in};
use vstd::prelude::*;

verus! {

/// A choice among the matches of a listing.
#[derive(Debug, Clone, Copy, PartialEq, Eq)]
pub enum LiveFilter {
    /// Only the matches of the Indian Premier League.
    Ipl,
}

/// What the name of a series holds when it is one of the Indian Premier
/// League.
pub open spec fn ipl_text() -> Seq<char> {
    "Indian Premier League"@
}

/// Whether the name of the match's series holds `needle`.
pub open spec fn in_series(m: MatchView, needle: Seq<char>) -> bool {
    occurs_in(needle, m.match_info.series_name)
}

/// The matches whose series name holds `needle`, in the order in which
/// `matches` has them.
pub open spec fn matches_of_series(matches: Seq<MatchView>, needle: Seq<char>) -> Seq<
    MatchView,
>
    decreases matches.len(),
{
    if matches.len() == 0 {
        Seq::empty()
    } else if in_series(matches.last(), needle) {
        matches_of_series(matches.drop_last(), needle).push(matches.last())
    } else {
        matches_of_series(matches.drop_last(), needle)
    }
}

/// The matches that a choice leaves: all of them where there is no choice.
pub open spec fn selected(matches: Seq<MatchView>, filter: Option<LiveFilter>) -> Seq<MatchView> {
    match filter {
        Some(LiveFilter::Ipl) => matches_of_series(matches, ipl_text()),
        None => matches,
    }
}

/// Keeps the matches whose series name holds `needle`, letter for letter,
/// in their order.
pub fn filter_by_series(matches: Vec<Match>, needle: &str) -> (kept: Vec<Match>)
    ensures
        kept.deep_view() == matches_of_series(matches.deep_view(), needle@),
{
    let ghost views = matches.deep_view();
    let mut kept: Vec<Match> = Vec::new();
    assert(views.take(0) =~= Seq::empty());
    assert(kept.deep_view() =~= Seq::empty());
    for m in it: matches
        invariant
            views.len() == it.seq().len(),
            forall|k: int| 0 <= k < views.len() ==> #[trigger] views[k] == it.seq()[k].deep_view(),
            kept.deep_view() == matches_of_series(views.take(it.index() as int), needle@),
    {
        let ghost i = it.index() as int;
        let ghost before = kept.deep_view();
        assert(views[i] == m.deep_view());
        assert(views.take(i + 1).drop_last() =~= views.take(i));
        if contains_text(m.match_info.series_name.as_str(), needle) {
            let ghost view = m.deep_view();
            kept.push(m);
            assert(kept.deep_view() =~= before.push(view));
        }
    }
    assert(views.take(views.len() as int) =~= views);
    kept
}

/// Applies a choice to the matches of a listing.
pub fn select_matches(matches: Vec<Match>, filter: Option<LiveFilter>) -> (kept: Vec<Match>)
    ensures
        kept.deep_view() == selected(matches.deep_view(), filter),
{
    match filter {
        Some(LiveFilter::Ipl) => filter_by_series(matches, "Indian Premier League"),
        None => matches,
    }
}

/// What is said of a listing, and whether it is said as a warning.
#[derive(Debug, Clone, PartialEq)]
pub struct Report {
    pub text: String,
    pub warning: bool,
}

/// The model of a [`Report`].
pub struct ReportView {
    pub text: Seq<char>,
    pub warning: bool,
}

impl DeepView for Report {
    type V = ReportView;

    open spec fn deep_view(&self) -> ReportView {
        ReportView { text: self.text@, warning: self.warning }
    }
}

/// What is said of a listing: of one without a match, as a warning, that
/// no matches were found; of any other, the table of the matches that the
/// choice leaves.
pub open spec fn listing_report(matches: Seq<MatchView>, filter: Option<LiveFilter>) -> ReportView {
    if matches.len() == 0 {
        ReportView { text: "No matches found."@, warning: true }
    } else {
        ReportView {
            text: shown(match_header(), match_rows(selected(matches, filter))),
            warning: false,
        }
    }
}

/// Says what to print for the matches of a listing under a choice.
pub fn report_matches(matches: Vec<Match>, filter: Option<LiveFilter>) -> (report: Report)
    ensures
        report.deep_view() == listing_report(matches.deep_view(), filter),
{
    if matches.len() == 0 {
        Report { text: String::from_str("No matches found."), warning: true }
    } else {
        let kept = select_matches(matches, filter);
        Report { text: format_matches(kept.as_slice()), warning: false }
    }
}

} // verus!
