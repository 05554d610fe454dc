//! Matches as rows of a table: the teams, the venue, the status and the
//! score of each.
use crate::model::{
    Innings, InningsView, Match, MatchView, Team, TeamScore, TeamScoreView, TeamView,
};
use crate::table::{no_matches_text, show, shown};
use crate::text::{integer_string, integer_text};
use vstd::prelude::*;

verus! {

/// What stands for the score of a match that has none yet.
pub open spec fn not_started_text() -> Seq<char> {
    "Match not started"@
}

/// What stands for a score in which neither team has an innings.
pub open spec fn no_score_text() -> Seq<char> {
    "No score available"@
}

/// What stands for the status of a match that has none.
pub open spec fn upcoming_text() -> Seq<char> {
    "Upcoming"@
}

/// The two teams of a row, by their short names.
pub open spec fn teams_text(team1: TeamView, team2: TeamView) -> Seq<char> {
    team1.team_s_name + " vs "@ + team2.team_s_name
}

/// One team's line of a score: the short name, the runs, the wickets and
/// the overs, as in `IND: 250/3 (45.2)`.
pub open spec fn innings_line(team: TeamView, innings: InningsView) -> Seq<char> {
    team.team_s_name + ": "@ + integer_text(innings.runs) + "/"@ + integer_text(innings.wickets)
        + " ("@ + innings.overs + ")"@
}

/// The first innings of a team's score, where both are there.
pub open spec fn first_innings(score: Option<TeamScoreView>) -> Option<InningsView> {
    match score {
        Some(score) => score.innings1,
        None => None,
    }
}

/// The score of a match as it is shown: a line for each team that has a
/// first innings, the first team's line first; or what stands for a score
/// where no team has one, or where the match has no score at all.
pub open spec fn score_text(m: MatchView) -> Seq<char> {
    match m.match_score {
        None => not_started_text(),
        Some(score) => {
            let first = first_innings(score.team1_score);
            let second = first_innings(score.team2_score);
            if first is Some && second is Some {
                innings_line(m.match_info.team1, first->Some_0) + "\n"@ + innings_line(
                    m.match_info.team2,
                    second->Some_0,
                )
            } else if first is Some {
                innings_line(m.match_info.team1, first->Some_0)
            } else if second is Some {
                innings_line(m.match_info.team2, second->Some_0)
            } else {
                no_score_text()
            }
        },
    }
}

/// The status of a match as it is shown.
pub open spec fn status_text(m: MatchView) -> Seq<char> {
    match m.match_info.status {
        Some(status) => status,
        None => upcoming_text(),
    }
}

/// The row of a match: teams, venue, status, score.
pub open spec fn match_row(m: MatchView) -> Seq<Seq<char>> {
    seq![
        teams_text(m.match_info.team1, m.match_info.team2),
        m.match_info.venue_info.city,
        status_text(m),
        score_text(m),
    ]
}

/// The header of a table of matches.
pub open spec fn match_header() -> Seq<Seq<char>> {
    seq!["Teams"@, "Venue"@, "Status"@, "Score"@]
}

/// The rows of a sequence of matches, in order.
pub open spec fn match_rows(matches: Seq<MatchView>) -> Seq<Seq<Seq<char>>> {
    Seq::new(matches.len(), |k: int| match_row(matches[k]))
}

/// Where both teams have a first innings, the score is two lines, the first
/// team's line first.
pub proof fn lemma_two_line_score(m: MatchView)
    requires
        m.match_score is Some,
        first_innings(m.match_score->Some_0.team1_score) is Some,
        first_innings(m.match_score->Some_0.team2_score) is Some,
    ensures
        score_text(m) == innings_line(
            m.match_info.team1,
            first_innings(m.match_score->Some_0.team1_score)->Some_0,
        ) + "\n"@ + innings_line(
            m.match_info.team2,
            first_innings(m.match_score->Some_0.team2_score)->Some_0,
        ),
{
}

/// A match without a score is shown as not started; one with a score in
/// which neither team has a first innings is shown as without a score; and
/// the two are told apart.
pub proof fn lemma_score_placeholders(m: MatchView)
    ensures
        m.match_score is None ==> score_text(m) == not_started_text(),
        m.match_score is Some && first_innings(m.match_score->Some_0.team1_score) is None
            && first_innings(m.match_score->Some_0.team2_score) is None ==> score_text(m)
            == no_score_text(),
        not_started_text() != no_score_text(),
{
    reveal_strlit("Match not started");
    reveal_strlit("No score available");
    assert(not_started_text().len() == 17);
    assert(no_score_text().len() == 18);
}

/// A match that has neither a status nor a score is shown with what stands
/// for each.
pub proof fn lemma_row_of_bare_match(m: MatchView)
    requires
        m.match_info.status is None,
        m.match_score is None,
    ensures
        match_row(m).len() == 4,
        match_row(m)[0] == teams_text(m.match_info.team1, m.match_info.team2),
        match_row(m)[1] == m.match_info.venue_info.city,
        match_row(m)[2] == upcoming_text(),
        match_row(m)[3] == not_started_text(),
{
}

/// Writes the two teams of a row.
pub fn teams_label(team1: &Team, team2: &Team) -> (text: String)
    ensures
        text@ == teams_text(team1.deep_view(), team2.deep_view()),
{
    let mut text = team1.team_s_name.clone();
    text.append(" vs ");
    text.append(team2.team_s_name.as_str());
    text
}

/// Writes one team's line of a score.
pub fn innings_label(team: &Team, innings: &Innings) -> (text: String)
    ensures
        text@ == innings_line(team.deep_view(), innings.deep_view()),
{
    let mut text = team.team_s_name.clone();
    text.append(": ");
    text.append(integer_string(innings.runs).as_str());
    text.append("/");
    text.append(integer_string(innings.wickets).as_str());
    text.append(" (");
    text.append(innings.overs.as_str());
    text.append(")");
    text
}

/// The first innings of a team's score, where both are there.
pub fn first_innings_of(score: &Option<TeamScore>) -> (innings: Option<&Innings>)
    ensures
        innings.deep_view() == first_innings(score.deep_view()),
{
    match score {
        Some(score) => match &score.innings1 {
            Some(innings) => Some(innings),
            None => None,
        },
        None => None,
    }
}

/// Writes the score of a match.
pub fn score_label(m: &Match) -> (text: String)
    ensures
        text@ == score_text(m.deep_view()),
{
    match &m.match_score {
        None => String::from_str("Match not started"),
        Some(score) => {
            let first = first_innings_of(&score.team1_score);
            let second = first_innings_of(&score.team2_score);
            match (first, second) {
                (Some(first), Some(second)) => {
                    let mut text = innings_label(&m.match_info.team1, first);
                    text.append("\n");
                    text.append(innings_label(&m.match_info.team2, second).as_str());
                    text
                },
                (Some(first), None) => innings_label(&m.match_info.team1, first),
                (None, Some(second)) => innings_label(&m.match_info.team2, second),
                (None, None) => String::from_str("No score available"),
            }
        },
    }
}

/// Writes the status of a match.
pub fn status_label(m: &Match) -> (text: String)
    ensures
        text@ == status_text(m.deep_view()),
{
    match &m.match_info.status {
        Some(status) => status.clone(),
        None => String::from_str("Upcoming"),
    }
}

/// Writes the row of a match.
pub fn row_of_match(m: &Match) -> (row: Vec<String>)
    ensures
        row.deep_view() == match_row(m.deep_view()),
{
    let mut row: Vec<String> = Vec::new();
    row.push(teams_label(&m.match_info.team1, &m.match_info.team2));
    row.push(m.match_info.venue_info.city.clone());
    row.push(status_label(m));
    row.push(score_label(m));
    assert(row.deep_view() =~= match_row(m.deep_view()));
    row
}

/// Writes the header of a table of matches.
pub fn header_of_matches() -> (header: Vec<String>)
    ensures
        header.deep_view() == match_header(),
{
    let mut header: Vec<String> = Vec::new();
    header.push(String::from_str("Teams"));
    header.push(String::from_str("Venue"));
    header.push(String::from_str("Status"));
    header.push(String::from_str("Score"));
    assert(header.deep_view() =~= match_header());
    header
}

/// Shows matches as a table with the columns Teams, Venue, Status and
/// Score, one row for each match, in order; or, where there is no match,
/// as the words `No matches found`.
pub fn format_matches(matches: &[Match]) -> (text: String)
    ensures
        text@ == shown(match_header(), match_rows(matches.deep_view())),
        matches@.len() == 0 ==> text@ == no_matches_text(),
{
    let ghost views = matches.deep_view();
    let mut rows: Vec<Vec<String>> = Vec::new();
    let mut i: usize = 0;
    while i < matches.len()
        invariant
            i <= matches@.len(),
            views == matches.deep_view(),
            rows@.len() == i,
            forall|k: int| 0 <= k < i ==> (#[trigger] rows@[k]).deep_view() == match_row(views[k]),
        decreases matches@.len() - i,
    {
        rows.push(row_of_match(&matches[i]));
        i += 1;
    }
    assert(rows.deep_view() =~= match_rows(views));
    show(header_of_matches(), rows)
}

} // verus!
