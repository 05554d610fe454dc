use cricket::model::{Match, MatchInfo, Team, VenueInfo};
use cricket::present::format_matches;
use cricket::select::{filter_by_series, report_matches, select_matches, LiveFilter, Report};

fn team(short: &str) -> Team {
    Team { team_id: 1, team_name: String::from(short), team_s_name: String::from(short), image_id: 2 }
}

fn a_match(id: i64, series: &str) -> Match {
    Match {
        match_info: MatchInfo {
            match_id: id,
            series_id: 2,
            series_name: String::from(series),
            match_desc: String::from("Match"),
            match_format: String::from("T20"),
            start_date: String::from("0"),
            end_date: String::from("0"),
            state: String::from("Preview"),
            status: None,
            team1: team("MI"),
            team2: team("CSK"),
            venue_info: VenueInfo {
                id: None,
                ground: String::from("Wankhede Stadium"),
                city: String::from("Mumbai"),
                timezone: String::from("+05:30"),
            },
        },
        match_score: None,
    }
}

fn five() -> Vec<Match> {
    vec![
        a_match(1, "Big Bash League 2024"),
        a_match(2, "Indian Premier League 2024"),
        a_match(3, "The Ashes"),
        a_match(4, "Womens Indian Premier League"),
        a_match(5, "Indian Premier"),
    ]
}

fn ids(matches: &[Match]) -> Vec<i64> {
    matches.iter().map(|m| m.match_info.match_id).collect()
}

#[test]
fn the_matches_of_a_series_are_kept_in_their_order() {
    let kept = filter_by_series(five(), "Indian Premier League");
    assert_eq!(ids(&kept), vec![2, 4]);
    assert_eq!(kept[0], a_match(2, "Indian Premier League 2024"));
    assert_eq!(kept[1], a_match(4, "Womens Indian Premier League"));
}

#[test]
fn the_series_is_matched_letter_for_letter() {
    assert_eq!(ids(&filter_by_series(five(), "indian premier league")), Vec::<i64>::new());
    assert_eq!(ids(&filter_by_series(five(), "Indian Premier")), vec![2, 4, 5]);
    assert_eq!(ids(&filter_by_series(five(), "")), vec![1, 2, 3, 4, 5]);
    assert_eq!(ids(&filter_by_series(five(), "League")), vec![1, 2, 4]);
    assert_eq!(ids(&filter_by_series(vec![], "League")), Vec::<i64>::new());
}

#[test]
fn matches_that_are_alike_are_all_kept() {
    let matches = vec![a_match(7, "IPL"), a_match(7, "IPL"), a_match(8, "BBL"), a_match(7, "IPL")];
    assert_eq!(ids(&filter_by_series(matches, "IPL")), vec![7, 7, 7]);
}

#[test]
fn a_choice_keeps_the_league_and_no_choice_keeps_all() {
    assert_eq!(ids(&select_matches(five(), Some(LiveFilter::Ipl))), vec![2, 4]);
    assert_eq!(ids(&select_matches(five(), None)), vec![1, 2, 3, 4, 5]);
    assert_eq!(select_matches(vec![], Some(LiveFilter::Ipl)), vec![]);
}

#[test]
fn a_listing_without_a_match_is_reported_as_a_warning() {
    let expected = Report { text: String::from("No matches found."), warning: true };
    assert_eq!(report_matches(vec![], None), expected);
    assert_eq!(report_matches(vec![], Some(LiveFilter::Ipl)), expected);
}

#[test]
fn a_listing_is_reported_as_the_table_of_the_chosen_matches() {
    let all = report_matches(five(), None);
    assert_eq!(all, Report { text: format_matches(&five()), warning: false });
    let league = report_matches(five(), Some(LiveFilter::Ipl));
    let kept = vec![five()[1].clone(), five()[3].clone()];
    assert_eq!(league, Report { text: format_matches(&kept), warning: false });
}

#[test]
fn a_choice_that_leaves_no_match_is_no_warning() {
    let matches = vec![a_match(1, "The Ashes")];
    assert_eq!(
        report_matches(matches, Some(LiveFilter::Ipl)),
        Report { text: String::from("No matches found"), warning: false }
    );
}
