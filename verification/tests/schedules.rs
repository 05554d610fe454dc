use cricket::fault::{DeserializationError, Problem};
use cricket::json::parse_json;
use cricket::model::{
    MatchSchedule, ScheduleAdWrapper, ScheduleMap, ScheduleMatchInfo, ScheduleResponse, Team,
    VenueInfo,
};
use cricket::normalize::{collect_schedule, normalize_schedule, schedule_of_document};
use cricket::schedule::{
    format_schedule, header_of_schedule, local_start, row_of_schedule, seconds_of_start, stamp,
};
use cricket::table::show;

fn team(short: &str) -> Team {
    Team { team_id: 1, team_name: String::from(short), team_s_name: String::from(short), image_id: 2 }
}

fn entry(id: i64, start: &str) -> ScheduleMatchInfo {
    ScheduleMatchInfo {
        match_id: id,
        series_id: 3,
        match_desc: String::from("Final"),
        match_format: String::from("ODI"),
        start_date: String::from(start),
        end_date: String::from("0"),
        team1: team("ENG"),
        team2: team("NZ"),
        venue_info: VenueInfo {
            id: None,
            ground: String::from("Lord's"),
            city: String::from("London"),
            timezone: String::from("+01:00"),
        },
    }
}

fn entry_text(id: i64) -> String {
    format!(
        "{{\"matchId\": {}, \"seriesId\": 3, \"matchDesc\": \"Final\", \"matchFormat\": \"ODI\", \
         \"startDate\": \"1711117800000\", \"endDate\": \"1711130400000\", \"team1\": {}, \
         \"team2\": {}, \"venueInfo\": {{\"ground\": \"Lord's\", \"city\": \"London\", \
         \"timezone\": \"+01:00\"}}}}",
        id,
        "{\"teamId\": 1, \"teamName\": \"England\", \"teamSName\": \"ENG\", \"imageId\": 2}",
        "{\"teamId\": 3, \"teamName\": \"New Zealand\", \"teamSName\": \"NZ\", \"imageId\": 4}"
    )
}

fn series_text(name: &str, entries: &[String]) -> String {
    format!(
        "{{\"seriesName\": \"{}\", \"matchInfo\": [{}], \"seriesId\": 9}}",
        name,
        entries.join(", ")
    )
}

fn day_text(series: &[String]) -> String {
    format!(
        "{{\"scheduleAdWrapper\": {{\"date\": \"SAT, MAR 23 2024\", \"matchScheduleList\": [{}], \
         \"longDate\": \"1711152000000\"}}}}",
        series.join(", ")
    )
}

fn schedule_text(buckets: &[String]) -> String {
    format!("{{\"matchScheduleMap\": [{}]}}", buckets.join(", "))
}

fn named(entries: &[(ScheduleMatchInfo, String)]) -> Vec<(i64, String)> {
    entries.iter().map(|(info, name)| (info.match_id, name.clone())).collect()
}

#[test]
fn the_start_is_read_in_whole_seconds() {
    assert_eq!(seconds_of_start("1711117800000"), 1711117800);
    assert_eq!(seconds_of_start("1999"), 1);
    assert_eq!(seconds_of_start("999"), 0);
    assert_eq!(seconds_of_start("0"), 0);
    assert_eq!(seconds_of_start("-999"), 0);
    assert_eq!(seconds_of_start("-1000"), -1);
    assert_eq!(seconds_of_start("-1500"), -1);
    assert_eq!(seconds_of_start("+2500"), 2);
    assert_eq!(seconds_of_start("9223372036854775807"), 9223372036854775);
    assert_eq!(seconds_of_start("-9223372036854775808"), -9223372036854775);
}

#[test]
fn a_start_that_is_no_number_stands_for_the_epoch() {
    assert_eq!(seconds_of_start(""), 0);
    assert_eq!(seconds_of_start("tomorrow"), 0);
    assert_eq!(seconds_of_start("17111178e5"), 0);
    assert_eq!(seconds_of_start("1711117800000.0"), 0);
    assert_eq!(seconds_of_start("99999999999999999999"), 0);
}

#[test]
fn the_start_agrees_with_std() {
    for text in ["1711117800000", "-1", "-1999", "x", "", "12345", "+7000"] {
        assert_eq!(seconds_of_start(text), text.parse::<i64>().unwrap_or(0) / 1000);
    }
}

#[test]
fn a_moment_is_written_for_an_offset() {
    assert_eq!(stamp(0, 0), Some(String::from("1970-01-01 12:00 AM")));
    assert_eq!(stamp(1711117800, 0), Some(String::from("2024-03-22 02:30 PM")));
    assert_eq!(stamp(1711117800, 19800), Some(String::from("2024-03-22 08:00 PM")));
    assert_eq!(stamp(1711117800, -18000), Some(String::from("2024-03-22 09:30 AM")));
    assert_eq!(stamp(0, -3600), Some(String::from("1969-12-31 11:00 PM")));
    assert_eq!(stamp(43200, 0), Some(String::from("1970-01-01 12:00 PM")));
    assert_eq!(stamp(-1, 0), Some(String::from("1969-12-31 11:59 PM")));
}

#[test]
fn a_moment_that_has_no_date_is_written_as_the_epoch() {
    assert_eq!(stamp(i64::MAX, 0), stamp(0, 0));
    assert_eq!(stamp(i64::MIN, 3600), stamp(0, 3600));
}

#[test]
fn an_offset_of_a_day_or_more_is_refused() {
    assert_eq!(stamp(0, 86400), None);
    assert_eq!(stamp(0, -86400), None);
    assert_eq!(stamp(0, i32::MAX), None);
    assert!(stamp(0, 86399).is_some());
    assert!(stamp(0, -86399).is_some());
}

#[test]
fn the_local_start_is_the_start_in_some_offset() {
    for text in ["1711117800000", "0", "soon"] {
        let shown = local_start(text);
        let seconds = seconds_of_start(text);
        let fits = (-86399..86400).any(|offset| stamp(seconds, offset) == Some(shown.clone()));
        assert!(fits, "{:?} is {:?} in no offset", text, shown);
    }
}

#[test]
fn an_unreadable_start_is_shown_as_the_epoch_is() {
    assert_eq!(local_start("not a number"), local_start("0"));
    assert_eq!(local_start(""), local_start("0"));
    assert_eq!(
        format_schedule(&[(entry(1, "n/a"), String::from("S"))]),
        format_schedule(&[(entry(1, "0"), String::from("S"))])
    );
}

#[test]
fn a_schedule_row_holds_teams_venue_and_start() {
    assert_eq!(
        row_of_schedule(&entry(1, "0"), String::from("1970-01-01 12:00 AM")),
        vec!["ENG vs NZ", "London", "1970-01-01 12:00 AM"]
    );
    assert_eq!(header_of_schedule(), vec!["Teams", "Venue", "Schedule"]);
}

#[test]
fn no_scheduled_match_is_shown_as_words_not_as_a_table() {
    assert_eq!(format_schedule(&[]), "No matches found");
    assert_eq!(show(header_of_schedule(), vec![]), "No matches found");
}

#[test]
fn scheduled_matches_are_drawn_with_their_local_start() {
    let entries = vec![
        (entry(1, "1711117800000"), String::from("World Cup")),
        (entry(2, "whenever"), String::from("World Cup")),
    ];
    let rows: Vec<Vec<String>> = entries
        .iter()
        .map(|(info, _)| row_of_schedule(info, local_start(&info.start_date)))
        .collect();
    assert_eq!(format_schedule(&entries), show(header_of_schedule(), rows));
}

#[test]
fn a_schedule_table_has_three_columns() {
    let rows = vec![row_of_schedule(&entry(1, "0"), String::from("1970-01-01 12:00 AM"))];
    assert_eq!(
        show(header_of_schedule(), rows),
        "\n\
         ┌───────────┬────────┬─────────────────────┐\n\
         │ Teams     │ Venue  │ Schedule            │\n\
         ├───────────┼────────┼─────────────────────┤\n\
         │ ENG vs NZ │ London │ 1970-01-01 12:00 AM │\n\
         └───────────┴────────┴─────────────────────┘\n"
    );
}

#[test]
fn a_schedule_is_flattened_with_the_names_of_the_series() {
    let text = schedule_text(&[
        day_text(&[
            series_text("Ashes", &[entry_text(4), entry_text(2)]),
            series_text("Empty", &[]),
            series_text("IPL", &[entry_text(9)]),
        ]),
        String::from("{\"adDetail\": {\"name\": \"native\", \"layout\": \"x\", \"position\": 1}}"),
        String::from("{}"),
        day_text(&[series_text("Ranji", &[entry_text(1)])]),
    ]);
    let entries = normalize_schedule(&text).unwrap();
    assert_eq!(
        named(&entries),
        vec![
            (4, String::from("Ashes")),
            (2, String::from("Ashes")),
            (9, String::from("IPL")),
            (1, String::from("Ranji")),
        ]
    );
    assert_eq!(entries[0].0.team2.team_name, "New Zealand");
    assert_eq!(entries[0].0.start_date, "1711117800000");
}

#[test]
fn collect_schedule_flattens_a_typed_schedule() {
    let response = ScheduleResponse {
        match_schedule_map: vec![
            ScheduleMap { schedule_ad_wrapper: None, ad_detail: None },
            ScheduleMap {
                schedule_ad_wrapper: Some(ScheduleAdWrapper {
                    date: String::from("SUN"),
                    match_schedule_list: vec![
                        MatchSchedule {
                            series_name: String::from("One"),
                            match_info: vec![entry(3, "0"), entry(1, "0")],
                            series_id: 1,
                        },
                        MatchSchedule {
                            series_name: String::from("Two"),
                            match_info: vec![entry(2, "0")],
                            series_id: 2,
                        },
                    ],
                    long_date: String::from("0"),
                }),
                ad_detail: None,
            },
        ],
    };
    assert_eq!(
        named(&collect_schedule(response)),
        vec![(3, String::from("One")), (1, String::from("One")), (2, String::from("Two"))]
    );
    assert_eq!(collect_schedule(ScheduleResponse { match_schedule_map: vec![] }), vec![]);
}

#[test]
fn a_schedule_at_fault_fails_as_a_whole() {
    assert_eq!(
        normalize_schedule("not json"),
        Err(DeserializationError { path: vec![], problem: Problem::Syntax })
    );
    let broken = entry_text(5).replace("\"seriesId\": 3, ", "");
    let text = schedule_text(&[day_text(&[series_text("Ashes", &[entry_text(4), broken])])]);
    assert_eq!(
        normalize_schedule(&text).unwrap_err().message(),
        "matchScheduleMap[0].scheduleAdWrapper.matchScheduleList[0].matchInfo[1].seriesId: \
         missing field"
    );
    let doc = parse_json("{\"matchScheduleMap\": []}").unwrap();
    assert_eq!(schedule_of_document(&doc), Ok(vec![]));
}
