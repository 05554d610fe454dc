use cricket::decode::{decode_list, Record};
use cricket::fault::{DeserializationError, PathStep, Problem};
use cricket::field::{
    is_record, lookup, read_decimal, read_integer, read_optional_integer, read_optional_text,
    read_text,
};
use cricket::json::{parse_json, Json};
use cricket::model::{
    AdDetail, ApiResponse, Innings, Match, MatchInfo, MatchScore, ScheduleMap, ScheduleResponse,
    SeriesMatch, Team, TeamScore, VenueInfo,
};

fn json(text: &str) -> Json {
    parse_json(text).expect("the fixture is a JSON document")
}

fn field(name: &str) -> PathStep {
    PathStep::Field(String::from(name))
}

fn fault(path: Vec<PathStep>, problem: Problem) -> DeserializationError {
    DeserializationError { path, problem }
}

const TEAM: &str =
    "{\"teamId\": 58, \"teamName\": \"Chennai Super Kings\", \"teamSName\": \"CSK\", \"imageId\": 225641}";

const VENUE: &str =
    "{\"id\": 11, \"ground\": \"MA Chidambaram Stadium\", \"city\": \"Chennai\", \"timezone\": \"+05:30\"}";

fn info_text(extra: &str) -> String {
    format!(
        "{{\"matchId\": 101, \"seriesId\": 7607, \"seriesName\": \"Indian Premier League 2024\", \
         \"matchDesc\": \"1st Match\", \"matchFormat\": \"T20\", \"startDate\": \"1711117800000\", \
         \"endDate\": \"1711130400000\", \"state\": \"Complete\", \"team1\": {}, \"team2\": {}, \
         \"venueInfo\": {}{}}}",
        TEAM, TEAM, VENUE, extra
    )
}

#[test]
fn lookup_finds_the_first_field_of_a_name() {
    let doc = Json::Object(vec![
        (String::from("a"), Json::Integer(1)),
        (String::from("b"), Json::Integer(2)),
        (String::from("a"), Json::Integer(3)),
    ]);
    assert!(matches!(lookup(&doc, "a"), Some(Json::Integer(1))));
    assert!(matches!(lookup(&doc, "b"), Some(Json::Integer(2))));
    assert!(lookup(&doc, "c").is_none());
    assert!(lookup(&Json::Array(vec![]), "a").is_none());
    assert!(lookup(&Json::Null, "a").is_none());
}

#[test]
fn is_record_tells_records_apart() {
    assert!(is_record(&json("{}")));
    assert!(!is_record(&json("[]")));
    assert!(!is_record(&json("null")));
    assert!(!is_record(&json("\"{}\"")));
}

#[test]
fn read_integer_gives_the_number_or_the_fault() {
    let doc = json("{\"id\": 42, \"name\": \"x\", \"half\": 0.5, \"none\": null}");
    assert_eq!(read_integer(&doc, "id"), Ok(42));
    assert_eq!(read_integer(&doc, "name"), Err(fault(vec![field("name")], Problem::NotInteger)));
    assert_eq!(read_integer(&doc, "half"), Err(fault(vec![field("half")], Problem::NotInteger)));
    assert_eq!(read_integer(&doc, "none"), Err(fault(vec![field("none")], Problem::NotInteger)));
    assert_eq!(read_integer(&doc, "gone"), Err(fault(vec![field("gone")], Problem::Missing)));
}

#[test]
fn read_optional_integer_takes_absence_and_null_for_nothing() {
    let doc = json("{\"id\": 42, \"name\": \"x\", \"none\": null}");
    assert_eq!(read_optional_integer(&doc, "id"), Ok(Some(42)));
    assert_eq!(read_optional_integer(&doc, "none"), Ok(None));
    assert_eq!(read_optional_integer(&doc, "gone"), Ok(None));
    assert_eq!(
        read_optional_integer(&doc, "name"),
        Err(fault(vec![field("name")], Problem::NotInteger))
    );
}

#[test]
fn read_text_gives_the_text_or_the_fault() {
    let doc = json("{\"id\": 42, \"name\": \"x\", \"none\": null}");
    assert_eq!(read_text(&doc, "name"), Ok(String::from("x")));
    assert_eq!(read_text(&doc, "id"), Err(fault(vec![field("id")], Problem::NotText)));
    assert_eq!(read_text(&doc, "none"), Err(fault(vec![field("none")], Problem::NotText)));
    assert_eq!(read_text(&doc, "gone"), Err(fault(vec![field("gone")], Problem::Missing)));
}

#[test]
fn read_optional_text_takes_absence_and_null_for_nothing() {
    let doc = json("{\"id\": 42, \"name\": \"x\", \"none\": null}");
    assert_eq!(read_optional_text(&doc, "name"), Ok(Some(String::from("x"))));
    assert_eq!(read_optional_text(&doc, "none"), Ok(None));
    assert_eq!(read_optional_text(&doc, "gone"), Ok(None));
    assert_eq!(read_optional_text(&doc, "id"), Err(fault(vec![field("id")], Problem::NotText)));
}

#[test]
fn read_decimal_gives_the_text_of_any_number() {
    let doc = json("{\"a\": 20, \"b\": 19.4, \"c\": 20.0, \"d\": \"19.4\", \"e\": -3}");
    assert_eq!(read_decimal(&doc, "a"), Ok(String::from("20")));
    assert_eq!(read_decimal(&doc, "b"), Ok(String::from("19.4")));
    assert_eq!(read_decimal(&doc, "c"), Ok(String::from("20")));
    assert_eq!(read_decimal(&doc, "e"), Ok(String::from("-3")));
    assert_eq!(read_decimal(&doc, "d"), Err(fault(vec![field("d")], Problem::NotNumber)));
    assert_eq!(read_decimal(&doc, "f"), Err(fault(vec![field("f")], Problem::Missing)));
}

#[test]
fn read_decimal_agrees_with_the_number_shown_as_a_double() {
    let numbers: [f64; 5] = [19.4, 20.0, 0.1, 49.6, 5.0];
    for number in numbers {
        let doc = json(&format!("{{\"overs\": {:?}}}", number));
        assert_eq!(read_decimal(&doc, "overs"), Ok(format!("{}", number)));
    }
}

#[test]
fn team_is_read_from_its_four_fields() {
    let team = Team::decode(&json(TEAM)).unwrap();
    assert_eq!(
        team,
        Team {
            team_id: 58,
            team_name: String::from("Chennai Super Kings"),
            team_s_name: String::from("CSK"),
            image_id: 225641,
        }
    );
}

#[test]
fn team_passes_over_fields_it_does_not_name() {
    let text = "{\"teamId\": 1, \"teamName\": \"A\", \"teamSName\": \"a\", \"imageId\": 2, \"flag\": [1]}";
    assert_eq!(Team::decode(&json(text)).unwrap().team_id, 1);
}

#[test]
fn team_reports_the_first_field_at_fault() {
    let text = "{\"teamId\": \"58\", \"teamSName\": \"CSK\", \"imageId\": 1}";
    assert_eq!(
        Team::decode(&json(text)),
        Err(fault(vec![field("teamId")], Problem::NotInteger))
    );
    let text = "{\"teamId\": 58, \"teamSName\": 5, \"imageId\": 1}";
    assert_eq!(
        Team::decode(&json(text)),
        Err(fault(vec![field("teamName")], Problem::Missing))
    );
}

#[test]
fn a_value_that_is_no_record_is_a_fault_at_its_place() {
    assert_eq!(Team::decode(&json("[]")), Err(fault(vec![], Problem::NotRecord)));
    assert_eq!(Team::decode(&json("\"CSK\"")), Err(fault(vec![], Problem::NotRecord)));
    assert_eq!(ApiResponse::decode(&json("null")), Err(fault(vec![], Problem::NotRecord)));
}

#[test]
fn venue_may_lack_its_id() {
    let text = "{\"ground\": \"Eden Gardens\", \"city\": \"Kolkata\", \"timezone\": \"+05:30\"}";
    let venue = VenueInfo::decode(&json(text)).unwrap();
    assert_eq!(venue.id, None);
    assert_eq!(venue.city, "Kolkata");
    assert_eq!(VenueInfo::decode(&json(VENUE)).unwrap().id, Some(11));
    let text =
        "{\"id\": null, \"ground\": \"Eden Gardens\", \"city\": \"Kolkata\", \"timezone\": \"+05:30\"}";
    assert_eq!(VenueInfo::decode(&json(text)).unwrap().id, None);
}

#[test]
fn match_info_may_lack_its_status() {
    let info = MatchInfo::decode(&json(&info_text(""))).unwrap();
    assert_eq!(info.status, None);
    assert_eq!(info.match_id, 101);
    assert_eq!(info.series_name, "Indian Premier League 2024");
    assert_eq!(info.start_date, "1711117800000");
    assert_eq!(info.team1.team_s_name, "CSK");
    assert_eq!(info.venue_info.ground, "MA Chidambaram Stadium");
    let info = MatchInfo::decode(&json(&info_text(", \"status\": \"CSK won\""))).unwrap();
    assert_eq!(info.status, Some(String::from("CSK won")));
}

#[test]
fn a_fault_below_a_field_carries_the_way_to_it() {
    let text = info_text("").replace("\"imageId\": 225641", "\"imageId\": \"x\"");
    assert_eq!(
        MatchInfo::decode(&json(&text)),
        Err(fault(vec![field("team1"), field("imageId")], Problem::NotInteger))
    );
    let text = format!("{{\"matchInfo\": {}}}", info_text("").replace("\"city\": \"Chennai\", ", ""));
    assert_eq!(
        Match::decode(&json(&text)),
        Err(fault(vec![field("matchInfo"), field("venueInfo"), field("city")], Problem::Missing))
    );
}

#[test]
fn innings_needs_all_its_fields() {
    let text = "{\"inningsId\": 1, \"runs\": 176, \"wickets\": 4, \"overs\": 18.4}";
    assert_eq!(
        Innings::decode(&json(text)),
        Ok(Innings { innings_id: 1, runs: 176, wickets: 4, overs: String::from("18.4") })
    );
    let text = "{\"inningsId\": 1, \"runs\": 176, \"overs\": 18.4}";
    assert_eq!(Innings::decode(&json(text)), Err(fault(vec![field("wickets")], Problem::Missing)));
    let text = "{\"inningsId\": 1, \"runs\": 176, \"wickets\": 4, \"overs\": \"18.4\"}";
    assert_eq!(Innings::decode(&json(text)), Err(fault(vec![field("overs")], Problem::NotNumber)));
}

#[test]
fn scores_may_lack_every_part() {
    assert_eq!(TeamScore::decode(&json("{}")), Ok(TeamScore { innings1: None }));
    assert_eq!(
        MatchScore::decode(&json("{}")),
        Ok(MatchScore { team1_score: None, team2_score: None })
    );
    assert_eq!(
        MatchScore::decode(&json("{\"team1Score\": {}, \"team2Score\": null}")),
        Ok(MatchScore { team1_score: Some(TeamScore { innings1: None }), team2_score: None })
    );
    assert_eq!(
        MatchScore::decode(&json("{\"team2Score\": {\"inngs1\": 5}}")),
        Err(fault(vec![field("team2Score"), field("inngs1")], Problem::NotRecord))
    );
}

#[test]
fn a_series_entry_may_be_an_advertisement() {
    let text = "{\"adDetail\": {\"name\": \"native\", \"layout\": \"x\", \"position\": 1}}";
    assert_eq!(SeriesMatch::decode(&json(text)), Ok(SeriesMatch { series_ad_wrapper: None }));
}

#[test]
fn a_list_reports_the_place_of_the_first_item_at_fault() {
    let mut items = match json(&format!("[{}, {}, 5, \"x\"]", TEAM, TEAM)) {
        Json::Array(items) => items,
        _ => panic!("the fixture is a list"),
    };
    assert_eq!(
        decode_list::<Team>(&items),
        Err(fault(vec![PathStep::Index(2)], Problem::NotRecord))
    );
    items.truncate(2);
    assert_eq!(decode_list::<Team>(&items).map(|teams| teams.len()), Ok(2));
    assert_eq!(decode_list::<Team>(&Vec::new()), Ok(Vec::new()));
}

#[test]
fn a_listing_needs_its_list_of_type_groups() {
    assert_eq!(
        ApiResponse::decode(&json("{}")),
        Err(fault(vec![field("typeMatches")], Problem::Missing))
    );
    assert_eq!(
        ApiResponse::decode(&json("{\"typeMatches\": {}}")),
        Err(fault(vec![field("typeMatches")], Problem::NotList))
    );
    assert_eq!(
        ApiResponse::decode(&json("{\"typeMatches\": []}")),
        Ok(ApiResponse { type_matches: vec![] })
    );
}

#[test]
fn a_fault_deep_in_a_listing_carries_the_whole_way() {
    let text = format!(
        "{{\"typeMatches\": [{{\"matchType\": \"League\", \"seriesMatches\": [{{}}, \
         {{\"seriesAdWrapper\": {{\"seriesId\": 1, \"seriesName\": \"S\", \"matches\": \
         [{{\"matchInfo\": {}}}, {{\"matchInfo\": {}}}]}}}}]}}]}}",
        info_text(""),
        info_text("").replace("\"matchId\": 101", "\"matchId\": 1.5")
    );
    let found = ApiResponse::decode(&json(&text)).unwrap_err();
    assert_eq!(
        found,
        fault(
            vec![
                field("typeMatches"),
                PathStep::Index(0),
                field("seriesMatches"),
                PathStep::Index(1),
                field("seriesAdWrapper"),
                field("matches"),
                PathStep::Index(1),
                field("matchInfo"),
                field("matchId"),
            ],
            Problem::NotInteger
        )
    );
    assert_eq!(
        found.message(),
        "typeMatches[0].seriesMatches[1].seriesAdWrapper.matches[1].matchInfo.matchId: \
         expected an integer"
    );
}

#[test]
fn a_schedule_bucket_may_hold_a_day_an_advertisement_or_neither() {
    assert_eq!(
        ScheduleMap::decode(&json("{}")),
        Ok(ScheduleMap { schedule_ad_wrapper: None, ad_detail: None })
    );
    let text = "{\"adDetail\": {\"name\": \"native\", \"layout\": \"wide\", \"position\": 3}}";
    assert_eq!(
        ScheduleMap::decode(&json(text)),
        Ok(ScheduleMap {
            schedule_ad_wrapper: None,
            ad_detail: Some(AdDetail {
                name: String::from("native"),
                layout: String::from("wide"),
                position: 3,
            }),
        })
    );
    let text = "{\"scheduleAdWrapper\": {\"date\": \"SAT\", \"longDate\": \"1\"}}";
    assert_eq!(
        ScheduleMap::decode(&json(text)),
        Err(fault(vec![field("scheduleAdWrapper"), field("matchScheduleList")], Problem::Missing))
    );
}

#[test]
fn a_schedule_needs_its_list_of_buckets() {
    assert_eq!(
        ScheduleResponse::decode(&json("{\"matchScheduleMap\": 5}")),
        Err(fault(vec![field("matchScheduleMap")], Problem::NotList))
    );
    assert_eq!(
        ScheduleResponse::decode(&json("{\"matchScheduleMap\": [{}, {}]}")).map(|r| r.match_schedule_map.len()),
        Ok(2)
    );
}

#[test]
fn messages_say_the_way_and_the_problem() {
    assert_eq!(fault(vec![], Problem::Syntax).message(), "$: not a JSON document");
    assert_eq!(fault(vec![], Problem::NotRecord).message(), "$: expected a record");
    assert_eq!(fault(vec![field("a")], Problem::Missing).message(), "a: missing field");
    assert_eq!(
        fault(vec![PathStep::Index(12), field("b")], Problem::NotText).message(),
        "[12].b: expected a string"
    );
    assert_eq!(
        fault(vec![field("a"), PathStep::Index(0), PathStep::Index(3)], Problem::NotList).message(),
        "a[0][3]: expected a list"
    );
    assert_eq!(fault(vec![field("n")], Problem::NotNumber).message(), "n: expected a number");
    assert_eq!(fault(vec![field("n")], Problem::NotInteger).message(), "n: expected an integer");
}

#[test]
fn faults_are_built_from_the_place_up() {
    let here = DeserializationError::here(Problem::NotRecord);
    assert_eq!(here, fault(vec![], Problem::NotRecord));
    let inner = DeserializationError::in_field("city", Problem::Missing);
    assert_eq!(inner, fault(vec![field("city")], Problem::Missing));
    let outer = inner.under_field("venueInfo").under_index(4).under_field("matches");
    assert_eq!(
        outer,
        fault(
            vec![field("matches"), PathStep::Index(4), field("venueInfo"), field("city")],
            Problem::Missing
        )
    );
    assert_eq!(Problem::Missing.text(), "missing field");
}
