//! The records of the feed, as the documents hold them: for each record,
//! the names of its fields in a document, and which of them may be absent.
//! A field that a record does not name is passed over.
use crate::decode::{
    decode_field, decode_list_field, decode_optional_field, list_field, not_a_record,
    optional_record_field, record_field, Record,
};
use crate::fault::{Decoded, DeserializationError, Problem};
use crate::field::{
    decimal_field, integer_field, is_record, optional_integer_field, optional_text_field,
    read_decimal, read_integer, read_optional_integer, read_optional_text, read_text, text_field,
};
use crate::field::member;
use crate::json::{Json, JsonView};
use crate::model::{
    AdDetail, AdDetailView, ApiResponse, ApiResponseView, Innings, InningsView, Match, MatchInfo,
    MatchInfoView, MatchSchedule, MatchScheduleView, MatchScore, MatchScoreView, MatchView,
    ScheduleAdWrapper, ScheduleAdWrapperView, ScheduleMap, ScheduleMapView, ScheduleMatchInfo,
    ScheduleMatchInfoView, ScheduleResponse, ScheduleResponseView, SeriesAdWrapper,
    SeriesAdWrapperView, SeriesMatch, SeriesMatchView, Team, TeamScore, TeamScoreView, TeamView,
    TypeMatch, TypeMatchView, VenueInfo, VenueInfoView,
};
use crate::present::{match_row, not_started_text, upcoming_text};
use vstd::prelude::*;

verus! {

/// A team: all four fields are needed.
impl Record for Team {
    open spec fn read(doc: JsonView) -> Decoded<TeamView> {
        let team_id = integer_field(doc, "teamId"@);
        let team_name = text_field(doc, "teamName"@);
        let team_s_name = text_field(doc, "teamSName"@);
        let image_id = integer_field(doc, "imageId"@);
        if !(doc is Object) {
            not_a_record()
        } else if team_id is Err {
            Err(team_id->Err_0)
        } else if team_name is Err {
            Err(team_name->Err_0)
        } else if team_s_name is Err {
            Err(team_s_name->Err_0)
        } else if image_id is Err {
            Err(image_id->Err_0)
        } else {
            Ok(
                TeamView {
                    team_id: team_id->Ok_0,
                    team_name: team_name->Ok_0,
                    team_s_name: team_s_name->Ok_0,
                    image_id: image_id->Ok_0,
                },
            )
        }
    }

    fn decode(doc: &Json) -> (r: Result<Team, DeserializationError>) {
        if !is_record(doc) {
            return Err(DeserializationError::here(Problem::NotRecord));
        }
        let team_id = read_integer(doc, "teamId")?;
        let team_name = read_text(doc, "teamName")?;
        let team_s_name = read_text(doc, "teamSName")?;
        let image_id = read_integer(doc, "imageId")?;
        Ok(Team { team_id, team_name, team_s_name, image_id })
    }
}

/// A venue: the id may be absent, the rest is needed.
impl Record for VenueInfo {
    open spec fn read(doc: JsonView) -> Decoded<VenueInfoView> {
        let id = optional_integer_field(doc, "id"@);
        let ground = text_field(doc, "ground"@);
        let city = text_field(doc, "city"@);
        let timezone = text_field(doc, "timezone"@);
        if !(doc is Object) {
            not_a_record()
        } else if id is Err {
            Err(id->Err_0)
        } else if ground is Err {
            Err(ground->Err_0)
        } else if city is Err {
            Err(city->Err_0)
        } else if timezone is Err {
            Err(timezone->Err_0)
        } else {
            Ok(
                VenueInfoView {
                    id: id->Ok_0,
                    ground: ground->Ok_0,
                    city: city->Ok_0,
                    timezone: timezone->Ok_0,
                },
            )
        }
    }

    fn decode(doc: &Json) -> (r: Result<VenueInfo, DeserializationError>) {
        if !is_record(doc) {
            return Err(DeserializationError::here(Problem::NotRecord));
        }
        let id = read_optional_integer(doc, "id")?;
        let ground = read_text(doc, "ground")?;
        let city = read_text(doc, "city")?;
        let timezone = read_text(doc, "timezone")?;
        Ok(VenueInfo { id, ground, city, timezone })
    }
}

/// The description of a match: the status may be absent, the rest is
/// needed.
impl Record for MatchInfo {
    open spec fn read(doc: JsonView) -> Decoded<MatchInfoView> {
        let match_id = integer_field(doc, "matchId"@);
        let series_id = integer_field(doc, "seriesId"@);
        let series_name = text_field(doc, "seriesName"@);
        let match_desc = text_field(doc, "matchDesc"@);
        let match_format = text_field(doc, "matchFormat"@);
        let start_date = text_field(doc, "startDate"@);
        let end_date = text_field(doc, "endDate"@);
        let state = text_field(doc, "state"@);
        let status = optional_text_field(doc, "status"@);
        let team1 = record_field::<Team>(doc, "team1"@);
        let team2 = record_field::<Team>(doc, "team2"@);
        let venue_info = record_field::<VenueInfo>(doc, "venueInfo"@);
        if !(doc is Object) {
            not_a_record()
        } else if match_id is Err {
            Err(match_id->Err_0)
        } else if series_id is Err {
            Err(series_id->Err_0)
        } else if series_name is Err {
            Err(series_name->Err_0)
        } else if match_desc is Err {
            Err(match_desc->Err_0)
        } else if match_format is Err {
            Err(match_format->Err_0)
        } else if start_date is Err {
            Err(start_date->Err_0)
        } else if end_date is Err {
            Err(end_date->Err_0)
        } else if state is Err {
            Err(state->Err_0)
        } else if status is Err {
            Err(status->Err_0)
        } else if team1 is Err {
            Err(team1->Err_0)
        } else if team2 is Err {
            Err(team2->Err_0)
        } else if venue_info is Err {
            Err(venue_info->Err_0)
        } else {
            Ok(
                MatchInfoView {
                    match_id: match_id->Ok_0,
                    series_id: series_id->Ok_0,
                    series_name: series_name->Ok_0,
                    match_desc: match_desc->Ok_0,
                    match_format: match_format->Ok_0,
                    start_date: start_date->Ok_0,
                    end_date: end_date->Ok_0,
                    state: state->Ok_0,
                    status: status->Ok_0,
                    team1: team1->Ok_0,
                    team2: team2->Ok_0,
                    venue_info: venue_info->Ok_0,
                },
            )
        }
    }

    fn decode(doc: &Json) -> (r: Result<MatchInfo, DeserializationError>) {
        if !is_record(doc) {
            return Err(DeserializationError::here(Problem::NotRecord));
        }
        let match_id = read_integer(doc, "matchId")?;
        let series_id = read_integer(doc, "seriesId")?;
        let series_name = read_text(doc, "seriesName")?;
        let match_desc = read_text(doc, "matchDesc")?;
        let match_format = read_text(doc, "matchFormat")?;
        let start_date = read_text(doc, "startDate")?;
        let end_date = read_text(doc, "endDate")?;
        let state = read_text(doc, "state")?;
        let status = read_optional_text(doc, "status")?;
        let team1 = decode_field::<Team>(doc, "team1")?;
        let team2 = decode_field::<Team>(doc, "team2")?;
        let venue_info = decode_field::<VenueInfo>(doc, "venueInfo")?;
        Ok(
            MatchInfo {
                match_id,
                series_id,
                series_name,
                match_desc,
                match_format,
                start_date,
                end_date,
                state,
                status,
                team1,
                team2,
                venue_info,
            },
        )
    }
}

/// An innings: all four fields are needed; the overs are any number.
impl Record for Innings {
    open spec fn read(doc: JsonView) -> Decoded<InningsView> {
        let innings_id = integer_field(doc, "inningsId"@);
        let runs = integer_field(doc, "runs"@);
        let wickets = integer_field(doc, "wickets"@);
        let overs = decimal_field(doc, "overs"@);
        if !(doc is Object) {
            not_a_record()
        } else if innings_id is Err {
            Err(innings_id->Err_0)
        } else if runs is Err {
            Err(runs->Err_0)
        } else if wickets is Err {
            Err(wickets->Err_0)
        } else if overs is Err {
            Err(overs->Err_0)
        } else {
            Ok(
                InningsView {
                    innings_id: innings_id->Ok_0,
                    runs: runs->Ok_0,
                    wickets: wickets->Ok_0,
                    overs: overs->Ok_0,
                },
            )
        }
    }

    fn decode(doc: &Json) -> (r: Result<Innings, DeserializationError>) {
        if !is_record(doc) {
            return Err(DeserializationError::here(Problem::NotRecord));
        }
        let innings_id = read_integer(doc, "inningsId")?;
        let runs = read_integer(doc, "runs")?;
        let wickets = read_integer(doc, "wickets")?;
        let overs = read_decimal(doc, "overs")?;
        Ok(Innings { innings_id, runs, wickets, overs })
    }
}

/// A team's score: the first innings may be absent.
impl Record for TeamScore {
    open spec fn read(doc: JsonView) -> Decoded<TeamScoreView> {
        let innings1 = optional_record_field::<Innings>(doc, "inngs1"@);
        if !(doc is Object) {
            not_a_record()
        } else if innings1 is Err {
            Err(innings1->Err_0)
        } else {
            Ok(TeamScoreView { innings1: innings1->Ok_0 })
        }
    }

    fn decode(doc: &Json) -> (r: Result<TeamScore, DeserializationError>) {
        if !is_record(doc) {
            return Err(DeserializationError::here(Problem::NotRecord));
        }
        let innings1 = decode_optional_field::<Innings>(doc, "inngs1")?;
        Ok(TeamScore { innings1 })
    }
}

/// A match's score: either team's score may be absent.
impl Record for MatchScore {
    open spec fn read(doc: JsonView) -> Decoded<MatchScoreView> {
        let team1_score = optional_record_field::<TeamScore>(doc, "team1Score"@);
        let team2_score = optional_record_field::<TeamScore>(doc, "team2Score"@);
        if !(doc is Object) {
            not_a_record()
        } else if team1_score is Err {
            Err(team1_score->Err_0)
        } else if team2_score is Err {
            Err(team2_score->Err_0)
        } else {
            Ok(
                MatchScoreView {
                    team1_score: team1_score->Ok_0,
                    team2_score: team2_score->Ok_0,
                },
            )
        }
    }

    fn decode(doc: &Json) -> (r: Result<MatchScore, DeserializationError>) {
        if !is_record(doc) {
            return Err(DeserializationError::here(Problem::NotRecord));
        }
        let team1_score = decode_optional_field::<TeamScore>(doc, "team1Score")?;
        let team2_score = decode_optional_field::<TeamScore>(doc, "team2Score")?;
        Ok(MatchScore { team1_score, team2_score })
    }
}

/// A match: the description is needed, the score may be absent.
impl Record for Match {
    open spec fn read(doc: JsonView) -> Decoded<MatchView> {
        let match_info = record_field::<MatchInfo>(doc, "matchInfo"@);
        let match_score = optional_record_field::<MatchScore>(doc, "matchScore"@);
        if !(doc is Object) {
            not_a_record()
        } else if match_info is Err {
            Err(match_info->Err_0)
        } else if match_score is Err {
            Err(match_score->Err_0)
        } else {
            Ok(
                MatchView {
                    match_info: match_info->Ok_0,
                    match_score: match_score->Ok_0,
                },
            )
        }
    }

    fn decode(doc: &Json) -> (r: Result<Match, DeserializationError>) {
        if !is_record(doc) {
            return Err(DeserializationError::here(Problem::NotRecord));
        }
        let match_info = decode_field::<MatchInfo>(doc, "matchInfo")?;
        let match_score = decode_optional_field::<MatchScore>(doc, "matchScore")?;
        Ok(Match { match_info, match_score })
    }
}

/// A series with its matches: all three fields are needed.
impl Record for SeriesAdWrapper {
    open spec fn read(doc: JsonView) -> Decoded<SeriesAdWrapperView> {
        let series_id = integer_field(doc, "seriesId"@);
        let series_name = text_field(doc, "seriesName"@);
        let matches = list_field::<Match>(doc, "matches"@);
        if !(doc is Object) {
            not_a_record()
        } else if series_id is Err {
            Err(series_id->Err_0)
        } else if series_name is Err {
            Err(series_name->Err_0)
        } else if matches is Err {
            Err(matches->Err_0)
        } else {
            Ok(
                SeriesAdWrapperView {
                    series_id: series_id->Ok_0,
                    series_name: series_name->Ok_0,
                    matches: matches->Ok_0,
                },
            )
        }
    }

    fn decode(doc: &Json) -> (r: Result<SeriesAdWrapper, DeserializationError>) {
        if !is_record(doc) {
            return Err(DeserializationError::here(Problem::NotRecord));
        }
        let series_id = read_integer(doc, "seriesId")?;
        let series_name = read_text(doc, "seriesName")?;
        let matches = decode_list_field::<Match>(doc, "matches")?;
        Ok(SeriesAdWrapper { series_id, series_name, matches })
    }
}

/// An entry of a type group: the series may be absent; whatever else the
/// entry holds is passed over.
impl Record for SeriesMatch {
    open spec fn read(doc: JsonView) -> Decoded<SeriesMatchView> {
        let series_ad_wrapper = optional_record_field::<SeriesAdWrapper>(doc, "seriesAdWrapper"@);
        if !(doc is Object) {
            not_a_record()
        } else if series_ad_wrapper is Err {
            Err(series_ad_wrapper->Err_0)
        } else {
            Ok(SeriesMatchView { series_ad_wrapper: series_ad_wrapper->Ok_0 })
        }
    }

    fn decode(doc: &Json) -> (r: Result<SeriesMatch, DeserializationError>) {
        if !is_record(doc) {
            return Err(DeserializationError::here(Problem::NotRecord));
        }
        let series_ad_wrapper = decode_optional_field::<SeriesAdWrapper>(doc, "seriesAdWrapper")?;
        Ok(SeriesMatch { series_ad_wrapper })
    }
}

/// A type group: both fields are needed.
impl Record for TypeMatch {
    open spec fn read(doc: JsonView) -> Decoded<TypeMatchView> {
        let match_type = text_field(doc, "matchType"@);
        let series_matches = list_field::<SeriesMatch>(doc, "seriesMatches"@);
        if !(doc is Object) {
            not_a_record()
        } else if match_type is Err {
            Err(match_type->Err_0)
        } else if series_matches is Err {
            Err(series_matches->Err_0)
        } else {
            Ok(
                TypeMatchView {
                    match_type: match_type->Ok_0,
                    series_matches: series_matches->Ok_0,
                },
            )
        }
    }

    fn decode(doc: &Json) -> (r: Result<TypeMatch, DeserializationError>) {
        if !is_record(doc) {
            return Err(DeserializationError::here(Problem::NotRecord));
        }
        let match_type = read_text(doc, "matchType")?;
        let series_matches = decode_list_field::<SeriesMatch>(doc, "seriesMatches")?;
        Ok(TypeMatch { match_type, series_matches })
    }
}

/// A listing document: the list of type groups is needed.
impl Record for ApiResponse {
    open spec fn read(doc: JsonView) -> Decoded<ApiResponseView> {
        let type_matches = list_field::<TypeMatch>(doc, "typeMatches"@);
        if !(doc is Object) {
            not_a_record()
        } else if type_matches is Err {
            Err(type_matches->Err_0)
        } else {
            Ok(ApiResponseView { type_matches: type_matches->Ok_0 })
        }
    }

    fn decode(doc: &Json) -> (r: Result<ApiResponse, DeserializationError>) {
        if !is_record(doc) {
            return Err(DeserializationError::here(Problem::NotRecord));
        }
        let type_matches = decode_list_field::<TypeMatch>(doc, "typeMatches")?;
        Ok(ApiResponse { type_matches })
    }
}

/// A scheduled match: all fields are needed.
impl Record for ScheduleMatchInfo {
    open spec fn read(doc: JsonView) -> Decoded<ScheduleMatchInfoView> {
        let match_id = integer_field(doc, "matchId"@);
        let series_id = integer_field(doc, "seriesId"@);
        let match_desc = text_field(doc, "matchDesc"@);
        let match_format = text_field(doc, "matchFormat"@);
        let start_date = text_field(doc, "startDate"@);
        let end_date = text_field(doc, "endDate"@);
        let team1 = record_field::<Team>(doc, "team1"@);
        let team2 = record_field::<Team>(doc, "team2"@);
        let venue_info = record_field::<VenueInfo>(doc, "venueInfo"@);
        if !(doc is Object) {
            not_a_record()
        } else if match_id is Err {
            Err(match_id->Err_0)
        } else if series_id is Err {
            Err(series_id->Err_0)
        } else if match_desc is Err {
            Err(match_desc->Err_0)
        } else if match_format is Err {
            Err(match_format->Err_0)
        } else if start_date is Err {
            Err(start_date->Err_0)
        } else if end_date is Err {
            Err(end_date->Err_0)
        } else if team1 is Err {
            Err(team1->Err_0)
        } else if team2 is Err {
            Err(team2->Err_0)
        } else if venue_info is Err {
            Err(venue_info->Err_0)
        } else {
            Ok(
                ScheduleMatchInfoView {
                    match_id: match_id->Ok_0,
                    series_id: series_id->Ok_0,
                    match_desc: match_desc->Ok_0,
                    match_format: match_format->Ok_0,
                    start_date: start_date->Ok_0,
                    end_date: end_date->Ok_0,
                    team1: team1->Ok_0,
                    team2: team2->Ok_0,
                    venue_info: venue_info->Ok_0,
                },
            )
        }
    }

    fn decode(doc: &Json) -> (r: Result<ScheduleMatchInfo, DeserializationError>) {
        if !is_record(doc) {
            return Err(DeserializationError::here(Problem::NotRecord));
        }
        let match_id = read_integer(doc, "matchId")?;
        let series_id = read_integer(doc, "seriesId")?;
        let match_desc = read_text(doc, "matchDesc")?;
        let match_format = read_text(doc, "matchFormat")?;
        let start_date = read_text(doc, "startDate")?;
        let end_date = read_text(doc, "endDate")?;
        let team1 = decode_field::<Team>(doc, "team1")?;
        let team2 = decode_field::<Team>(doc, "team2")?;
        let venue_info = decode_field::<VenueInfo>(doc, "venueInfo")?;
        Ok(
            ScheduleMatchInfo {
                match_id,
                series_id,
                match_desc,
                match_format,
                start_date,
                end_date,
                team1,
                team2,
                venue_info,
            },
        )
    }
}

/// A series of a schedule: all three fields are needed.
impl Record for MatchSchedule {
    open spec fn read(doc: JsonView) -> Decoded<MatchScheduleView> {
        let series_name = text_field(doc, "seriesName"@);
        let match_info = list_field::<ScheduleMatchInfo>(doc, "matchInfo"@);
        let series_id = integer_field(doc, "seriesId"@);
        if !(doc is Object) {
            not_a_record()
        } else if series_name is Err {
            Err(series_name->Err_0)
        } else if match_info is Err {
            Err(match_info->Err_0)
        } else if series_id is Err {
            Err(series_id->Err_0)
        } else {
            Ok(
                MatchScheduleView {
                    series_name: series_name->Ok_0,
                    match_info: match_info->Ok_0,
                    series_id: series_id->Ok_0,
                },
            )
        }
    }

    fn decode(doc: &Json) -> (r: Result<MatchSchedule, DeserializationError>) {
        if !is_record(doc) {
            return Err(DeserializationError::here(Problem::NotRecord));
        }
        let series_name = read_text(doc, "seriesName")?;
        let match_info = decode_list_field::<ScheduleMatchInfo>(doc, "matchInfo")?;
        let series_id = read_integer(doc, "seriesId")?;
        Ok(MatchSchedule { series_name, match_info, series_id })
    }
}

/// A day of a schedule: all three fields are needed.
impl Record for ScheduleAdWrapper {
    open spec fn read(doc: JsonView) -> Decoded<ScheduleAdWrapperView> {
        let date = text_field(doc, "date"@);
        let match_schedule_list = list_field::<MatchSchedule>(doc, "matchScheduleList"@);
        let long_date = text_field(doc, "longDate"@);
        if !(doc is Object) {
            not_a_record()
        } else if date is Err {
            Err(date->Err_0)
        } else if match_schedule_list is Err {
            Err(match_schedule_list->Err_0)
        } else if long_date is Err {
            Err(long_date->Err_0)
        } else {
            Ok(
                ScheduleAdWrapperView {
                    date: date->Ok_0,
                    match_schedule_list: match_schedule_list->Ok_0,
                    long_date: long_date->Ok_0,
                },
            )
        }
    }

    fn decode(doc: &Json) -> (r: Result<ScheduleAdWrapper, DeserializationError>) {
        if !is_record(doc) {
            return Err(DeserializationError::here(Problem::NotRecord));
        }
        let date = read_text(doc, "date")?;
        let match_schedule_list = decode_list_field::<MatchSchedule>(doc, "matchScheduleList")?;
        let long_date = read_text(doc, "longDate")?;
        Ok(ScheduleAdWrapper { date, match_schedule_list, long_date })
    }
}

/// An advertisement: all three fields are needed.
impl Record for AdDetail {
    open spec fn read(doc: JsonView) -> Decoded<AdDetailView> {
        let name = text_field(doc, "name"@);
        let layout = text_field(doc, "layout"@);
        let position = integer_field(doc, "position"@);
        if !(doc is Object) {
            not_a_record()
        } else if name is Err {
            Err(name->Err_0)
        } else if layout is Err {
            Err(layout->Err_0)
        } else if position is Err {
            Err(position->Err_0)
        } else {
            Ok(
                AdDetailView {
                    name: name->Ok_0,
                    layout: layout->Ok_0,
                    position: position->Ok_0,
                },
            )
        }
    }

    fn decode(doc: &Json) -> (r: Result<AdDetail, DeserializationError>) {
        if !is_record(doc) {
            return Err(DeserializationError::here(Problem::NotRecord));
        }
        let name = read_text(doc, "name")?;
        let layout = read_text(doc, "layout")?;
        let position = read_integer(doc, "position")?;
        Ok(AdDetail { name, layout, position })
    }
}

/// A bucket of a schedule: the day's schedule and the advertisement may
/// each be absent.
impl Record for ScheduleMap {
    open spec fn read(doc: JsonView) -> Decoded<ScheduleMapView> {
        let schedule_ad_wrapper = optional_record_field::<ScheduleAdWrapper>(
            doc,
            "scheduleAdWrapper"@,
        );
        let ad_detail = optional_record_field::<AdDetail>(doc, "adDetail"@);
        if !(doc is Object) {
            not_a_record()
        } else if schedule_ad_wrapper is Err {
            Err(schedule_ad_wrapper->Err_0)
        } else if ad_detail is Err {
            Err(ad_detail->Err_0)
        } else {
            Ok(
                ScheduleMapView {
                    schedule_ad_wrapper: schedule_ad_wrapper->Ok_0,
                    ad_detail: ad_detail->Ok_0,
                },
            )
        }
    }

    fn decode(doc: &Json) -> (r: Result<ScheduleMap, DeserializationError>) {
        if !is_record(doc) {
            return Err(DeserializationError::here(Problem::NotRecord));
        }
        let schedule_ad_wrapper = decode_optional_field::<ScheduleAdWrapper>(
            doc,
            "scheduleAdWrapper",
        )?;
        let ad_detail = decode_optional_field::<AdDetail>(doc, "adDetail")?;
        Ok(ScheduleMap { schedule_ad_wrapper, ad_detail })
    }
}

/// A schedule document: the list of buckets is needed.
impl Record for ScheduleResponse {
    open spec fn read(doc: JsonView) -> Decoded<ScheduleResponseView> {
        let match_schedule_map = list_field::<ScheduleMap>(doc, "matchScheduleMap"@);
        if !(doc is Object) {
            not_a_record()
        } else if match_schedule_map is Err {
            Err(match_schedule_map->Err_0)
        } else {
            Ok(ScheduleResponseView { match_schedule_map: match_schedule_map->Ok_0 })
        }
    }

    fn decode(doc: &Json) -> (r: Result<ScheduleResponse, DeserializationError>) {
        if !is_record(doc) {
            return Err(DeserializationError::here(Problem::NotRecord));
        }
        let match_schedule_map = decode_list_field::<ScheduleMap>(doc, "matchScheduleMap")?;
        Ok(ScheduleResponse { match_schedule_map })
    }
}

/// Whether a value holds every field that the description of a match
/// needs, each with the right kind of value.
pub open spec fn holds_needed_of_info(info: JsonView) -> bool {
    &&& info is Object
    &&& integer_field(info, "matchId"@) is Ok
    &&& integer_field(info, "seriesId"@) is Ok
    &&& text_field(info, "seriesName"@) is Ok
    &&& text_field(info, "matchDesc"@) is Ok
    &&& text_field(info, "matchFormat"@) is Ok
    &&& text_field(info, "startDate"@) is Ok
    &&& text_field(info, "endDate"@) is Ok
    &&& text_field(info, "state"@) is Ok
    &&& record_field::<Team>(info, "team1"@) is Ok
    &&& record_field::<Team>(info, "team2"@) is Ok
    &&& record_field::<VenueInfo>(info, "venueInfo"@) is Ok
}

/// A match is read without fault from a record that holds what is needed
/// and nothing of what may be absent: it then has neither a status nor a
/// score, and its row shows what stands for each.
pub proof fn lemma_bare_match(doc: JsonView)
    requires
        doc is Object,
        member(doc, "matchInfo"@) is Some,
        holds_needed_of_info(member(doc, "matchInfo"@)->Some_0),
        member(member(doc, "matchInfo"@)->Some_0, "status"@) is None,
        member(doc, "matchScore"@) is None,
    ensures
        Match::read(doc) is Ok,
        Match::read(doc)->Ok_0.match_info.status is None,
        Match::read(doc)->Ok_0.match_score is None,
        match_row(Match::read(doc)->Ok_0)[2] == upcoming_text(),
        match_row(Match::read(doc)->Ok_0)[3] == not_started_text(),
{
    let info = member(doc, "matchInfo"@)->Some_0;
    assert(MatchInfo::read(info) is Ok);
    assert(MatchInfo::read(info)->Ok_0.status is None);
}

} // verus!
