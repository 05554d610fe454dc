//! The two documents of the match feed, as typed records, and their
//! mathematical models.
//!
//! Every record has a model (`...View`) that holds the same fields as
//! mathematical values: `int` for numbers, `Seq<char>` for text, `Seq` for
//! lists. `deep_view()` maps a record to its model; the contracts of the
//! library are stated over the models.
use vstd::prelude::*;

verus! {

/// A team of a match.
#[derive(Debug, Clone, PartialEq)]
pub struct Team {
    pub team_id: i64,
    pub team_name: String,
    pub team_s_name: String,
    pub image_id: i64,
}

/// The model of a [`Team`].
pub struct TeamView {
    pub team_id: int,
    pub team_name: Seq<char>,
    pub team_s_name: Seq<char>,
    pub image_id: int,
}

impl DeepView for Team {
    type V = TeamView;

    open spec fn deep_view(&self) -> TeamView {
        TeamView {
            team_id: self.team_id as int,
            team_name: self.team_name@,
            team_s_name: self.team_s_name@,
            image_id: self.image_id as int,
        }
    }
}

/// Where a match is played. The feed may leave the venue's id out.
#[derive(Debug, Clone, PartialEq)]
pub struct VenueInfo {
    pub id: Option<i64>,
    pub ground: String,
    pub city: String,
    pub timezone: String,
}

/// The model of a [`VenueInfo`].
pub struct VenueInfoView {
    pub id: Option<int>,
    pub ground: Seq<char>,
    pub city: Seq<char>,
    pub timezone: Seq<char>,
}

impl DeepView for VenueInfo {
    type V = VenueInfoView;

    open spec fn deep_view(&self) -> VenueInfoView {
        VenueInfoView {
            id: match self.id {
                Some(id) => Some(id as int),
                None => None,
            },
            ground: self.ground@,
            city: self.city@,
            timezone: self.timezone@,
        }
    }
}

/// What identifies and describes one match of a listing. The start and end
/// dates are epoch milliseconds written as text. The status may be absent.
#[derive(Debug, Clone, PartialEq)]
pub struct MatchInfo {
    pub match_id: i64,
    pub series_id: i64,
    pub series_name: String,
    pub match_desc: String,
    pub match_format: String,
    pub start_date: String,
    pub end_date: String,
    pub state: String,
    pub status: Option<String>,
    pub team1: Team,
    pub team2: Team,
    pub venue_info: VenueInfo,
}

/// The model of a [`MatchInfo`].
pub struct MatchInfoView {
    pub match_id: int,
    pub series_id: int,
    pub series_name: Seq<char>,
    pub match_desc: Seq<char>,
    pub match_format: Seq<char>,
    pub start_date: Seq<char>,
    pub end_date: Seq<char>,
    pub state: Seq<char>,
    pub status: Option<Seq<char>>,
    pub team1: TeamView,
    pub team2: TeamView,
    pub venue_info: VenueInfoView,
}

impl DeepView for MatchInfo {
    type V = MatchInfoView;

    open spec fn deep_view(&self) -> MatchInfoView {
        MatchInfoView {
            match_id: self.match_id as int,
            series_id: self.series_id as int,
            series_name: self.series_name@,
            match_desc: self.match_desc@,
            match_format: self.match_format@,
            start_date: self.start_date@,
            end_date: self.end_date@,
            state: self.state@,
            status: self.status.deep_view(),
            team1: self.team1.deep_view(),
            team2: self.team2.deep_view(),
            venue_info: self.venue_info.deep_view(),
        }
    }
}

/// One innings of a team: runs, wickets and the overs bowled. The overs are
/// kept as the decimal text of the feed's number, which is all that is ever
/// done with them: they are shown.
#[derive(Debug, Clone, PartialEq)]
pub struct Innings {
    pub innings_id: i64,
    pub runs: i64,
    pub wickets: i64,
    pub overs: String,
}

/// The model of an [`Innings`].
pub struct InningsView {
    pub innings_id: int,
    pub runs: int,
    pub wickets: int,
    pub overs: Seq<char>,
}

impl DeepView for Innings {
    type V = InningsView;

    open spec fn deep_view(&self) -> InningsView {
        InningsView {
            innings_id: self.innings_id as int,
            runs: self.runs as int,
            wickets: self.wickets as int,
            overs: self.overs@,
        }
    }
}

/// The score of one team. Its first innings may not be there yet.
#[derive(Debug, Clone, PartialEq)]
pub struct TeamScore {
    pub innings1: Option<Innings>,
}

/// The model of a [`TeamScore`].
pub struct TeamScoreView {
    pub innings1: Option<InningsView>,
}

impl DeepView for TeamScore {
    type V = TeamScoreView;

    open spec fn deep_view(&self) -> TeamScoreView {
        TeamScoreView { innings1: self.innings1.deep_view() }
    }
}

/// The score of a match: either team's part may be absent.
#[derive(Debug, Clone, PartialEq)]
pub struct MatchScore {
    pub team1_score: Option<TeamScore>,
    pub team2_score: Option<TeamScore>,
}

/// The model of a [`MatchScore`].
pub struct MatchScoreView {
    pub team1_score: Option<TeamScoreView>,
    pub team2_score: Option<TeamScoreView>,
}

impl DeepView for MatchScore {
    type V = MatchScoreView;

    open spec fn deep_view(&self) -> MatchScoreView {
        MatchScoreView {
            team1_score: self.team1_score.deep_view(),
            team2_score: self.team2_score.deep_view(),
        }
    }
}

/// One match of a listing. A match that has not started has no score.
#[derive(Debug, Clone, PartialEq)]
pub struct Match {
    pub match_info: MatchInfo,
    pub match_score: Option<MatchScore>,
}

/// The model of a [`Match`].
pub struct MatchView {
    pub match_info: MatchInfoView,
    pub match_score: Option<MatchScoreView>,
}

impl DeepView for Match {
    type V = MatchView;

    open spec fn deep_view(&self) -> MatchView {
        MatchView {
            match_info: self.match_info.deep_view(),
            match_score: self.match_score.deep_view(),
        }
    }
}

/// The matches of one series.
#[derive(Debug, Clone, PartialEq)]
pub struct SeriesAdWrapper {
    pub series_id: i64,
    pub series_name: String,
    pub matches: Vec<Match>,
}

/// The model of a [`SeriesAdWrapper`].
pub struct SeriesAdWrapperView {
    pub series_id: int,
    pub series_name: Seq<char>,
    pub matches: Seq<MatchView>,
}

impl DeepView for SeriesAdWrapper {
    type V = SeriesAdWrapperView;

    open spec fn deep_view(&self) -> SeriesAdWrapperView {
        SeriesAdWrapperView {
            series_id: self.series_id as int,
            series_name: self.series_name@,
            matches: self.matches.deep_view(),
        }
    }
}

/// One entry of a type group: a series with its matches, or, where the
/// wrapper is absent, an advertisement that holds no match.
#[derive(Debug, Clone, PartialEq)]
pub struct SeriesMatch {
    pub series_ad_wrapper: Option<SeriesAdWrapper>,
}

/// The model of a [`SeriesMatch`].
pub struct SeriesMatchView {
    pub series_ad_wrapper: Option<SeriesAdWrapperView>,
}

impl DeepView for SeriesMatch {
    type V = SeriesMatchView;

    open spec fn deep_view(&self) -> SeriesMatchView {
        SeriesMatchView { series_ad_wrapper: self.series_ad_wrapper.deep_view() }
    }
}

/// The series entries of one match type.
#[derive(Debug, Clone, PartialEq)]
pub struct TypeMatch {
    pub match_type: String,
    pub series_matches: Vec<SeriesMatch>,
}

/// The model of a [`TypeMatch`].
pub struct TypeMatchView {
    pub match_type: Seq<char>,
    pub series_matches: Seq<SeriesMatchView>,
}

impl DeepView for TypeMatch {
    type V = TypeMatchView;

    open spec fn deep_view(&self) -> TypeMatchView {
        TypeMatchView {
            match_type: self.match_type@,
            series_matches: self.series_matches.deep_view(),
        }
    }
}

/// A listing document: the matches that are live, recent or upcoming,
/// grouped by match type and then by series.
#[derive(Debug, Clone, PartialEq)]
pub struct ApiResponse {
    pub type_matches: Vec<TypeMatch>,
}

/// The model of an [`ApiResponse`].
pub struct ApiResponseView {
    pub type_matches: Seq<TypeMatchView>,
}

impl DeepView for ApiResponse {
    type V = ApiResponseView;

    open spec fn deep_view(&self) -> ApiResponseView {
        ApiResponseView { type_matches: self.type_matches.deep_view() }
    }
}

/// One match of a schedule.
#[derive(Debug, Clone, PartialEq)]
pub struct ScheduleMatchInfo {
    pub match_id: i64,
    pub series_id: i64,
    pub match_desc: String,
    pub match_format: String,
    pub start_date: String,
    pub end_date: String,
    pub team1: Team,
    pub team2: Team,
    pub venue_info: VenueInfo,
}

/// The model of a [`ScheduleMatchInfo`].
pub struct ScheduleMatchInfoView {
    pub match_id: int,
    pub series_id: int,
    pub match_desc: Seq<char>,
    pub match_format: Seq<char>,
    pub start_date: Seq<char>,
    pub end_date: Seq<char>,
    pub team1: TeamView,
    pub team2: TeamView,
    pub venue_info: VenueInfoView,
}

impl DeepView for ScheduleMatchInfo {
    type V = ScheduleMatchInfoView;

    open spec fn deep_view(&self) -> ScheduleMatchInfoView {
        ScheduleMatchInfoView {
            match_id: self.match_id as int,
            series_id: self.series_id as int,
            match_desc: self.match_desc@,
            match_format: self.match_format@,
            start_date: self.start_date@,
            end_date: self.end_date@,
            team1: self.team1.deep_view(),
            team2: self.team2.deep_view(),
            venue_info: self.venue_info.deep_view(),
        }
    }
}

/// The scheduled matches of one series.
#[derive(Debug, Clone, PartialEq)]
pub struct MatchSchedule {
    pub series_name: String,
    pub match_info: Vec<ScheduleMatchInfo>,
    pub series_id: i64,
}

/// The model of a [`MatchSchedule`].
pub struct MatchScheduleView {
    pub series_name: Seq<char>,
    pub match_info: Seq<ScheduleMatchInfoView>,
    pub series_id: int,
}

impl DeepView for MatchSchedule {
    type V = MatchScheduleView;

    open spec fn deep_view(&self) -> MatchScheduleView {
        MatchScheduleView {
            series_name: self.series_name@,
            match_info: self.match_info.deep_view(),
            series_id: self.series_id as int,
        }
    }
}

/// The schedule of one day.
#[derive(Debug, Clone, PartialEq)]
pub struct ScheduleAdWrapper {
    pub date: String,
    pub match_schedule_list: Vec<MatchSchedule>,
    pub long_date: String,
}

/// The model of a [`ScheduleAdWrapper`].
pub struct ScheduleAdWrapperView {
    pub date: Seq<char>,
    pub match_schedule_list: Seq<MatchScheduleView>,
    pub long_date: Seq<char>,
}

impl DeepView for ScheduleAdWrapper {
    type V = ScheduleAdWrapperView;

    open spec fn deep_view(&self) -> ScheduleAdWrapperView {
        ScheduleAdWrapperView {
            date: self.date@,
            match_schedule_list: self.match_schedule_list.deep_view(),
            long_date: self.long_date@,
        }
    }
}

/// An advertisement that stands where a day's schedule could.
#[derive(Debug, Clone, PartialEq)]
pub struct AdDetail {
    pub name: String,
    pub layout: String,
    pub position: i64,
}

/// The model of an [`AdDetail`].
pub struct AdDetailView {
    pub name: Seq<char>,
    pub layout: Seq<char>,
    pub position: int,
}

impl DeepView for AdDetail {
    type V = AdDetailView;

    open spec fn deep_view(&self) -> AdDetailView {
        AdDetailView { name: self.name@, layout: self.layout@, position: self.position as int }
    }
}

/// One bucket of a schedule: a day's schedule, an advertisement, or neither.
#[derive(Debug, Clone, PartialEq)]
pub struct ScheduleMap {
    pub schedule_ad_wrapper: Option<ScheduleAdWrapper>,
    pub ad_detail: Option<AdDetail>,
}

/// The model of a [`ScheduleMap`].
pub struct ScheduleMapView {
    pub schedule_ad_wrapper: Option<ScheduleAdWrapperView>,
    pub ad_detail: Option<AdDetailView>,
}

impl DeepView for ScheduleMap {
    type V = ScheduleMapView;

    open spec fn deep_view(&self) -> ScheduleMapView {
        ScheduleMapView {
            schedule_ad_wrapper: self.schedule_ad_wrapper.deep_view(),
            ad_detail: self.ad_detail.deep_view(),
        }
    }
}

/// A schedule document: buckets by date.
#[derive(Debug, Clone, PartialEq)]
pub struct ScheduleResponse {
    pub match_schedule_map: Vec<ScheduleMap>,
}

/// The model of a [`ScheduleResponse`].
pub struct ScheduleResponseView {
    pub match_schedule_map: Seq<ScheduleMapView>,
}

impl DeepView for ScheduleResponse {
    type V = ScheduleResponseView;

    open spec fn deep_view(&self) -> ScheduleResponseView {
        ScheduleResponseView { match_schedule_map: self.match_schedule_map.deep_view() }
    }
}

} // verus!
