//! The messages of the upstream provider's live stream, as plain values, and
//! what the core reads out of them.

use vstd::prelude::*;
use vstd::std_specs::convert::FromSpecImpl;
use crate::models::{StringOrNum, StringOrNumView};
use crate::report::GameStatus;
use crate::text::{clone_opt_text, opt_text, str_eq};

verus! {

impl GameStatus {
    /// The status of a game that is played in period `period`: periods 4 to
    /// 10 are overtime, 99 is the shootout, and what is not known counts as
    /// the first period.
    pub open spec fn of_period(period: i16) -> GameStatus {
        if period == 1 {
            GameStatus::Period1
        } else if period == 2 {
            GameStatus::Period2
        } else if period == 3 {
            GameStatus::Period3
        } else if 4 <= period <= 10 {
            GameStatus::Overtime
        } else if period == 99 {
            GameStatus::Shootout
        } else {
            GameStatus::Period1
        }
    }

    /// The status that the provider's state string and period stand for. An
    /// unknown state counts as `Coming`.
    pub open spec fn of_state(game_state: Seq<char>, period: i16) -> GameStatus {
        if game_state == "NotStarted"@ {
            GameStatus::Coming
        } else if game_state == "GameEnded"@ {
            GameStatus::Finished
        } else if game_state == "Intermission"@ || game_state == "PeriodBreak"@ {
            GameStatus::Intermission
        } else if game_state == "ShootOut"@ {
            GameStatus::Shootout
        } else if game_state == "OverTime"@ {
            GameStatus::Overtime
        } else if game_state == "Ongoing"@ {
            GameStatus::of_period(period)
        } else {
            GameStatus::Coming
        }
    }

    /// The status of a game that is played in period `period`.
    pub fn from_period(period: i16) -> (status: GameStatus)
        ensures
            status == GameStatus::of_period(period),
    {
        if period == 1 {
            GameStatus::Period1
        } else if period == 2 {
            GameStatus::Period2
        } else if period == 3 {
            GameStatus::Period3
        } else if 4 <= period && period <= 10 {
            GameStatus::Overtime
        } else if period == 99 {
            GameStatus::Shootout
        } else {
            GameStatus::Period1
        }
    }

    /// The status that the provider's state string and period stand for.
    pub fn get_from(game_state: &str, period: i16) -> (status: GameStatus)
        ensures
            status == GameStatus::of_state(game_state@, period),
    {
        if str_eq(game_state, "NotStarted") {
            GameStatus::Coming
        } else if str_eq(game_state, "GameEnded") {
            GameStatus::Finished
        } else if str_eq(game_state, "Intermission") || str_eq(game_state, "PeriodBreak") {
            GameStatus::Intermission
        } else if str_eq(game_state, "ShootOut") {
            GameStatus::Shootout
        } else if str_eq(game_state, "OverTime") {
            GameStatus::Overtime
        } else if str_eq(game_state, "Ongoing") {
            GameStatus::from_period(period)
        } else {
            GameStatus::Coming
        }
    }
}

impl From<i16> for GameStatus {
    fn from(value: i16) -> (status: GameStatus) {
        GameStatus::from_period(value)
    }
}

impl FromSpecImpl<i16> for GameStatus {
    open spec fn obeys_from_spec() -> bool {
        true
    }

    open spec fn from_spec(value: i16) -> GameStatus {
        GameStatus::of_period(value)
    }
}

/// The provider's own report of a game.
#[derive(Debug)]
pub struct GameReport {
    pub gameUuid: String,
    pub gameTime: String,
    pub statusString: String,
    pub gameState: String,
    pub period: StringOrNum,
    pub homeTeamId: Option<String>,
    pub awayTeamId: Option<String>,
    pub homeTeamScore: StringOrNum,
    pub awayTeamScore: StringOrNum,
    pub revision: u16,
}

/// What a `GameReport` holds.
pub struct GameReportView {
    pub gameUuid: Seq<char>,
    pub gameTime: Seq<char>,
    pub statusString: Seq<char>,
    pub gameState: Seq<char>,
    pub period: StringOrNumView,
    pub homeTeamId: Option<Seq<char>>,
    pub awayTeamId: Option<Seq<char>>,
    pub homeTeamScore: StringOrNumView,
    pub awayTeamScore: StringOrNumView,
    pub revision: u16,
}

impl View for GameReport {
    type V = GameReportView;

    open spec fn view(&self) -> GameReportView {
        GameReportView {
            gameUuid: self.gameUuid@,
            gameTime: self.gameTime@,
            statusString: self.statusString@,
            gameState: self.gameState@,
            period: self.period@,
            homeTeamId: opt_text(self.homeTeamId),
            awayTeamId: opt_text(self.awayTeamId),
            homeTeamScore: self.homeTeamScore@,
            awayTeamScore: self.awayTeamScore@,
            revision: self.revision,
        }
    }
}

impl GameReportView {
    /// The status that the report stands for.
    pub open spec fn status(self) -> GameStatus {
        GameStatus::of_state(self.gameState, self.period.num())
    }
}

impl Clone for GameReport {
    fn clone(&self) -> (copy: Self)
        ensures
            copy@ == self@,
    {
        GameReport {
            gameUuid: self.gameUuid.clone(),
            gameTime: self.gameTime.clone(),
            statusString: self.statusString.clone(),
            gameState: self.gameState.clone(),
            period: self.period.clone(),
            homeTeamId: clone_opt_text(&self.homeTeamId),
            awayTeamId: clone_opt_text(&self.awayTeamId),
            homeTeamScore: self.homeTeamScore.clone(),
            awayTeamScore: self.awayTeamScore.clone(),
            revision: self.revision,
        }
    }
}

impl GameReport {
    /// The status that the report stands for.
    pub fn get_status(&self) -> (status: GameStatus)
        ensures
            status == self@.status(),
    {
        GameStatus::get_from(self.gameState.as_str(), self.period.to_num())
    }
}

/// A play-by-play entry without a payload.
#[derive(Clone, Copy, Debug, PartialEq, Eq, Structural)]
pub struct General {}

/// A place on the rink as the provider sends it. Each coordinate is kept as
/// the bits of its binary32 value.
#[derive(Clone, Copy, Debug, PartialEq, Eq, Structural)]
pub struct Location {
    pub x: u32,
    pub y: u32,
}

/// A shot of the play-by-play feed.
#[derive(Debug)]
pub struct Shot {
    pub team: String,
    pub location: Location,
}

/// The details of a goal of the play-by-play feed.
#[derive(Debug)]
pub struct GoalExtra {
    pub scorerLong: String,
    pub teamAdvantage: String,
    pub homeAgainst: StringOrNum,
    pub homeForward: StringOrNum,
    pub assist: String,
}

/// A goal of the play-by-play feed.
#[derive(Debug)]
pub struct Goal {
    pub team: String,
    pub location: Location,
    pub extra: GoalExtra,
}

/// The details of a period entry of the play-by-play feed.
#[derive(Debug)]
pub struct PeriodExtra {
    pub gameStatus: String,
}

/// A period entry of the play-by-play feed.
#[derive(Debug)]
pub struct Period {
    pub extra: PeriodExtra,
}

/// A penalty of the play-by-play feed.
#[derive(Debug)]
pub struct Penalty {
    pub team: String,
}

/// The payload of a play-by-play entry, by its class.
#[derive(Debug)]
pub enum PlayByPlayType {
    Period(Period),
    Goal(Goal),
    Penalty(Penalty),
    PenaltyShot(Shot),
    Shot(Shot),
    ShotBlocked(Shot),
    ShotIron(Shot),
    ShotWide(Shot),
    ShootoutPenaltyShot(Shot),
    General(General),
    Timeout(General),
    GoolkeeperEvent(General),
    Livefeed(General),
}

/// What a `PlayByPlayType` holds.
pub enum PlayByPlayTypeView {
    Period(Seq<char>),
    Goal { team: Seq<char>, location: Location, scorer: Seq<char>, team_advantage: Seq<char>, home_against: StringOrNumView, home_forward: StringOrNumView, assist: Seq<char> },
    Penalty(Seq<char>),
    PenaltyShot(Seq<char>, Location),
    Shot(Seq<char>, Location),
    ShotBlocked(Seq<char>, Location),
    ShotIron(Seq<char>, Location),
    ShotWide(Seq<char>, Location),
    ShootoutPenaltyShot(Seq<char>, Location),
    General,
    Timeout,
    GoolkeeperEvent,
    Livefeed,
}

impl View for PlayByPlayType {
    type V = PlayByPlayTypeView;

    open spec fn view(&self) -> PlayByPlayTypeView {
        match self {
            PlayByPlayType::Period(p) => PlayByPlayTypeView::Period(p.extra.gameStatus@),
            PlayByPlayType::Goal(g) => PlayByPlayTypeView::Goal {
                team: g.team@,
                location: g.location,
                scorer: g.extra.scorerLong@,
                team_advantage: g.extra.teamAdvantage@,
                home_against: g.extra.homeAgainst@,
                home_forward: g.extra.homeForward@,
                assist: g.extra.assist@,
            },
            PlayByPlayType::Penalty(p) => PlayByPlayTypeView::Penalty(p.team@),
            PlayByPlayType::PenaltyShot(s) => PlayByPlayTypeView::PenaltyShot(s.team@, s.location),
            PlayByPlayType::Shot(s) => PlayByPlayTypeView::Shot(s.team@, s.location),
            PlayByPlayType::ShotBlocked(s) => PlayByPlayTypeView::ShotBlocked(s.team@, s.location),
            PlayByPlayType::ShotIron(s) => PlayByPlayTypeView::ShotIron(s.team@, s.location),
            PlayByPlayType::ShotWide(s) => PlayByPlayTypeView::ShotWide(s.team@, s.location),
            PlayByPlayType::ShootoutPenaltyShot(s) => PlayByPlayTypeView::ShootoutPenaltyShot(
                s.team@,
                s.location,
            ),
            PlayByPlayType::General(_) => PlayByPlayTypeView::General,
            PlayByPlayType::Timeout(_) => PlayByPlayTypeView::Timeout,
            PlayByPlayType::GoolkeeperEvent(_) => PlayByPlayTypeView::GoolkeeperEvent,
            PlayByPlayType::Livefeed(_) => PlayByPlayTypeView::Livefeed,
        }
    }
}

impl Clone for Shot {
    fn clone(&self) -> (copy: Self)
        ensures
            copy.team@ == self.team@,
            copy.location == self.location,
    {
        Shot { team: self.team.clone(), location: self.location }
    }
}

impl Clone for PlayByPlayType {
    fn clone(&self) -> (copy: Self)
        ensures
            copy@ == self@,
    {
        match self {
            PlayByPlayType::Period(p) => PlayByPlayType::Period(
                Period { extra: PeriodExtra { gameStatus: p.extra.gameStatus.clone() } },
            ),
            PlayByPlayType::Goal(g) => PlayByPlayType::Goal(
                Goal {
                    team: g.team.clone(),
                    location: g.location,
                    extra: GoalExtra {
                        scorerLong: g.extra.scorerLong.clone(),
                        teamAdvantage: g.extra.teamAdvantage.clone(),
                        homeAgainst: g.extra.homeAgainst.clone(),
                        homeForward: g.extra.homeForward.clone(),
                        assist: g.extra.assist.clone(),
                    },
                },
            ),
            PlayByPlayType::Penalty(p) => PlayByPlayType::Penalty(Penalty { team: p.team.clone() }),
            PlayByPlayType::PenaltyShot(s) => PlayByPlayType::PenaltyShot(s.clone()),
            PlayByPlayType::Shot(s) => PlayByPlayType::Shot(s.clone()),
            PlayByPlayType::ShotBlocked(s) => PlayByPlayType::ShotBlocked(s.clone()),
            PlayByPlayType::ShotIron(s) => PlayByPlayType::ShotIron(s.clone()),
            PlayByPlayType::ShotWide(s) => PlayByPlayType::ShotWide(s.clone()),
            PlayByPlayType::ShootoutPenaltyShot(s) => PlayByPlayType::ShootoutPenaltyShot(
                s.clone(),
            ),
            PlayByPlayType::General(_) => PlayByPlayType::General(General {  }),
            PlayByPlayType::Timeout(_) => PlayByPlayType::Timeout(General {  }),
            PlayByPlayType::GoolkeeperEvent(_) => PlayByPlayType::GoolkeeperEvent(General {  }),
            PlayByPlayType::Livefeed(_) => PlayByPlayType::Livefeed(General {  }),
        }
    }
}

/// One entry of the play-by-play feed of the older seasons.
#[derive(Debug)]
pub struct PlayByPlay {
    pub eventId: i32,
    pub revision: u16,
    pub hash: String,
    pub period: StringOrNum,
    pub gametime: String,
    pub description: String,
    pub class: PlayByPlayType,
}

/// What a `PlayByPlay` holds.
pub struct PlayByPlayView {
    pub eventId: i32,
    pub revision: u16,
    pub hash: Seq<char>,
    pub period: StringOrNumView,
    pub gametime: Seq<char>,
    pub description: Seq<char>,
    pub class: PlayByPlayTypeView,
}

impl View for PlayByPlay {
    type V = PlayByPlayView;

    open spec fn view(&self) -> PlayByPlayView {
        PlayByPlayView {
            eventId: self.eventId,
            revision: self.revision,
            hash: self.hash@,
            period: self.period@,
            gametime: self.gametime@,
            description: self.description@,
            class: self.class@,
        }
    }
}

impl Clone for PlayByPlay {
    fn clone(&self) -> (copy: Self)
        ensures
            copy@ == self@,
    {
        PlayByPlay {
            eventId: self.eventId,
            revision: self.revision,
            hash: self.hash.clone(),
            period: self.period.clone(),
            gametime: self.gametime.clone(),
            description: self.description.clone(),
            class: self.class.clone(),
        }
    }
}

/// A batch of play-by-play entries of one game.
#[derive(Debug)]
pub struct Action {
    pub actions: Vec<PlayByPlay>,
    pub gameUuid: String,
}

/// The state of a game as the live stream announces it.
#[derive(Clone, Copy, Debug, PartialEq, Eq, Structural)]
pub enum LiveState {
    Unknown,
    Ongoing,
    Intermission,
    Decided,
    Overtime,
    Shootout,
}

/// A change of a game's live state.
#[derive(Debug)]
pub struct LiveStateEvent {
    pub gameUuid: String,
    pub liveState: LiveState,
    pub previousLiveState: LiveState,
}

impl Clone for LiveStateEvent {
    fn clone(&self) -> (copy: Self)
        ensures
            copy.gameUuid@ == self.gameUuid@,
            copy.liveState == self.liveState,
            copy.previousLiveState == self.previousLiveState,
    {
        LiveStateEvent {
            gameUuid: self.gameUuid.clone(),
            liveState: self.liveState,
            previousLiveState: self.previousLiveState,
        }
    }
}

/// The clock of a game.
#[derive(Debug)]
pub struct GameTime {
    pub gameUuid: String,
    pub period: StringOrNum,
    pub periodTime: String,
}

/// What a `GameTime` holds.
pub struct GameTimeView {
    pub gameUuid: Seq<char>,
    pub period: StringOrNumView,
    pub periodTime: Seq<char>,
}

impl View for GameTime {
    type V = GameTimeView;

    open spec fn view(&self) -> GameTimeView {
        GameTimeView {
            gameUuid: self.gameUuid@,
            period: self.period@,
            periodTime: self.periodTime@,
        }
    }
}

impl Clone for GameTime {
    fn clone(&self) -> (copy: Self)
        ensures
            copy@ == self@,
    {
        GameTime {
            gameUuid: self.gameUuid.clone(),
            period: self.period.clone(),
            periodTime: self.periodTime.clone(),
        }
    }
}

/// The clock of a game as the live stream sends it, where period and time may
/// be missing.
#[derive(Debug)]
pub struct SseGameTime {
    pub gameUuid: String,
    pub period: Option<StringOrNum>,
    pub periodTime: Option<String>,
}

impl SseGameTime {
    /// The clock, where both the period and the time are present.
    pub fn into_game_time(self) -> (clock: Option<GameTime>)
        ensures
            clock == self.game_time(),
    {
        match (self.period, self.periodTime) {
            (Some(period), Some(periodTime)) => Some(
                GameTime { gameUuid: self.gameUuid, period, periodTime },
            ),
            _ => None,
        }
    }

    /// The clock, where both the period and the time are present.
    pub open spec fn game_time(self) -> Option<GameTime> {
        match (self.period, self.periodTime) {
            (Some(period), Some(periodTime)) => Some(
                GameTime { gameUuid: self.gameUuid, period, periodTime },
            ),
            _ => None,
        }
    }
}

/// A team of a live event, with its score at the time.
#[derive(Debug)]
pub struct LiveEventTeam {
    pub teamId: String,
    pub score: StringOrNum,
}

/// What a `LiveEventTeam` holds.
pub struct LiveEventTeamView {
    pub teamId: Seq<char>,
    pub score: StringOrNumView,
}

impl View for LiveEventTeam {
    type V = LiveEventTeamView;

    open spec fn view(&self) -> LiveEventTeamView {
        LiveEventTeamView { teamId: self.teamId@, score: self.score@ }
    }
}

impl Clone for LiveEventTeam {
    fn clone(&self) -> (copy: Self)
        ensures
            copy@ == self@,
    {
        LiveEventTeam { teamId: self.teamId.clone(), score: self.score.clone() }
    }
}

impl LiveEventTeam {
    /// The team's code.
    pub fn get_team_id(&self) -> (id: String)
        ensures
            id@ == self@.teamId,
    {
        self.teamId.clone()
    }
}

/// The team that a live event is about.
#[derive(Debug)]
pub struct EventTeam {
    pub teamId: String,
}

impl View for EventTeam {
    type V = Seq<char>;

    open spec fn view(&self) -> Seq<char> {
        self.teamId@
    }
}

impl Clone for EventTeam {
    fn clone(&self) -> (copy: Self)
        ensures
            copy@ == self@,
    {
        EventTeam { teamId: self.teamId.clone() }
    }
}

impl EventTeam {
    /// The team's code.
    pub fn get_team_id(&self) -> (id: String)
        ensures
            id@ == self@,
    {
        self.teamId.clone()
    }
}

/// The length of a penalty in words.
#[derive(Debug)]
pub struct Description {
    pub description: String,
}

impl View for Description {
    type V = Seq<char>;

    open spec fn view(&self) -> Seq<char> {
        self.description@
    }
}

/// The player of a live event.
#[derive(Debug)]
pub struct EventPlayer {
    pub playerId: StringOrNum,
    pub familyName: String,
    pub firstName: String,
    pub jerseyToday: StringOrNum,
}

/// What an `EventPlayer` holds.
pub struct EventPlayerView {
    pub playerId: StringOrNumView,
    pub familyName: Seq<char>,
    pub firstName: Seq<char>,
    pub jerseyToday: StringOrNumView,
}

impl View for EventPlayer {
    type V = EventPlayerView;

    open spec fn view(&self) -> EventPlayerView {
        EventPlayerView {
            playerId: self.playerId@,
            familyName: self.familyName@,
            firstName: self.firstName@,
            jerseyToday: self.jerseyToday@,
        }
    }
}

impl Clone for EventPlayer {
    fn clone(&self) -> (copy: Self)
        ensures
            copy@ == self@,
    {
        EventPlayer {
            playerId: self.playerId.clone(),
            familyName: self.familyName.clone(),
            firstName: self.firstName.clone(),
            jerseyToday: self.jerseyToday.clone(),
        }
    }
}

/// The view of an optional event player.
pub open spec fn opt_event_player(player: Option<EventPlayer>) -> Option<EventPlayerView> {
    match player {
        Some(p) => Some(p@),
        None => None,
    }
}

/// A shot or a goal of the live stream.
#[derive(Debug)]
pub struct ShotType {
    pub time: String,
    pub gameState: String,
    pub goalStatus: Option<String>,
    pub homeTeam: LiveEventTeam,
    pub awayTeam: LiveEventTeam,
    pub eventTeam: EventTeam,
    pub revision: u16,
    pub player: EventPlayer,
}

/// What a `ShotType` holds.
pub struct ShotTypeView {
    pub time: Seq<char>,
    pub gameState: Seq<char>,
    pub goalStatus: Option<Seq<char>>,
    pub homeTeam: LiveEventTeamView,
    pub awayTeam: LiveEventTeamView,
    pub eventTeam: Seq<char>,
    pub revision: u16,
    pub player: EventPlayerView,
}

impl View for ShotType {
    type V = ShotTypeView;

    open spec fn view(&self) -> ShotTypeView {
        ShotTypeView {
            time: self.time@,
            gameState: self.gameState@,
            goalStatus: opt_text(self.goalStatus),
            homeTeam: self.homeTeam@,
            awayTeam: self.awayTeam@,
            eventTeam: self.eventTeam@,
            revision: self.revision,
            player: self.player@,
        }
    }
}

impl Clone for ShotType {
    fn clone(&self) -> (copy: Self)
        ensures
            copy@ == self@,
    {
        ShotType {
            time: self.time.clone(),
            gameState: self.gameState.clone(),
            goalStatus: clone_opt_text(&self.goalStatus),
            homeTeam: self.homeTeam.clone(),
            awayTeam: self.awayTeam.clone(),
            eventTeam: self.eventTeam.clone(),
            revision: self.revision,
            player: self.player.clone(),
        }
    }
}

/// The start or the end of a period.
#[derive(Clone, Copy, Debug, PartialEq, Eq, Structural)]
pub struct PeriodType {
    pub started: bool,
    pub finished: bool,
}

/// A penalty of the live stream.
#[derive(Debug)]
pub struct PenaltyType {
    pub time: String,
    pub gameState: String,
    pub homeTeam: LiveEventTeam,
    pub awayTeam: LiveEventTeam,
    pub eventTeam: EventTeam,
    pub revision: u16,
    pub player: Option<EventPlayer>,
    pub offence: String,
    pub variant: Description,
}

/// What a `PenaltyType` holds.
pub struct PenaltyTypeView {
    pub time: Seq<char>,
    pub gameState: Seq<char>,
    pub homeTeam: LiveEventTeamView,
    pub awayTeam: LiveEventTeamView,
    pub eventTeam: Seq<char>,
    pub revision: u16,
    pub player: Option<EventPlayerView>,
    pub offence: Seq<char>,
    pub variant: Seq<char>,
}

impl View for PenaltyType {
    type V = PenaltyTypeView;

    open spec fn view(&self) -> PenaltyTypeView {
        PenaltyTypeView {
            time: self.time@,
            gameState: self.gameState@,
            homeTeam: self.homeTeam@,
            awayTeam: self.awayTeam@,
            eventTeam: self.eventTeam@,
            revision: self.revision,
            player: opt_event_player(self.player),
            offence: self.offence@,
            variant: self.variant@,
        }
    }
}

impl Clone for PenaltyType {
    fn clone(&self) -> (copy: Self)
        ensures
            copy@ == self@,
    {
        PenaltyType {
            time: self.time.clone(),
            gameState: self.gameState.clone(),
            homeTeam: self.homeTeam.clone(),
            awayTeam: self.awayTeam.clone(),
            eventTeam: self.eventTeam.clone(),
            revision: self.revision,
            player: match &self.player {
                Some(p) => Some(p.clone()),
                None => None,
            },
            offence: self.offence.clone(),
            variant: Description { description: self.variant.description.clone() },
        }
    }
}

/// The written-out name of an offence code; a code that is not known stands
/// for itself.
pub open spec fn offence_name(code: Seq<char>) -> Seq<char> {
    if code == "HOOK"@ {
        "Hooking"@
    } else if code == "TRIP"@ {
        "Tripping"@
    } else if code == "INTRF"@ {
        "Interference"@
    } else if code == "UN-SP"@ {
        "Unsportsmanlike"@
    } else if code == "ROUGH"@ {
        "Roughing"@
    } else if code == "HI-ST"@ {
        "High-Sticking"@
    } else if code == "TOO-M"@ {
        "Too many players"@
    } else if code == "HOLD"@ {
        "Holding"@
    } else if code == "CROSS"@ {
        "Crosschecking"@
    } else if code == "GK-INTRF"@ {
        "Goalkeeper Interference"@
    } else if code == "BOARD"@ {
        "Boarding"@
    } else if code == "DELAY"@ {
        "Delay the game"@
    } else if code == "KNEE"@ {
        "Kneeing"@
    } else if code == "SLASH"@ {
        "Slashing"@
    } else {
        code
    }
}

impl PenaltyType {
    /// The written-out name of the offence.
    pub fn get_offence(&self) -> (name: String)
        ensures
            name@ == offence_name(self@.offence),
    {
        let code = self.offence.as_str();
        if str_eq(code, "HOOK") {
            "Hooking".to_string()
        } else if str_eq(code, "TRIP") {
            "Tripping".to_string()
        } else if str_eq(code, "INTRF") {
            "Interference".to_string()
        } else if str_eq(code, "UN-SP") {
            "Unsportsmanlike".to_string()
        } else if str_eq(code, "ROUGH") {
            "Roughing".to_string()
        } else if str_eq(code, "HI-ST") {
            "High-Sticking".to_string()
        } else if str_eq(code, "TOO-M") {
            "Too many players".to_string()
        } else if str_eq(code, "HOLD") {
            "Holding".to_string()
        } else if str_eq(code, "CROSS") {
            "Crosschecking".to_string()
        } else if str_eq(code, "GK-INTRF") {
            "Goalkeeper Interference".to_string()
        } else if str_eq(code, "BOARD") {
            "Boarding".to_string()
        } else if str_eq(code, "DELAY") {
            "Delay the game".to_string()
        } else if str_eq(code, "KNEE") {
            "Kneeing".to_string()
        } else if str_eq(code, "SLASH") {
            "Slashing".to_string()
        } else {
            self.offence.clone()
        }
    }
}

/// A goalkeeper change of the live stream.
#[derive(Debug)]
pub struct GoalkeeperType {
    pub time: String,
    pub gameState: String,
}

/// What a `GoalkeeperType` holds.
pub struct GoalkeeperTypeView {
    pub time: Seq<char>,
    pub gameState: Seq<char>,
}

impl View for GoalkeeperType {
    type V = GoalkeeperTypeView;

    open spec fn view(&self) -> GoalkeeperTypeView {
        GoalkeeperTypeView { time: self.time@, gameState: self.gameState@ }
    }
}

/// The payload of a live event, by its type.
#[derive(Debug)]
pub enum EventType {
    Shot(ShotType),
    Period(PeriodType),
    Goal(ShotType),
    Penalty(PenaltyType),
    Goalkeeper(GoalkeeperType),
    Unknown,
}

/// What an `EventType` holds.
pub enum EventTypeView {
    Shot(ShotTypeView),
    Period(PeriodType),
    Goal(ShotTypeView),
    Penalty(PenaltyTypeView),
    Goalkeeper(GoalkeeperTypeView),
    Unknown,
}

impl View for EventType {
    type V = EventTypeView;

    open spec fn view(&self) -> EventTypeView {
        match self {
            EventType::Shot(s) => EventTypeView::Shot(s@),
            EventType::Period(p) => EventTypeView::Period(*p),
            EventType::Goal(s) => EventTypeView::Goal(s@),
            EventType::Penalty(p) => EventTypeView::Penalty(p@),
            EventType::Goalkeeper(g) => EventTypeView::Goalkeeper(g@),
            EventType::Unknown => EventTypeView::Unknown,
        }
    }
}

impl Clone for EventType {
    fn clone(&self) -> (copy: Self)
        ensures
            copy@ == self@,
    {
        match self {
            EventType::Shot(s) => EventType::Shot(s.clone()),
            EventType::Period(p) => EventType::Period(*p),
            EventType::Goal(s) => EventType::Goal(s.clone()),
            EventType::Penalty(p) => EventType::Penalty(p.clone()),
            EventType::Goalkeeper(g) => EventType::Goalkeeper(
                GoalkeeperType { time: g.time.clone(), gameState: g.gameState.clone() },
            ),
            EventType::Unknown => EventType::Unknown,
        }
    }
}

/// One event of the live stream.
#[derive(Debug)]
pub struct LiveEvent {
    pub gameUuid: String,
    pub eventId: Option<StringOrNum>,
    pub period: StringOrNum,
    pub eventType: Option<EventType>,
}

/// What a `LiveEvent` holds.
pub struct LiveEventView {
    pub gameUuid: Seq<char>,
    pub eventId: Option<StringOrNumView>,
    pub period: StringOrNumView,
    pub eventType: Option<EventTypeView>,
}

impl View for LiveEvent {
    type V = LiveEventView;

    open spec fn view(&self) -> LiveEventView {
        LiveEventView {
            gameUuid: self.gameUuid@,
            eventId: match self.eventId {
                Some(id) => Some(id@),
                None => None,
            },
            period: self.period@,
            eventType: match self.eventType {
                Some(t) => Some(t@),
                None => None,
            },
        }
    }
}

impl Clone for LiveEvent {
    fn clone(&self) -> (copy: Self)
        ensures
            copy@ == self@,
    {
        LiveEvent {
            gameUuid: self.gameUuid.clone(),
            eventId: match &self.eventId {
                Some(id) => Some(id.clone()),
                None => None,
            },
            period: self.period.clone(),
            eventType: match &self.eventType {
                Some(t) => Some(t.clone()),
                None => None,
            },
        }
    }
}

impl LiveEventView {
    /// The payload, `Unknown` where the event carries none.
    pub open spec fn kind(self) -> EventTypeView {
        match self.eventType {
            Some(t) => t,
            None => EventTypeView::Unknown,
        }
    }

    /// The id under which the event is stored. A period event has no id of
    /// its own: its id is made of whether the period starts or ends and of
    /// the period, so that a repeated announcement maps to the same id.
    pub open spec fn event_id(self) -> Seq<char> {
        match self.kind() {
            EventTypeView::Period(p) => if p.finished {
                "PeriodEnd "@ + self.period.text()
            } else {
                "PeriodStart "@ + self.period.text()
            },
            _ => match self.eventId {
                Some(id) => id.text(),
                None => "eventId"@,
            },
        }
    }
}

impl EventTypeView {
    /// The payload in one line: for a goal, penalty or shot the team, the
    /// score board and the game time.
    pub open spec fn line(self) -> Seq<char> {
        match self {
            EventTypeView::Goal(e) => "Goal for "@ + play_line(
                e.eventTeam,
                e.homeTeam,
                e.awayTeam,
                e.time,
            ),
            EventTypeView::Penalty(e) => "Penalty for "@ + play_line(
                e.eventTeam,
                e.homeTeam,
                e.awayTeam,
                e.time,
            ),
            EventTypeView::Shot(e) => "Shot for "@ + play_line(
                e.eventTeam,
                e.homeTeam,
                e.awayTeam,
                e.time,
            ),
            EventTypeView::Period(_) => "Period"@,
            EventTypeView::Goalkeeper(e) => "Goalkeeper :: "@ + e.gameState + " "@ + e.time,
            EventTypeView::Unknown => "Unknown"@,
        }
    }
}

/// The team, the score board and the game time of a play in one line.
pub open spec fn play_line(
    team: Seq<char>,
    home: LiveEventTeamView,
    away: LiveEventTeamView,
    time: Seq<char>,
) -> Seq<char> {
    team + " :: "@ + home.teamId + " "@ + home.score.text() + " - "@ + away.score.text() + " "@
        + away.teamId + " :: "@ + time
}

fn write_play(
    head: &str,
    team: &EventTeam,
    home: &LiveEventTeam,
    away: &LiveEventTeam,
    time: &String,
) -> (line: String)
    ensures
        line@ == head@ + play_line(team@, home@, away@, time@),
{
    let mut line = head.to_string();
    let ghost start = line@;
    line.append(team.teamId.as_str());
    line.append(" :: ");
    line.append(home.teamId.as_str());
    line.append(" ");
    line.append(home.score.to_str().as_str());
    line.append(" - ");
    line.append(away.score.to_str().as_str());
    line.append(" ");
    line.append(away.teamId.as_str());
    line.append(" :: ");
    line.append(time.as_str());
    assert(line@ =~= start + play_line(team@, home@, away@, time@));
    line
}

impl EventType {
    /// The payload in one line.
    pub fn to_string(&self) -> (line: String)
        ensures
            line@ == self@.line(),
    {
        match self {
            EventType::Goal(e) => write_play("Goal for ", &e.eventTeam, &e.homeTeam, &e.awayTeam, &e.time),
            EventType::Penalty(e) => write_play(
                "Penalty for ",
                &e.eventTeam,
                &e.homeTeam,
                &e.awayTeam,
                &e.time,
            ),
            EventType::Shot(e) => write_play("Shot for ", &e.eventTeam, &e.homeTeam, &e.awayTeam, &e.time),
            EventType::Period(_) => "Period".to_string(),
            EventType::Goalkeeper(e) => {
                let mut line = "Goalkeeper :: ".to_string();
                line.append(e.gameState.as_str());
                line.append(" ");
                line.append(e.time.as_str());
                line
            },
            EventType::Unknown => "Unknown".to_string(),
        }
    }
}

impl LiveEventView {
    /// The event in one line: its payload, and for a period event the
    /// period.
    pub open spec fn line(self) -> Seq<char> {
        match self.kind() {
            EventTypeView::Period(_) => self.kind().line() + " "@ + self.period.text(),
            _ => self.kind().line(),
        }
    }
}

impl LiveEvent {
    /// The event in one line.
    pub fn to_string(&self) -> (line: String)
        ensures
            line@ == self@.line(),
    {
        let mut line = self.get_event_type().to_string();
        match self.get_event_type() {
            EventType::Period(_) => {
                line.append(" ");
                line.append(self.period.to_str().as_str());
            },
            _ => {},
        }
        line
    }

    /// The payload, `Unknown` where the event carries none.
    pub fn get_event_type(&self) -> (kind: &EventType)
        ensures
            kind@ == self@.kind(),
            self.eventType matches Some(t) ==> *kind == t,
    {
        match &self.eventType {
            Some(e) => e,
            None => &EventType::Unknown,
        }
    }

    /// The id under which the event is stored.
    pub fn get_event_id(&self) -> (id: String)
        ensures
            id@ == self@.event_id(),
    {
        match self.get_event_type() {
            EventType::Period(e) => {
                let mut id = if e.finished {
                    "PeriodEnd ".to_string()
                } else {
                    "PeriodStart ".to_string()
                };
                id.append(self.period.to_str().as_str());
                id
            },
            _ => match &self.eventId {
                Some(e) => e.to_str(),
                None => "eventId".to_string(),
            },
        }
    }
}

/// One counter of a team's statistics.
#[derive(Debug)]
pub struct StatsValue {
    pub caption: String,
    pub value: Option<StringOrNum>,
}

/// A team's statistics of one period; period 0 stands for the whole game.
#[derive(Debug)]
pub struct PeriodStats {
    pub period: StringOrNum,
    pub parsedTotalStatistics: Vec<StatsValue>,
}

/// A team's statistics as the live stream sends them.
#[derive(Debug)]
pub struct TeamStatistics {
    pub gameUuid: String,
    pub teamId: String,
    pub statistics: Vec<PeriodStats>,
}

/// The index of the first period of `stats` that stands for the whole game,
/// or the length of `stats` where there is none.
pub open spec fn total_index(stats: Seq<PeriodStats>) -> int
    decreases stats.len(),
{
    if stats.len() == 0 {
        0
    } else if stats[0].period@.num() == 0 {
        0
    } else {
        1 + total_index(stats.drop_first())
    }
}

/// The index of the first counter of `values` with the caption `caption`, or
/// the length of `values` where there is none.
pub open spec fn caption_index(values: Seq<StatsValue>, caption: Seq<char>) -> int
    decreases values.len(),
{
    if values.len() == 0 {
        0
    } else if values[0].caption@ == caption {
        0
    } else {
        1 + caption_index(values.drop_first(), caption)
    }
}

/// The value of the counter `caption` over the whole game: that of the first
/// counter of that caption in the first period numbered 0, where both exist
/// and the counter holds a value.
pub open spec fn total_of(stats: Seq<PeriodStats>, caption: Seq<char>) -> Option<i16> {
    let p = total_index(stats);
    if p >= stats.len() {
        None
    } else {
        let values = stats[p].parsedTotalStatistics@;
        let c = caption_index(values, caption);
        if c >= values.len() {
            None
        } else {
            match values[c].value {
                Some(v) => Some(v@.num()),
                None => None,
            }
        }
    }
}

proof fn lemma_total_index_prefix(stats: Seq<PeriodStats>, i: int)
    requires
        0 <= i <= stats.len(),
        forall|j: int| 0 <= j < i ==> (#[trigger] stats[j]).period@.num() != 0,
    ensures
        i <= total_index(stats) <= stats.len(),
        i < stats.len() && stats[i].period@.num() == 0 ==> total_index(stats) == i,
    decreases stats.len(),
{
    if stats.len() > 0 {
        let rest = stats.drop_first();
        if i > 0 {
            assert(stats[0].period@.num() != 0);
            assert forall|j: int| 0 <= j < i - 1 implies (#[trigger] rest[j]).period@.num()
                != 0 by {
                assert(rest[j] == stats[j + 1]);
            }
            lemma_total_index_prefix(rest, i - 1);
        } else if stats[0].period@.num() != 0 {
            lemma_total_index_prefix(rest, 0);
        }
    }
}

proof fn lemma_caption_index_prefix(values: Seq<StatsValue>, caption: Seq<char>, i: int)
    requires
        0 <= i <= values.len(),
        forall|j: int| 0 <= j < i ==> (#[trigger] values[j]).caption@ != caption,
    ensures
        i <= caption_index(values, caption) <= values.len(),
        i < values.len() && values[i].caption@ == caption ==> caption_index(values, caption) == i,
    decreases values.len(),
{
    if values.len() > 0 {
        let rest = values.drop_first();
        if i > 0 {
            assert(values[0].caption@ != caption);
            assert forall|j: int| 0 <= j < i - 1 implies (#[trigger] rest[j]).caption@
                != caption by {
                assert(rest[j] == values[j + 1]);
            }
            lemma_caption_index_prefix(rest, caption, i - 1);
        } else if values[0].caption@ != caption {
            lemma_caption_index_prefix(rest, caption, 0);
        }
    }
}

impl TeamStatistics {
    /// The value of the counter `caption` over the whole game.
    pub fn get_total(&self, caption: &str) -> (total: Option<i16>)
        ensures
            total == total_of(self.statistics@, caption@),
    {
        let mut p: usize = 0;
        while p < self.statistics.len()
            invariant
                p <= self.statistics.len(),
                forall|j: int| 0 <= j < p ==> (#[trigger] self.statistics@[j]).period@.num() != 0,
            decreases self.statistics.len() - p,
        {
            proof {
                lemma_total_index_prefix(self.statistics@, p as int);
            }
            if self.statistics[p].period.to_num() == 0 {
                let values = &self.statistics[p].parsedTotalStatistics;
                let mut c: usize = 0;
                while c < values.len()
                    invariant
                        c <= values.len(),
                        forall|j: int| 0 <= j < c ==> (#[trigger] values@[j]).caption@ != caption@,
                        total_index(self.statistics@) == p,
                        p < self.statistics.len(),
                        values@ == self.statistics@[p as int].parsedTotalStatistics@,
                    decreases values.len() - c,
                {
                    proof {
                        lemma_caption_index_prefix(values@, caption@, c as int);
                    }
                    if str_eq(values[c].caption.as_str(), caption) {
                        return match &values[c].value {
                            Some(v) => Some(v.to_num()),
                            None => None,
                        };
                    }
                    c += 1;
                }
                proof {
                    lemma_caption_index_prefix(values@, caption@, c as int);
                }
                return None;
            }
            p += 1;
        }
        proof {
            lemma_total_index_prefix(self.statistics@, p as int);
        }
        None
    }

    /// The team's goals over the whole game.
    pub fn get_score(&self) -> (score: Option<i16>)
        ensures
            score == total_of(self.statistics@, "G"@),
    {
        self.get_total("G")
    }

    /// The goals against the team over the whole game.
    pub fn get_opponent_score(&self) -> (score: Option<i16>)
        ensures
            score == total_of(self.statistics@, "GA"@),
    {
        self.get_total("GA")
    }

    /// The team's code.
    pub fn get_team_id(&self) -> (id: String)
        ensures
            id@ == self.teamId@,
    {
        self.teamId.clone()
    }
}

/// One frame of the live stream: any of its parts may be present.
#[derive(Debug)]
pub struct SseEvent {
    pub gameReport: Option<GameReport>,
    pub playByPlay: Option<Action>,
    pub gameTime: Option<SseGameTime>,
    pub liveEvent: Option<LiveEvent>,
    pub teamStatistics: Option<TeamStatistics>,
    pub liveState: Option<LiveStateEvent>,
}

impl Default for SseEvent {
    fn default() -> (empty: Self)
        ensures
            empty.gameReport is None,
            empty.playByPlay is None,
            empty.gameTime is None,
            empty.liveEvent is None,
            empty.teamStatistics is None,
            empty.liveState is None,
    {
        SseEvent {
            gameReport: None,
            playByPlay: None,
            gameTime: None,
            liveEvent: None,
            teamStatistics: None,
            liveState: None,
        }
    }
}

} // verus!
