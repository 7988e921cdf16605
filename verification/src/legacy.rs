//! The shapes in which an earlier client still reads games, events and
//! players.

use vstd::prelude::*;
use crate::athlete::{ApiAthlete, ApiAthleteStats};
use crate::details::ApiGameDetails;
use crate::event::{ApiEventType, ApiGameEvent, EventInfoView, EventView, PlayerView};
use crate::game::{ApiGame, GameView, Timestamp};
use crate::models::{GameType, Season};
use crate::report::GameStatus;
use crate::text::{clone_opt_text, opt_text};

verus! {

/// The statistics of a period.
#[derive(Clone, Copy, Debug, PartialEq, Eq, Structural)]
pub struct LegacyPeriod {
    pub periodNumber: i32,
    pub homeG: i32,
    pub awayG: i32,
    pub homeHits: i32,
    pub homeSOG: i32,
    pub homePIM: i32,
    pub homeFOW: i32,
    pub awayHits: i32,
    pub awaySOG: i32,
    pub awayPIM: i32,
    pub awayFOW: i32,
}

/// The statistics of a game.
#[derive(Clone, Copy, Debug, PartialEq, Eq, Structural)]
pub struct LegacyRecaps {
    pub gameRecap: LegacyPeriod,
}

/// The clock of a game.
#[derive(Debug)]
pub struct LegacyGameReport {
    pub gametime: String,
    pub timePeriod: u8,
    pub period: u8,
    pub gameState: String,
}

/// A player of an event.
#[derive(Debug)]
pub struct LegacyPlayer {
    pub firstName: String,
    pub familyName: String,
    pub jersey: i32,
}

/// What an event tells.
#[derive(Debug)]
pub struct LegacyGameEventInfo {
    pub homeTeamId: String,
    pub awayTeamId: String,
    pub homeResult: i16,
    pub awayResult: i16,
    pub team: Option<String>,
    pub player: Option<LegacyPlayer>,
    pub teamAdvantage: Option<String>,
    pub periodNumber: i16,
    pub penalty: Option<i16>,
    pub penaltyLong: Option<String>,
    pub reason: Option<String>,
}

/// An event of a game.
#[derive(Debug)]
pub struct LegacyGameEvent {
    pub event_type: String,
    pub info: LegacyGameEventInfo,
    pub timestamp: Timestamp,
    pub id: String,
    pub gametime: String,
}

/// The details of a game.
#[derive(Debug)]
pub struct LegacyGameDetails {
    pub recaps: LegacyRecaps,
    pub gameState: String,
    pub events: Vec<LegacyGameEvent>,
    pub status: GameStatus,
    pub report: Option<LegacyGameReport>,
}

/// A game of a season.
#[derive(Debug)]
pub struct LegacyGame {
    pub game_uuid: String,
    pub game_id: u8,
    pub home_team_code: String,
    pub away_team_code: String,
    pub home_team_result: i16,
    pub away_team_result: i16,
    pub start_date_time: Timestamp,
    pub status: GameStatus,
    pub penalty_shots: bool,
    pub overtime: bool,
    pub played: bool,
    pub game_type: String,
    pub season: Season,
    pub gametime: Option<String>,
}

/// A player with his statistics.
#[derive(Debug)]
pub struct LegacyPlayerStats {
    pub player: i32,
    pub team: String,
    pub firstName: String,
    pub familyName: String,
    pub position: String,
    pub jersey: i32,
    pub gp: Option<i32>,
    pub rank: Option<i32>,
    pub toi: Option<String>,
    pub g: Option<i32>,
    pub a: Option<i32>,
    pub sog: Option<i32>,
    pub pim: Option<i32>,
    pub toiSeconds: Option<i32>,
    pub pop: Option<i32>,
    pub nep: Option<i32>,
    pub tot_svs: Option<i32>,
    pub tot_ga: Option<i32>,
    pub tot_soga: Option<i32>,
}

/// The name of a game type as the earlier client knows it.
pub open spec fn legacy_game_type(e: GameType) -> Seq<char> {
    match e {
        GameType::Season => "Regular season game"@,
        GameType::PlayOff => "Playoff game"@,
        GameType::Demotion => "Kvalmatch nedflyttning"@,
    }
}

/// The name of a game type as the earlier client knows it.
pub fn get_legacy_game_type(e: GameType) -> (name: String)
    ensures
        name@ == legacy_game_type(e),
{
    match e {
        GameType::Season => "Regular season game".to_string(),
        GameType::PlayOff => "Playoff game".to_string(),
        GameType::Demotion => "Kvalmatch nedflyttning".to_string(),
    }
}

/// The time on ice that the earlier client is shown: a fixed text for a
/// skater, none for a goalkeeper.
pub fn get_toi_string(e: ApiAthleteStats) -> (toi: Option<String>)
    ensures
        match e {
            ApiAthleteStats::Player(_) => toi matches Some(t) && t@ == "13.27"@,
            ApiAthleteStats::Goalkeeper(_) => toi is None,
        },
{
    match e {
        ApiAthleteStats::Player(_) => Some("13.27".to_string()),
        _ => None,
    }
}

/// The number of the period that a status stands for.
pub open spec fn period_number(status: GameStatus) -> i16 {
    match status {
        GameStatus::Period1 => 1,
        GameStatus::Period2 => 2,
        GameStatus::Period3 => 3,
        GameStatus::Overtime => 4,
        GameStatus::Shootout => 99,
        _ => 1,
    }
}

impl LegacyGame {
    /// The game as the earlier client reads it.
    pub fn from(e: ApiGame) -> (game: LegacyGame)
        ensures
            game.game_uuid@ == e@.game_uuid,
            game.game_id == 123,
            game.home_team_code@ == e@.home_team_code,
            game.away_team_code@ == e@.away_team_code,
            game.home_team_result == e.home_team_result,
            game.away_team_result == e.away_team_result,
            game.start_date_time == e.start_date_time,
            game.status == e.status,
            game.penalty_shots == e.shootout,
            game.overtime == e.overtime,
            game.played == e.played,
            game.game_type@ == legacy_game_type(e.game_type),
            game.season == e.season,
            opt_text(game.gametime) == e@.gametime,
    {
        LegacyGame {
            game_uuid: e.game_uuid,
            game_id: 123,
            home_team_code: e.home_team_code,
            away_team_code: e.away_team_code,
            home_team_result: e.home_team_result,
            away_team_result: e.away_team_result,
            start_date_time: e.start_date_time,
            status: e.status,
            penalty_shots: e.shootout,
            overtime: e.overtime,
            played: e.played,
            game_type: get_legacy_game_type(e.game_type),
            season: e.season,
            gametime: e.gametime,
        }
    }
}

impl LegacyPlayerStats {
    /// The athlete as the earlier client reads him: the counters of his kind
    /// are set; the others, his rank and his time on ice as a text are not.
    pub fn from(e: &ApiAthlete) -> (stats: LegacyPlayerStats)
        ensures
            stats.player == e.id,
            stats.team@ == e@.team_code,
            stats.firstName@ == e@.first_name,
            stats.familyName@ == e@.family_name,
            stats.position@ == e@.position,
            stats.jersey == e.jersey,
            stats.rank is None,
            stats.toi is None,
            stats.nep is None,
            match e.stats {
                ApiAthleteStats::Player(p) => stats.gp == Some(p.gp) && stats.g == Some(p.g)
                    && stats.a == Some(p.a) && stats.sog == Some(p.sog) && stats.pim == Some(p.pim)
                    && stats.toiSeconds == Some(p.toi_s) && stats.pop == Some(p.plus_minus)
                    && stats.tot_svs is None && stats.tot_ga is None && stats.tot_soga is None,
                ApiAthleteStats::Goalkeeper(k) => stats.gp == Some(k.gp) && stats.g is None
                    && stats.a is None && stats.sog is None && stats.pim is None
                    && stats.toiSeconds is None && stats.pop is None && stats.tot_svs == Some(
                    k.svs,
                ) && stats.tot_ga == Some(k.ga) && stats.tot_soga == Some(k.soga),
            },
    {
        let (player_stats, gk_stats) = match e.stats {
            ApiAthleteStats::Player(p) => (Some(p), None),
            ApiAthleteStats::Goalkeeper(k) => (None, Some(k)),
        };
        LegacyPlayerStats {
            player: e.id,
            team: e.team_code.clone(),
            firstName: e.first_name.clone(),
            familyName: e.family_name.clone(),
            position: e.position.clone(),
            jersey: e.jersey,
            gp: match e.stats {
                ApiAthleteStats::Player(p) => Some(p.gp),
                ApiAthleteStats::Goalkeeper(k) => Some(k.gp),
            },
            rank: None,
            toi: None,
            g: match player_stats {
                Some(p) => Some(p.g),
                None => None,
            },
            a: match player_stats {
                Some(p) => Some(p.a),
                None => None,
            },
            sog: match player_stats {
                Some(p) => Some(p.sog),
                None => None,
            },
            pim: match player_stats {
                Some(p) => Some(p.pim),
                None => None,
            },
            toiSeconds: match player_stats {
                Some(p) => Some(p.toi_s),
                None => None,
            },
            pop: match player_stats {
                Some(p) => Some(p.plus_minus),
                None => None,
            },
            nep: None,
            tot_svs: match gk_stats {
                Some(k) => Some(k.svs),
                None => None,
            },
            tot_ga: match gk_stats {
                Some(k) => Some(k.ga),
                None => None,
            },
            tot_soga: match gk_stats {
                Some(k) => Some(k.soga),
                None => None,
            },
        }
    }
}

/// Whether `legacy` is the event `event` of the game `game` as the earlier
/// client reads it, stamped with the time `now`. A goal carries the score
/// after it; every other event carries the score of the game.
pub open spec fn legacy_event_of(
    legacy: LegacyGameEvent,
    event: EventView,
    game: GameView,
    now: Timestamp,
) -> bool {
    &&& legacy.event_type@ == event.info.name()
    &&& legacy.timestamp == now
    &&& legacy.id@ == event.event_id
    &&& legacy.gametime@ == event.gametime
    &&& legacy.info.homeTeamId@ == game.home_team_code
    &&& legacy.info.awayTeamId@ == game.away_team_code
    &&& legacy.info.periodNumber == period_number(event.status)
    &&& legacy.info.penalty is None
    &&& match event.info {
        EventInfoView::Goal(a) => legacy.info.homeResult == a.home_team_result
            && legacy.info.awayResult == a.away_team_result && opt_text(legacy.info.team) == Some(
            a.team,
        ) && opt_text(legacy.info.teamAdvantage) == Some(a.team_advantage)
            && legacy.info.penaltyLong is None && legacy.info.reason is None && legacy_player(
            legacy.info.player,
        ) == a.player,
        EventInfoView::Penalty(a) => legacy.info.homeResult == game.home_team_result
            && legacy.info.awayResult == game.away_team_result && opt_text(legacy.info.team)
            == Some(a.team) && legacy.info.teamAdvantage is None && opt_text(
            legacy.info.penaltyLong,
        ) == a.penalty && opt_text(legacy.info.reason) == Some(a.reason) && legacy_player(
            legacy.info.player,
        ) == a.player,
        _ => legacy.info.homeResult == game.home_team_result && legacy.info.awayResult
            == game.away_team_result && legacy.info.team is None
            && legacy.info.teamAdvantage is None && legacy.info.penaltyLong is None
            && legacy.info.reason is None && legacy.info.player is None,
    }
}

impl LegacyGameEvent {
    /// The event `event` of the game `game` as the earlier client reads it,
    /// stamped with the time `now`. A goal carries the score after it; every
    /// other event carries the score of the game.
    pub fn from(event: &ApiGameEvent, game: &ApiGame, now: Timestamp) -> (legacy: LegacyGameEvent)
        ensures
            legacy_event_of(legacy, event@, game@, now),
    {
        let (home_result, away_result) = match &event.info {
            ApiEventType::Goal(a) => (a.home_team_result, a.away_team_result),
            _ => (game.home_team_result, game.away_team_result),
        };
        let team = match &event.info {
            ApiEventType::Goal(a) => Some(a.team.clone()),
            ApiEventType::Penalty(a) => Some(a.team.clone()),
            _ => None,
        };
        let player = match &event.info {
            ApiEventType::Goal(a) => &a.player,
            ApiEventType::Penalty(a) => &a.player,
            _ => &None,
        };
        let player = match player {
            Some(e) => Some(
                LegacyPlayer {
                    firstName: e.first_name.clone(),
                    familyName: e.family_name.clone(),
                    jersey: e.jersey,
                },
            ),
            None => None,
        };
        LegacyGameEvent {
            event_type: event.info.to_str().to_string(),
            info: LegacyGameEventInfo {
                homeTeamId: game.home_team_code.clone(),
                awayTeamId: game.away_team_code.clone(),
                homeResult: home_result,
                awayResult: away_result,
                team,
                player,
                teamAdvantage: match &event.info {
                    ApiEventType::Goal(a) => Some(a.team_advantage.clone()),
                    _ => None,
                },
                periodNumber: match event.status {
                    GameStatus::Period1 => 1,
                    GameStatus::Period2 => 2,
                    GameStatus::Period3 => 3,
                    GameStatus::Overtime => 4,
                    GameStatus::Shootout => 99,
                    _ => 1,
                },
                penalty: None,
                penaltyLong: match &event.info {
                    ApiEventType::Penalty(a) => clone_opt_text(&a.penalty),
                    _ => None,
                },
                reason: match &event.info {
                    ApiEventType::Penalty(a) => Some(a.reason.clone()),
                    _ => None,
                },
            },
            timestamp: now,
            id: event.event_id.clone(),
            gametime: event.gametime.clone(),
        }
    }
}

/// The player that a legacy player stands for.
pub open spec fn legacy_player(player: Option<LegacyPlayer>) -> Option<PlayerView> {
    match player {
        Some(p) => Some(
            PlayerView {
                first_name: p.firstName@,
                family_name: p.familyName@,
                jersey: p.jersey,
            },
        ),
        None => None,
    }
}

impl LegacyGameDetails {
    /// The details of a game as the earlier client reads them, stamped with
    /// the time `now`: the statistics of the whole game, 0 where there are
    /// none, the events in their order, and the clock where the game has one.
    pub fn from(value: &ApiGameDetails, now: Timestamp) -> (legacy: LegacyGameDetails)
        ensures
            legacy.gameState@.len() == 0,
            legacy.status == value.game.status,
            legacy.recaps.gameRecap == recap_of(value.stats),
            legacy.events@.len() == value.events@.len(),
            forall|i: int|
                0 <= i < legacy.events@.len() ==> legacy_event_of(
                    #[trigger] legacy.events@[i],
                    value.events@[i]@,
                    value.game@,
                    now,
                ),
            match value.game@.gametime {
                Some(t) => legacy.report matches Some(r) && r.gametime@ == t && r.timePeriod == 0
                    && r.period == 0 && r.gameState@.len() == 0,
                None => legacy.report is None,
            },
    {
        let gameRecap = match value.stats {
            Some(e) => LegacyPeriod {
                periodNumber: 0,
                homeG: e.home.g,
                awayG: e.away.g,
                homeHits: 0,
                homeSOG: e.home.sog,
                homePIM: e.home.pim,
                homeFOW: e.home.fow,
                awayHits: 0,
                awaySOG: e.away.sog,
                awayPIM: e.away.pim,
                awayFOW: e.away.fow,
            },
            None => LegacyPeriod {
                periodNumber: 0,
                homeG: 0,
                awayG: 0,
                homeHits: 0,
                homeSOG: 0,
                homePIM: 0,
                homeFOW: 0,
                awayHits: 0,
                awaySOG: 0,
                awayPIM: 0,
                awayFOW: 0,
            },
        };
        let mut events: Vec<LegacyGameEvent> = Vec::new();
        let mut i: usize = 0;
        while i < value.events.len()
            invariant
                i <= value.events.len(),
                events.len() == i,
                forall|j: int|
                    0 <= j < i ==> legacy_event_of(
                        #[trigger] events@[j],
                        value.events@[j]@,
                        value.game@,
                        now,
                    ),
            decreases value.events.len() - i,
        {
            events.push(LegacyGameEvent::from(&value.events[i], &value.game, now));
            i += 1;
        }
        LegacyGameDetails {
            recaps: LegacyRecaps { gameRecap },
            gameState: String::new(),
            events,
            status: value.game.status,
            report: match &value.game.gametime {
                Some(e) => Some(
                    LegacyGameReport {
                        gametime: e.clone(),
                        timePeriod: 0,
                        period: 0,
                        gameState: String::new(),
                    },
                ),
                None => None,
            },
        }
    }
}

/// The statistics of a whole game as the earlier client reads them.
pub open spec fn recap_of(stats: Option<crate::stats::ApiGameStats>) -> LegacyPeriod {
    match stats {
        Some(e) => LegacyPeriod {
            periodNumber: 0,
            homeG: e.home.g,
            awayG: e.away.g,
            homeHits: 0,
            homeSOG: e.home.sog,
            homePIM: e.home.pim,
            homeFOW: e.home.fow,
            awayHits: 0,
            awaySOG: e.away.sog,
            awayPIM: e.away.pim,
            awayFOW: e.away.fow,
        },
        None => LegacyPeriod {
            periodNumber: 0,
            homeG: 0,
            awayG: 0,
            homeHits: 0,
            homeSOG: 0,
            homePIM: 0,
            homeFOW: 0,
            awayHits: 0,
            awaySOG: 0,
            awayPIM: 0,
            awayFOW: 0,
        },
    }
}

} // verus!
