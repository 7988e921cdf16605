//! A game of a season with its live projection, and the point in time at
//! which it starts.

use vstd::prelude::*;
use crate::models::{GameType, League, Season};
use crate::report::{ApiGameReport, GameStatus, ReportView};
use crate::text::{clone_opt_text, opt_text};
use crate::vote::ApiVotePerGame;

verus! {

/// A point in time: whole seconds since the start of 1970 in UTC, and the
/// nanoseconds within the second.
#[derive(Clone, Copy, Debug, PartialEq, Eq, Structural)]
pub struct Timestamp {
    pub secs: i64,
    pub nanos: u32,
}

impl Timestamp {
    /// Whether this point lies before `other` moved `shift` seconds on.
    pub open spec fn precedes(self, other: Timestamp, shift: int) -> bool {
        self.secs < other.secs + shift || (self.secs == other.secs + shift && self.nanos
            < other.nanos)
    }

    /// Whether this point lies before `other` moved `shift` seconds on.
    pub fn is_before(&self, other: &Timestamp, shift: i64) -> (before: bool)
        ensures
            before == self.precedes(*other, shift as int),
    {
        let limit: i128 = other.secs as i128 + shift as i128;
        let own: i128 = self.secs as i128;
        own < limit || (own == limit && self.nanos < other.nanos)
    }

    /// The current time, read with `chrono::Utc::now`. Trusted; nothing is
    /// claimed of the time that comes back.
    #[verifier::external_body]
    pub(crate) fn now() -> (now: Timestamp) {
        let now = chrono::Utc::now();
        Timestamp { secs: now.timestamp(), nanos: now.timestamp_subsec_nanos() }
    }
}

/// A game of a season, with its live projection.
#[derive(Debug)]
pub struct ApiGame {
    pub game_uuid: String,
    pub home_team_code: String,
    pub away_team_code: String,
    pub home_team_result: i16,
    pub away_team_result: i16,
    pub start_date_time: Timestamp,
    pub status: GameStatus,
    pub shootout: bool,
    pub overtime: bool,
    pub played: bool,
    pub game_type: GameType,
    pub league: League,
    pub season: Season,
    pub gametime: Option<String>,
    pub votes: Option<ApiVotePerGame>,
}

/// What an `ApiGame` holds.
pub struct GameView {
    pub game_uuid: Seq<char>,
    pub home_team_code: Seq<char>,
    pub away_team_code: Seq<char>,
    pub home_team_result: i16,
    pub away_team_result: i16,
    pub start_date_time: Timestamp,
    pub status: GameStatus,
    pub shootout: bool,
    pub overtime: bool,
    pub played: bool,
    pub game_type: GameType,
    pub league: League,
    pub season: Season,
    pub gametime: Option<Seq<char>>,
    pub votes: Option<ApiVotePerGame>,
}

impl View for ApiGame {
    type V = GameView;

    open spec fn view(&self) -> GameView {
        GameView {
            game_uuid: self.game_uuid@,
            home_team_code: self.home_team_code@,
            away_team_code: self.away_team_code@,
            home_team_result: self.home_team_result,
            away_team_result: self.away_team_result,
            start_date_time: self.start_date_time,
            status: self.status,
            shootout: self.shootout,
            overtime: self.overtime,
            played: self.played,
            game_type: self.game_type,
            league: self.league,
            season: self.season,
            gametime: opt_text(self.gametime),
            votes: self.votes,
        }
    }
}

impl Clone for ApiGame {
    fn clone(&self) -> (copy: Self)
        ensures
            copy@ == self@,
    {
        ApiGame {
            game_uuid: self.game_uuid.clone(),
            home_team_code: self.home_team_code.clone(),
            away_team_code: self.away_team_code.clone(),
            home_team_result: self.home_team_result,
            away_team_result: self.away_team_result,
            start_date_time: self.start_date_time,
            status: self.status,
            shootout: self.shootout,
            overtime: self.overtime,
            played: self.played,
            game_type: self.game_type,
            league: self.league,
            season: self.season,
            gametime: clone_opt_text(&self.gametime),
            votes: self.votes,
        }
    }
}

/// The view of an optional game.
pub open spec fn opt_game(game: Option<ApiGame>) -> Option<GameView> {
    match game {
        Some(g) => Some(g@),
        None => None,
    }
}

impl GameView {
    /// Whether the game may be live at `now`: it is not finished, and it
    /// starts less than three minutes after `now`.
    pub open spec fn potentially_live_at(self, now: Timestamp) -> bool {
        self.status != GameStatus::Finished && self.start_date_time.precedes(now, 180)
    }

    /// The report that stands for the game while none is stored: the game's
    /// own projection, with the game time `00:00` where the game has none.
    pub open spec fn default_report(self) -> ReportView {
        ReportView {
            game_uuid: self.game_uuid,
            gametime: match self.gametime {
                Some(t) => t,
                None => "00:00"@,
            },
            status: self.status,
            home_team_code: self.home_team_code,
            away_team_code: self.away_team_code,
            home_team_result: self.home_team_result,
            away_team_result: self.away_team_result,
            overtime: Some(self.overtime),
            shootout: Some(self.shootout),
        }
    }

    /// The game with `report` laid over its live projection. A flag of which
    /// the report knows nothing stays as it is.
    pub open spec fn with_report(self, report: ReportView) -> GameView {
        GameView {
            status: report.status,
            played: report.status == GameStatus::Finished,
            home_team_result: report.home_team_result,
            away_team_result: report.away_team_result,
            overtime: match report.overtime {
                Some(b) => b,
                None => self.overtime,
            },
            shootout: match report.shootout {
                Some(b) => b,
                None => self.shootout,
            },
            gametime: Some(report.gametime),
            ..self
        }
    }
}

impl ApiGame {
    /// Whether the game may be live at `now`.
    pub fn is_potentially_live_at(&self, now: Timestamp) -> (live: bool)
        ensures
            live == self@.potentially_live_at(now),
    {
        self.status != GameStatus::Finished && self.start_date_time.is_before(&now, 180)
    }

    /// Whether the game may be live now.
    pub fn is_potentially_live(&self) -> (live: bool)
        ensures
            self@.status == GameStatus::Finished ==> !live,
            exists|now: Timestamp| live == self@.potentially_live_at(now),
    {
        let now = Timestamp::now();
        self.is_potentially_live_at(now)
    }

    /// Lays `report` over the game's live projection.
    pub fn apply_report(&mut self, report: &ApiGameReport)
        ensures
            final(self)@ == old(self)@.with_report(report@),
    {
        self.status = report.status;
        self.played = report.status == GameStatus::Finished;
        self.home_team_result = report.home_team_result;
        self.away_team_result = report.away_team_result;
        self.overtime = match report.overtime {
            Some(b) => b,
            None => self.overtime,
        };
        self.shootout = match report.shootout {
            Some(b) => b,
            None => self.shootout,
        };
        self.gametime = Some(report.gametime.clone());
    }
}

impl ApiGameReport {
    /// The report that stands for `game` while none is stored.
    pub fn default_from(game: ApiGame) -> (report: ApiGameReport)
        ensures
            report@ == game@.default_report(),
    {
        ApiGameReport {
            game_uuid: game.game_uuid,
            gametime: match game.gametime {
                Some(t) => t,
                None => "00:00".to_string(),
            },
            status: game.status,
            home_team_code: game.home_team_code,
            away_team_code: game.away_team_code,
            home_team_result: game.home_team_result,
            away_team_result: game.away_team_result,
            overtime: Some(game.overtime),
            shootout: Some(game.shootout),
        }
    }
}

} // verus!
