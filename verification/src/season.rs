//! The provider's schedule of a season, and the games that are made of it.

use vstd::prelude::*;
use crate::game::{ApiGame, GameView, Timestamp};
use crate::models::{League, SeasonKey, StringOrNum, StringOrNumView};
use crate::report::{ApiGameReport, GameStatus, ReportView};
use crate::text::str_eq;
use crate::vote::{ApiVotePerGame, VotePerGame, vote_percentages};

verus! {

/// The team code that stands where the provider names no team yet.
pub fn default_TBD() -> (code: String)
    ensures
        code@ == "TBD"@,
{
    "TBD".to_string()
}

/// The three names of a team.
#[derive(Debug)]
pub struct TeamNames {
    pub code: String,
    pub long: String,
    pub short: String,
}

/// What a `TeamNames` holds.
pub struct TeamNamesView {
    pub code: Seq<char>,
    pub long: Seq<char>,
    pub short: Seq<char>,
}

impl View for TeamNames {
    type V = TeamNamesView;

    open spec fn view(&self) -> TeamNamesView {
        TeamNamesView { code: self.code@, long: self.long@, short: self.short@ }
    }
}

/// A team of a scheduled game, with its score.
#[derive(Debug)]
pub struct GameTeamInfo {
    pub code: String,
    pub score: StringOrNum,
    pub names: TeamNames,
}

/// What a `GameTeamInfo` holds.
pub struct GameTeamInfoView {
    pub code: Seq<char>,
    pub score: StringOrNumView,
    pub names: TeamNamesView,
}

impl View for GameTeamInfo {
    type V = GameTeamInfoView;

    open spec fn view(&self) -> GameTeamInfoView {
        GameTeamInfoView { code: self.code@, score: self.score@, names: self.names@ }
    }
}

impl GameTeamInfoView {
    /// The team's code. The provider's placeholder `HERR` gives way to the
    /// code among the team's names.
    pub open spec fn team_code(self) -> Seq<char> {
        if self.code == "HERR"@ {
            self.names.code
        } else {
            self.code
        }
    }
}

impl GameTeamInfo {
    /// The team's code.
    pub fn get_code(&self) -> (code: String)
        ensures
            code@ == self@.team_code(),
    {
        if str_eq(self.code.as_str(), "HERR") {
            self.names.code.clone()
        } else {
            self.code.clone()
        }
    }
}

/// The league of a scheduled game.
#[derive(Clone, Copy, Debug)]
pub struct SeriesInfo {
    pub code: League,
}

/// A game as the provider schedules it.
#[derive(Debug)]
pub struct SeasonGame {
    pub uuid: String,
    pub awayTeamInfo: GameTeamInfo,
    pub homeTeamInfo: GameTeamInfo,
    pub startDateTime: Timestamp,
    pub state: String,
    pub shootout: bool,
    pub overtime: bool,
    pub seriesInfo: SeriesInfo,
}

/// What a `SeasonGame` holds.
pub struct SeasonGameView {
    pub uuid: Seq<char>,
    pub awayTeamInfo: GameTeamInfoView,
    pub homeTeamInfo: GameTeamInfoView,
    pub startDateTime: Timestamp,
    pub state: Seq<char>,
    pub shootout: bool,
    pub overtime: bool,
    pub seriesInfo: SeriesInfo,
}

impl View for SeasonGame {
    type V = SeasonGameView;

    open spec fn view(&self) -> SeasonGameView {
        SeasonGameView {
            uuid: self.uuid@,
            awayTeamInfo: self.awayTeamInfo@,
            homeTeamInfo: self.homeTeamInfo@,
            startDateTime: self.startDateTime,
            state: self.state@,
            shootout: self.shootout,
            overtime: self.overtime,
            seriesInfo: self.seriesInfo,
        }
    }
}

/// What is known of a team beyond its names.
#[derive(Debug)]
pub struct TeamInfo {
    pub golds: Option<String>,
    pub retiredNumbers: Option<String>,
    pub founded: Option<String>,
}

/// A team of a season.
#[derive(Debug)]
pub struct SeasonTeam {
    pub teamCode: String,
    pub teamInfo: Option<TeamInfo>,
    pub teamNames: TeamNames,
}

/// The provider's answer for one season, league and game type.
#[derive(Debug)]
pub struct SeasonRsp {
    pub gameInfo: Vec<SeasonGame>,
    pub teamList: Vec<SeasonTeam>,
}

impl Default for SeasonRsp {
    fn default() -> (empty: Self)
        ensures
            empty.gameInfo@.len() == 0,
            empty.teamList@.len() == 0,
    {
        SeasonRsp { gameInfo: Vec::new(), teamList: Vec::new() }
    }
}

impl SeasonGameView {
    /// Whether the scheduled game may be live at `now`: the provider still
    /// calls it `pre-game`, and it starts less than five minutes after `now`.
    pub open spec fn potentially_live_at(self, now: Timestamp) -> bool {
        self.state == "pre-game"@ && self.startDateTime.precedes(now, 300)
    }

    /// The status that the schedule alone gives the game: `Finished` where
    /// the provider calls it `post-game`, else `Coming`.
    pub open spec fn base_status(self) -> GameStatus {
        if self.state == "post-game"@ {
            GameStatus::Finished
        } else {
            GameStatus::Coming
        }
    }

    /// The game that the schedule alone gives.
    pub open spec fn base_game(self, key: SeasonKey, votes: Option<VotePerGame>) -> GameView {
        GameView {
            game_uuid: self.uuid,
            home_team_code: self.homeTeamInfo.team_code(),
            away_team_code: self.awayTeamInfo.team_code(),
            home_team_result: self.homeTeamInfo.score.num(),
            away_team_result: self.awayTeamInfo.score.num(),
            start_date_time: self.startDateTime,
            played: self.base_status() == GameStatus::Finished,
            shootout: self.shootout,
            overtime: self.overtime,
            status: self.base_status(),
            season: key.0,
            league: key.1,
            game_type: key.2,
            gametime: None,
            votes: match votes {
                Some(v) => Some(vote_percentages(v)),
                None => None,
            },
        }
    }

    /// The game that is made of the scheduled game at `now`: the game that
    /// the schedule gives, with the stored report laid over it where the game
    /// may be live and a report is stored.
    pub open spec fn decorated(
        self,
        key: SeasonKey,
        votes: Option<VotePerGame>,
        report: Option<ReportView>,
        now: Timestamp,
    ) -> GameView {
        let base = self.base_game(key, votes);
        match report {
            Some(r) => if self.potentially_live_at(now) {
                base.with_report(r)
            } else {
                base
            },
            None => base,
        }
    }
}

impl SeasonGame {
    /// Whether the scheduled game may be live at `now`.
    pub fn is_potentially_live_at(&self, now: Timestamp) -> (live: bool)
        ensures
            live == self@.potentially_live_at(now),
    {
        str_eq(self.state.as_str(), "pre-game") && self.startDateTime.is_before(&now, 300)
    }

    /// Whether the scheduled game may be live now.
    pub fn is_potentially_live(&self) -> (live: bool)
        ensures
            self@.state != "pre-game"@ ==> !live,
            exists|now: Timestamp| live == self@.potentially_live_at(now),
    {
        let now = Timestamp::now();
        self.is_potentially_live_at(now)
    }

    /// The game that is made of the scheduled game at `now`.
    pub fn decorate(
        &self,
        key: &SeasonKey,
        votes: Option<VotePerGame>,
        report: Option<&ApiGameReport>,
        now: Timestamp,
    ) -> (game: ApiGame)
        ensures
            game@ == self@.decorated(
                *key,
                votes,
                match report {
                    Some(r) => Some(r@),
                    None => None,
                },
                now,
            ),
    {
        let base_status = if str_eq(self.state.as_str(), "post-game") {
            GameStatus::Finished
        } else {
            GameStatus::Coming
        };
        let mut mapped = ApiGame {
            game_uuid: self.uuid.clone(),
            home_team_code: self.homeTeamInfo.get_code(),
            away_team_code: self.awayTeamInfo.get_code(),
            home_team_result: self.homeTeamInfo.score.to_num(),
            away_team_result: self.awayTeamInfo.score.to_num(),
            start_date_time: self.startDateTime,
            played: base_status == GameStatus::Finished,
            shootout: self.shootout,
            overtime: self.overtime,
            status: base_status,
            season: key.0,
            league: key.1,
            game_type: key.2,
            gametime: None,
            votes: match votes {
                Some(v) => Some(ApiVotePerGame::from(v)),
                None => None,
            },
        };
        if self.is_potentially_live_at(now) {
            if let Some(report) = report {
                mapped.apply_report(report);
            }
        }
        mapped
    }
}

/// The fetching of schedules.
pub struct SeasonService {}

/// The keys of the six schedules of `season`: league by league, and within
/// a league game type by game type.
pub open spec fn season_keys(season: crate::models::Season) -> Seq<SeasonKey> {
    seq![
        SeasonKey(season, League::SHL, crate::models::GameType::Season),
        SeasonKey(season, League::SHL, crate::models::GameType::PlayOff),
        SeasonKey(season, League::SHL, crate::models::GameType::Demotion),
        SeasonKey(season, League::HA, crate::models::GameType::Season),
        SeasonKey(season, League::HA, crate::models::GameType::PlayOff),
        SeasonKey(season, League::HA, crate::models::GameType::Demotion),
    ]
}

impl SeasonService {
    /// The keys of the schedules of `season`, in the order in which they are
    /// fetched.
    pub fn keys(season: &crate::models::Season) -> (keys: Vec<SeasonKey>)
        ensures
            keys@ == season_keys(*season),
    {
        let mut keys: Vec<SeasonKey> = Vec::new();
        let leagues = League::get_all();
        let mut l: usize = 0;
        while l < leagues.len()
            invariant
                l <= leagues.len(),
                leagues@ == seq![League::SHL, League::HA],
                keys@ == season_keys(*season).take(3 * l),
            decreases leagues.len() - l,
        {
            let types = crate::models::GameType::get_all();
            let mut t: usize = 0;
            while t < types.len()
                invariant
                    t <= types.len(),
                    l < leagues.len(),
                    leagues@ == seq![League::SHL, League::HA],
                    types@ == seq![
                        crate::models::GameType::Season,
                        crate::models::GameType::PlayOff,
                        crate::models::GameType::Demotion,
                    ],
                    keys@ == season_keys(*season).take(3 * l + t),
                decreases types.len() - t,
            {
                keys.push(SeasonKey(*season, leagues[l], types[t]));
                assert(keys@ =~= season_keys(*season).take(3 * l + t + 1));
                t += 1;
            }
            l += 1;
        }
        assert(season_keys(*season).take(6) =~= season_keys(*season));
        keys
    }
}

} // verus!
