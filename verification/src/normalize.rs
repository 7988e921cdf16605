//! From the provider's messages to the core's own events and report updates.

use vstd::prelude::*;
use vstd::std_specs::convert::FromSpecImpl;
use crate::event::{
    ApiEventType, ApiGameEvent, EventInfoView, EventView, GoalInfo, GoalInfoView, Location,
    PenaltyInfo, PenaltyInfoView, Player, PlayerView, ShotInfo, ShotInfoView,
};
use crate::provider::{
    offence_name, EventPlayer, EventPlayerView, EventType, EventTypeView, GameReport,
    GameReportView, LiveEvent, LiveEventView,
};
use crate::report::{ApiGameReport, GameStatus, ReportView, UpdateReport, UpdateView};

verus! {

/// The place that stands in an event of the live stream, which sends none.
pub open spec fn no_location() -> Location {
    Location { x: 0, y: 0 }
}

impl EventPlayerView {
    /// The player as an event names him.
    pub open spec fn to_player(self) -> PlayerView {
        PlayerView {
            first_name: self.firstName,
            family_name: self.familyName,
            jersey: self.jerseyToday.num() as i32,
        }
    }
}

impl EventPlayer {
    /// The player as an event names him.
    pub fn to_player(&self) -> (player: Player)
        ensures
            player@ == self@.to_player(),
    {
        Player {
            first_name: self.firstName.clone(),
            family_name: self.familyName.clone(),
            jersey: self.jerseyToday.to_num() as i32,
        }
    }
}

impl LiveEventView {
    /// The revision of the event: that of its payload, 1 where it has none.
    pub open spec fn revision(self) -> u16 {
        match self.kind() {
            EventTypeView::Goal(e) => e.revision,
            EventTypeView::Penalty(e) => e.revision,
            EventTypeView::Shot(e) => e.revision,
            _ => 1,
        }
    }

    /// The status of the game at the event.
    pub open spec fn status(self) -> GameStatus {
        match self.kind() {
            EventTypeView::Goal(e) => GameStatus::of_state(e.gameState, self.period.num()),
            EventTypeView::Penalty(e) => GameStatus::of_state(e.gameState, self.period.num()),
            EventTypeView::Shot(e) => GameStatus::of_state(e.gameState, self.period.num()),
            EventTypeView::Goalkeeper(e) => GameStatus::of_state(e.gameState, self.period.num()),
            EventTypeView::Period(_) => GameStatus::of_period(self.period.num()),
            EventTypeView::Unknown => GameStatus::Coming,
        }
    }

    /// The game time of the event, `00:00` where its payload has none.
    pub open spec fn gametime(self) -> Seq<char> {
        match self.kind() {
            EventTypeView::Goal(e) => e.time,
            EventTypeView::Penalty(e) => e.time,
            EventTypeView::Shot(e) => e.time,
            EventTypeView::Goalkeeper(e) => e.time,
            _ => "00:00"@,
        }
    }

    /// The payload of the event as clients see it.
    pub open spec fn info(self) -> EventInfoView {
        match self.kind() {
            EventTypeView::Goal(e) => EventInfoView::Goal(
                GoalInfoView {
                    team: e.eventTeam,
                    player: Some(e.player.to_player()),
                    team_advantage: match e.goalStatus {
                        Some(s) => s,
                        None => "EQ"@,
                    },
                    assist: None,
                    home_team_result: e.homeTeam.score.num(),
                    away_team_result: e.awayTeam.score.num(),
                    location: no_location(),
                },
            ),
            EventTypeView::Shot(e) => EventInfoView::Shot(
                ShotInfoView { team: e.eventTeam, location: no_location() },
            ),
            EventTypeView::Penalty(e) => EventInfoView::Penalty(
                PenaltyInfoView {
                    team: e.eventTeam,
                    player: match e.player {
                        Some(p) => Some(p.to_player()),
                        None => None,
                    },
                    reason: offence_name(e.offence),
                    penalty: Some(e.variant),
                },
            ),
            EventTypeView::Period(e) => if e.finished {
                EventInfoView::PeriodEnd
            } else {
                EventInfoView::PeriodStart
            },
            _ => EventInfoView::General,
        }
    }

    /// The event as clients see it.
    pub open spec fn to_api_event(self) -> EventView {
        EventView {
            game_uuid: self.gameUuid,
            event_id: self.event_id(),
            revision: self.revision(),
            status: self.status(),
            gametime: self.gametime(),
            description: Seq::empty(),
            info: self.info(),
        }
    }

    /// The report update that the event implies: game time and status from
    /// its payload, and the score where the event is a goal. The end of a
    /// period means an intermission at `20:00`, its start play at `00:00`.
    pub open spec fn to_update(self) -> UpdateView {
        match self.kind() {
            EventTypeView::Goal(e) => UpdateView {
                gametime: Some(e.time),
                status: Some(GameStatus::of_state(e.gameState, self.period.num())),
                home_team_result: Some(e.homeTeam.score.num()),
                away_team_result: Some(e.awayTeam.score.num()),
                overtime: None,
                shootout: None,
            },
            EventTypeView::Shot(e) => UpdateView {
                gametime: Some(e.time),
                status: Some(GameStatus::of_state(e.gameState, self.period.num())),
                ..UpdateView::empty()
            },
            EventTypeView::Penalty(e) => UpdateView {
                gametime: Some(e.time),
                status: Some(GameStatus::of_state(e.gameState, self.period.num())),
                ..UpdateView::empty()
            },
            EventTypeView::Period(a) => if a.started && a.finished {
                UpdateView {
                    gametime: Some("20:00"@),
                    status: Some(GameStatus::Intermission),
                    ..UpdateView::empty()
                }
            } else {
                UpdateView {
                    gametime: Some("00:00"@),
                    status: Some(GameStatus::of_period(self.period.num())),
                    ..UpdateView::empty()
                }
            },
            EventTypeView::Goalkeeper(a) => UpdateView {
                status: Some(GameStatus::of_state(a.gameState, self.period.num())),
                ..UpdateView::empty()
            },
            EventTypeView::Unknown => UpdateView::empty(),
        }
    }
}

impl ApiGameEvent {
    /// The event of the live stream as clients see it.
    pub fn from_live_event(value: &LiveEvent) -> (event: ApiGameEvent)
        ensures
            event@ == value@.to_api_event(),
    {
        let period = value.period.to_num();
        let kind = value.get_event_type();
        let revision: u16 = match kind {
            EventType::Goal(e) => e.revision,
            EventType::Penalty(e) => e.revision,
            EventType::Shot(e) => e.revision,
            _ => 1,
        };
        let status = match kind {
            EventType::Goal(e) => GameStatus::get_from(e.gameState.as_str(), period),
            EventType::Penalty(e) => GameStatus::get_from(e.gameState.as_str(), period),
            EventType::Shot(e) => GameStatus::get_from(e.gameState.as_str(), period),
            EventType::Goalkeeper(e) => GameStatus::get_from(e.gameState.as_str(), period),
            EventType::Period(_) => GameStatus::get_from("Ongoing", period),
            EventType::Unknown => GameStatus::Coming,
        };
        let gametime = match kind {
            EventType::Goal(e) => e.time.clone(),
            EventType::Penalty(e) => e.time.clone(),
            EventType::Shot(e) => e.time.clone(),
            EventType::Goalkeeper(e) => e.time.clone(),
            _ => "00:00".to_string(),
        };
        let info = match kind {
            EventType::Goal(e) => ApiEventType::Goal(
                GoalInfo {
                    team: e.eventTeam.get_team_id(),
                    player: Some(e.player.to_player()),
                    team_advantage: match &e.goalStatus {
                        Some(s) => s.clone(),
                        None => "EQ".to_string(),
                    },
                    assist: None,
                    home_team_result: e.homeTeam.score.to_num(),
                    away_team_result: e.awayTeam.score.to_num(),
                    location: Location { x: 0, y: 0 },
                },
            ),
            EventType::Shot(e) => ApiEventType::Shot(
                ShotInfo { team: e.eventTeam.get_team_id(), location: Location { x: 0, y: 0 } },
            ),
            EventType::Penalty(e) => ApiEventType::Penalty(
                PenaltyInfo {
                    team: e.eventTeam.get_team_id(),
                    player: match &e.player {
                        Some(p) => Some(p.to_player()),
                        None => None,
                    },
                    reason: e.get_offence(),
                    penalty: Some(e.variant.description.clone()),
                },
            ),
            EventType::Period(e) => {
                if e.finished {
                    ApiEventType::PeriodEnd
                } else {
                    ApiEventType::PeriodStart
                }
            },
            _ => ApiEventType::General,
        };
        proof {
            reveal_strlit("Ongoing");
            reveal_strlit("NotStarted");
            reveal_strlit("GameEnded");
            reveal_strlit("Intermission");
            reveal_strlit("PeriodBreak");
            reveal_strlit("ShootOut");
            reveal_strlit("OverTime");
            assert("Ongoing"@.len() == 7);
        }
        ApiGameEvent {
            game_uuid: value.gameUuid.clone(),
            event_id: value.get_event_id(),
            revision,
            status,
            gametime,
            description: String::new(),
            info,
        }
    }
}

impl From<LiveEvent> for ApiGameEvent {
    fn from(value: LiveEvent) -> (event: ApiGameEvent)
        ensures
            event@ == value@.to_api_event(),
    {
        ApiGameEvent::from_live_event(&value)
    }
}

impl FromSpecImpl<LiveEvent> for ApiGameEvent {
    open spec fn obeys_from_spec() -> bool {
        false
    }

    open spec fn from_spec(value: LiveEvent) -> ApiGameEvent {
        arbitrary()
    }
}

impl UpdateReport {
    /// The report update that an event of the live stream implies.
    pub fn from(value: &LiveEvent) -> (update: UpdateReport)
        ensures
            update@ == value@.to_update(),
    {
        let period = value.period.to_num();
        proof {
            reveal_strlit("Ongoing");
            reveal_strlit("NotStarted");
            reveal_strlit("GameEnded");
            reveal_strlit("Intermission");
            reveal_strlit("PeriodBreak");
            reveal_strlit("ShootOut");
            reveal_strlit("OverTime");
            assert("Ongoing"@.len() == 7);
        }
        match value.get_event_type() {
            EventType::Goal(e) => UpdateReport {
                gametime: Some(e.time.clone()),
                status: Some(GameStatus::get_from(e.gameState.as_str(), period)),
                home_team_result: Some(e.homeTeam.score.to_num()),
                away_team_result: Some(e.awayTeam.score.to_num()),
                overtime: None,
                shootout: None,
            },
            EventType::Shot(e) => UpdateReport {
                gametime: Some(e.time.clone()),
                status: Some(GameStatus::get_from(e.gameState.as_str(), period)),
                home_team_result: None,
                away_team_result: None,
                overtime: None,
                shootout: None,
            },
            EventType::Penalty(e) => UpdateReport {
                gametime: Some(e.time.clone()),
                status: Some(GameStatus::get_from(e.gameState.as_str(), period)),
                home_team_result: None,
                away_team_result: None,
                overtime: None,
                shootout: None,
            },
            EventType::Period(a) => {
                if a.started && a.finished {
                    UpdateReport {
                        gametime: Some("20:00".to_string()),
                        status: Some(GameStatus::Intermission),
                        home_team_result: None,
                        away_team_result: None,
                        overtime: None,
                        shootout: None,
                    }
                } else {
                    UpdateReport {
                        gametime: Some("00:00".to_string()),
                        status: Some(GameStatus::get_from("Ongoing", period)),
                        home_team_result: None,
                        away_team_result: None,
                        overtime: None,
                        shootout: None,
                    }
                }
            },
            EventType::Goalkeeper(a) => UpdateReport {
                gametime: None,
                status: Some(GameStatus::get_from(a.gameState.as_str(), period)),
                home_team_result: None,
                away_team_result: None,
                overtime: None,
                shootout: None,
            },
            EventType::Unknown => UpdateReport::default(),
        }
    }
}

impl GameReportView {
    /// The provider's report as the core's own: a missing team counts as
    /// `TBD`, and nothing is known of overtime or shootout.
    pub open spec fn to_report(self) -> ReportView {
        ReportView {
            game_uuid: self.gameUuid,
            gametime: self.gameTime,
            status: self.status(),
            home_team_code: match self.homeTeamId {
                Some(t) => t,
                None => "TBD"@,
            },
            away_team_code: match self.awayTeamId {
                Some(t) => t,
                None => "TBD"@,
            },
            home_team_result: self.homeTeamScore.num(),
            away_team_result: self.awayTeamScore.num(),
            overtime: None,
            shootout: None,
        }
    }

    /// The update that the provider's report implies: game time, status and
    /// both scores.
    pub open spec fn to_update(self) -> UpdateView {
        UpdateView {
            gametime: Some(self.gameTime),
            status: Some(self.status()),
            home_team_result: Some(self.homeTeamScore.num()),
            away_team_result: Some(self.awayTeamScore.num()),
            overtime: None,
            shootout: None,
        }
    }
}

impl ApiGameReport {
    /// The provider's report as the core's own.
    pub fn from_game_report(value: &GameReport) -> (report: ApiGameReport)
        ensures
            report@ == value@.to_report(),
    {
        ApiGameReport {
            game_uuid: value.gameUuid.clone(),
            gametime: value.gameTime.clone(),
            status: value.get_status(),
            home_team_code: match &value.homeTeamId {
                Some(t) => t.clone(),
                None => "TBD".to_string(),
            },
            away_team_code: match &value.awayTeamId {
                Some(t) => t.clone(),
                None => "TBD".to_string(),
            },
            home_team_result: value.homeTeamScore.to_num(),
            away_team_result: value.awayTeamScore.to_num(),
            overtime: None,
            shootout: None,
        }
    }
}

impl UpdateReport {
    /// The update that the provider's report implies.
    pub fn from_game_report(value: &GameReport) -> (update: UpdateReport)
        ensures
            update@ == value@.to_update(),
    {
        UpdateReport {
            gametime: Some(value.gameTime.clone()),
            status: Some(value.get_status()),
            home_team_result: Some(value.homeTeamScore.to_num()),
            away_team_result: Some(value.awayTeamScore.to_num()),
            overtime: None,
            shootout: None,
        }
    }
}

/// The clock of the provider's overview of a game.
#[derive(Debug)]
pub struct GameTime {
    pub period: i16,
    pub periodTime: String,
}

/// The provider's overview of a game, which a polling listener fetches.
#[derive(Debug)]
pub struct GameOverview {
    pub gameUuid: String,
    pub homeGoals: i16,
    pub awayGoals: i16,
    pub state: String,
    pub time: GameTime,
}

impl UpdateReport {
    /// The update that the provider's overview implies: game time, status
    /// and both scores.
    pub fn from_overview(v: GameOverview) -> (update: UpdateReport)
        ensures
            update@ == (UpdateView {
                gametime: Some(v.time.periodTime@),
                status: Some(GameStatus::of_state(v.state@, v.time.period)),
                home_team_result: Some(v.homeGoals),
                away_team_result: Some(v.awayGoals),
                overtime: None,
                shootout: None,
            }),
    {
        let status = GameStatus::get_from(v.state.as_str(), v.time.period);
        UpdateReport {
            gametime: Some(v.time.periodTime),
            status: Some(status),
            home_team_result: Some(v.homeGoals),
            away_team_result: Some(v.awayGoals),
            overtime: None,
            shootout: None,
        }
    }
}

} // verus!
