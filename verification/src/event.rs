//! The events of a game as clients see them: a tagged payload with a level
//! that decides how far an event is spread.

use vstd::prelude::*;
use crate::report::GameStatus;
use crate::text::{opt_text, clone_opt_text};

verus! {

/// How far an event is spread: `Low` reaches the web socket only, `Medium`
/// also the live activities, `High` raises an alert.
#[derive(Clone, Copy, Debug, PartialEq, Eq, Structural)]
pub enum ApiEventTypeLevel {
    Low,
    Medium,
    High,
}

/// A place on the rink. Each coordinate is kept as the bits of its binary32
/// value.
#[derive(Clone, Copy, Debug, PartialEq, Eq, Structural)]
pub struct Location {
    pub x: u32,
    pub y: u32,
}

/// A player as an event names him.
#[derive(Debug, PartialEq)]
pub struct Player {
    pub first_name: String,
    pub family_name: String,
    pub jersey: i32,
}

/// What a `Player` holds.
pub struct PlayerView {
    pub first_name: Seq<char>,
    pub family_name: Seq<char>,
    pub jersey: i32,
}

impl View for Player {
    type V = PlayerView;

    open spec fn view(&self) -> PlayerView {
        PlayerView {
            first_name: self.first_name@,
            family_name: self.family_name@,
            jersey: self.jersey,
        }
    }
}

impl Clone for Player {
    fn clone(&self) -> (copy: Self)
        ensures
            copy@ == self@,
    {
        Player {
            first_name: self.first_name.clone(),
            family_name: self.family_name.clone(),
            jersey: self.jersey,
        }
    }
}

/// The view of an optional player.
pub open spec fn opt_player(player: Option<Player>) -> Option<PlayerView> {
    match player {
        Some(p) => Some(p@),
        None => None,
    }
}

/// A copy of an optional player.
pub fn clone_opt_player(player: &Option<Player>) -> (copy: Option<Player>)
    ensures
        opt_player(copy) == opt_player(*player),
{
    match player {
        Some(p) => Some(p.clone()),
        None => None,
    }
}

/// A shot: the shooting team and where the shot was taken.
#[derive(Debug, PartialEq)]
pub struct ShotInfo {
    pub team: String,
    pub location: Location,
}

/// What a `ShotInfo` holds.
pub struct ShotInfoView {
    pub team: Seq<char>,
    pub location: Location,
}

impl View for ShotInfo {
    type V = ShotInfoView;

    open spec fn view(&self) -> ShotInfoView {
        ShotInfoView { team: self.team@, location: self.location }
    }
}

/// The end of a game: the winner, or nobody on a tie.
#[derive(Debug, PartialEq)]
pub struct GameEndInfo {
    pub winner: Option<String>,
}

impl View for GameEndInfo {
    type V = Option<Seq<char>>;

    open spec fn view(&self) -> Option<Seq<char>> {
        opt_text(self.winner)
    }
}

/// A penalty: the team, the player where known, the reason and the length.
#[derive(Debug, PartialEq)]
pub struct PenaltyInfo {
    pub team: String,
    pub player: Option<Player>,
    pub reason: String,
    pub penalty: Option<String>,
}

/// What a `PenaltyInfo` holds.
pub struct PenaltyInfoView {
    pub team: Seq<char>,
    pub player: Option<PlayerView>,
    pub reason: Seq<char>,
    pub penalty: Option<Seq<char>>,
}

impl View for PenaltyInfo {
    type V = PenaltyInfoView;

    open spec fn view(&self) -> PenaltyInfoView {
        PenaltyInfoView {
            team: self.team@,
            player: opt_player(self.player),
            reason: self.reason@,
            penalty: opt_text(self.penalty),
        }
    }
}

/// A goal: the scoring team and player, the strength at which it was scored,
/// and the score after it.
#[derive(Debug, PartialEq)]
pub struct GoalInfo {
    pub team: String,
    pub player: Option<Player>,
    pub team_advantage: String,
    pub assist: Option<String>,
    pub home_team_result: i16,
    pub away_team_result: i16,
    pub location: Location,
}

/// What a `GoalInfo` holds.
pub struct GoalInfoView {
    pub team: Seq<char>,
    pub player: Option<PlayerView>,
    pub team_advantage: Seq<char>,
    pub assist: Option<Seq<char>>,
    pub home_team_result: i16,
    pub away_team_result: i16,
    pub location: Location,
}

impl View for GoalInfo {
    type V = GoalInfoView;

    open spec fn view(&self) -> GoalInfoView {
        GoalInfoView {
            team: self.team@,
            player: opt_player(self.player),
            team_advantage: self.team_advantage@,
            assist: opt_text(self.assist),
            home_team_result: self.home_team_result,
            away_team_result: self.away_team_result,
            location: self.location,
        }
    }
}

/// The payload of an event.
#[derive(Debug, PartialEq)]
pub enum ApiEventType {
    Goal(GoalInfo),
    PeriodEnd,
    PeriodStart,
    GameEnd(GameEndInfo),
    GameStart,
    Penalty(PenaltyInfo),
    Shot(ShotInfo),
    Timeout,
    General,
}

/// What an `ApiEventType` holds.
pub enum EventInfoView {
    Goal(GoalInfoView),
    PeriodEnd,
    PeriodStart,
    GameEnd(Option<Seq<char>>),
    GameStart,
    Penalty(PenaltyInfoView),
    Shot(ShotInfoView),
    Timeout,
    General,
}

impl View for ApiEventType {
    type V = EventInfoView;

    open spec fn view(&self) -> EventInfoView {
        match self {
            ApiEventType::Goal(g) => EventInfoView::Goal(g@),
            ApiEventType::PeriodEnd => EventInfoView::PeriodEnd,
            ApiEventType::PeriodStart => EventInfoView::PeriodStart,
            ApiEventType::GameEnd(e) => EventInfoView::GameEnd(e@),
            ApiEventType::GameStart => EventInfoView::GameStart,
            ApiEventType::Penalty(p) => EventInfoView::Penalty(p@),
            ApiEventType::Shot(s) => EventInfoView::Shot(s@),
            ApiEventType::Timeout => EventInfoView::Timeout,
            ApiEventType::General => EventInfoView::General,
        }
    }
}

impl EventInfoView {
    /// The level of a payload: goals and the start and end of a game are
    /// `High`; shots and general notes are `Low`; the rest is `Medium`.
    pub open spec fn level(self) -> ApiEventTypeLevel {
        match self {
            EventInfoView::Goal(_) => ApiEventTypeLevel::High,
            EventInfoView::GameStart => ApiEventTypeLevel::High,
            EventInfoView::GameEnd(_) => ApiEventTypeLevel::High,
            EventInfoView::Penalty(_) => ApiEventTypeLevel::Medium,
            EventInfoView::PeriodStart => ApiEventTypeLevel::Medium,
            EventInfoView::PeriodEnd => ApiEventTypeLevel::Medium,
            EventInfoView::Timeout => ApiEventTypeLevel::Medium,
            EventInfoView::Shot(_) => ApiEventTypeLevel::Low,
            EventInfoView::General => ApiEventTypeLevel::Low,
        }
    }

    /// The payload's name.
    pub open spec fn name(self) -> Seq<char> {
        match self {
            EventInfoView::Goal(_) => "Goal"@,
            EventInfoView::PeriodStart => "PeriodStart"@,
            EventInfoView::PeriodEnd => "PeriodEnd"@,
            EventInfoView::Penalty(_) => "Penalty"@,
            EventInfoView::Shot(_) => "Shot"@,
            EventInfoView::GameStart => "GameStart"@,
            EventInfoView::GameEnd(_) => "GameEnd"@,
            EventInfoView::Timeout => "Timeout"@,
            EventInfoView::General => "General"@,
        }
    }
}

impl Clone for ApiEventType {
    fn clone(&self) -> (copy: Self)
        ensures
            copy@ == self@,
    {
        match self {
            ApiEventType::Goal(g) => ApiEventType::Goal(
                GoalInfo {
                    team: g.team.clone(),
                    player: clone_opt_player(&g.player),
                    team_advantage: g.team_advantage.clone(),
                    assist: clone_opt_text(&g.assist),
                    home_team_result: g.home_team_result,
                    away_team_result: g.away_team_result,
                    location: g.location,
                },
            ),
            ApiEventType::PeriodEnd => ApiEventType::PeriodEnd,
            ApiEventType::PeriodStart => ApiEventType::PeriodStart,
            ApiEventType::GameEnd(e) => ApiEventType::GameEnd(
                GameEndInfo { winner: clone_opt_text(&e.winner) },
            ),
            ApiEventType::GameStart => ApiEventType::GameStart,
            ApiEventType::Penalty(p) => ApiEventType::Penalty(
                PenaltyInfo {
                    team: p.team.clone(),
                    player: clone_opt_player(&p.player),
                    reason: p.reason.clone(),
                    penalty: clone_opt_text(&p.penalty),
                },
            ),
            ApiEventType::Shot(s) => ApiEventType::Shot(
                ShotInfo { team: s.team.clone(), location: s.location },
            ),
            ApiEventType::Timeout => ApiEventType::Timeout,
            ApiEventType::General => ApiEventType::General,
        }
    }
}

impl ApiEventType {
    /// The payload's level.
    pub fn get_level(&self) -> (level: ApiEventTypeLevel)
        ensures
            level == self@.level(),
    {
        match self {
            ApiEventType::Goal(_) => ApiEventTypeLevel::High,
            ApiEventType::GameStart => ApiEventTypeLevel::High,
            ApiEventType::GameEnd(_) => ApiEventTypeLevel::High,
            ApiEventType::Penalty(_) => ApiEventTypeLevel::Medium,
            ApiEventType::PeriodStart => ApiEventTypeLevel::Medium,
            ApiEventType::PeriodEnd => ApiEventTypeLevel::Medium,
            ApiEventType::Timeout => ApiEventTypeLevel::Medium,
            ApiEventType::Shot(_) => ApiEventTypeLevel::Low,
            ApiEventType::General => ApiEventTypeLevel::Low,
        }
    }

    /// Whether the payload tells of the end of a game.
    pub fn is_game_end(&self) -> (end: bool)
        ensures
            end == (self@ is GameEnd),
    {
        match self {
            ApiEventType::GameEnd(_) => true,
            _ => false,
        }
    }

    /// The payload's name.
    pub fn to_str(&self) -> (name: &'static str)
        ensures
            name@ == self@.name(),
    {
        match self {
            ApiEventType::Goal(_) => "Goal",
            ApiEventType::PeriodStart => "PeriodStart",
            ApiEventType::PeriodEnd => "PeriodEnd",
            ApiEventType::Penalty(_) => "Penalty",
            ApiEventType::Shot(_) => "Shot",
            ApiEventType::GameStart => "GameStart",
            ApiEventType::GameEnd(_) => "GameEnd",
            ApiEventType::Timeout => "Timeout",
            ApiEventType::General => "General",
        }
    }
}

/// One event of a game. `event_id` identifies it; a later `revision` of the
/// same id replaces the earlier one.
#[derive(Debug)]
pub struct ApiGameEvent {
    pub game_uuid: String,
    pub event_id: String,
    pub revision: u16,
    pub status: GameStatus,
    pub gametime: String,
    pub description: String,
    pub info: ApiEventType,
}

/// What an `ApiGameEvent` holds.
pub struct EventView {
    pub game_uuid: Seq<char>,
    pub event_id: Seq<char>,
    pub revision: u16,
    pub status: GameStatus,
    pub gametime: Seq<char>,
    pub description: Seq<char>,
    pub info: EventInfoView,
}

impl View for ApiGameEvent {
    type V = EventView;

    open spec fn view(&self) -> EventView {
        EventView {
            game_uuid: self.game_uuid@,
            event_id: self.event_id@,
            revision: self.revision,
            status: self.status,
            gametime: self.gametime@,
            description: self.description@,
            info: self.info@,
        }
    }
}

impl Clone for ApiGameEvent {
    fn clone(&self) -> (copy: Self)
        ensures
            copy@ == self@,
    {
        ApiGameEvent {
            game_uuid: self.game_uuid.clone(),
            event_id: self.event_id.clone(),
            revision: self.revision,
            status: self.status,
            gametime: self.gametime.clone(),
            description: self.description.clone(),
            info: self.info.clone(),
        }
    }
}

} // verus!
