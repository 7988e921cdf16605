//! The play-by-play feed of the older seasons: reading players and penalties
//! out of its free text, and mapping its entries to events.

use vstd::prelude::*;
use crate::event::{
    ApiEventType, ApiGameEvent, EventInfoView, EventView, GoalInfo, GoalInfoView, Location,
    PenaltyInfo, PenaltyInfoView, Player, PlayerView, ShotInfo, ShotInfoView,
};
use crate::models::{ParseStringError, StringOrNum, StringOrNumView};
use crate::provider::{
    EventType, EventTypeView, Goal, LiveEvent, LiveEventView, Penalty, PeriodType, PlayByPlay,
    PlayByPlayType, PlayByPlayTypeView, PlayByPlayView, Shot,
};
use crate::report::GameStatus;
use crate::text::{
    i32_to_string, int_digits, parse_i32, parsed_i32, remove_all, split_first, split_once,
    str_eq, trim, trimmed, without,
};
use crate::views::{lemma_views_push, views};

verus! {

/// What stands in `s` before its first blank, or all of `s`.
pub open spec fn first_word(s: Seq<char>) -> Seq<char> {
    match split_first(s, " "@) {
        Some((word, _)) => word,
        None => s,
    }
}

/// What stands in `s` between its first and its second blank, or nothing
/// where `s` has no blank.
pub open spec fn second_word(s: Seq<char>) -> Seq<char> {
    match split_first(s, " "@) {
        Some((_, rest)) => first_word(rest),
        None => Seq::empty(),
    }
}

/// The player that `s` names, written as a jersey number, a first name and a
/// family name.
///
/// The jersey is the first word read as a number, 0 where it is none; the
/// first name is the second word; the family name is `s` without every
/// occurrence of the jersey, a blank, the first name and a blank. An empty
/// text names nobody, and neither does one that leaves both names empty.
pub open spec fn parsed_player(s: Seq<char>) -> Option<PlayerView> {
    let jersey = match parsed_i32(first_word(s)) {
        Some(n) => n,
        None => 0i32,
    };
    let first_name = second_word(s);
    let family_name = without(s, int_digits(jersey as int) + " "@ + first_name + " "@);
    if s.len() == 0 || (first_name.len() == 0 && family_name.len() == 0) {
        None
    } else {
        Some(PlayerView { first_name, family_name, jersey })
    }
}

impl Player {
    /// Reads a player from a text such as `1 Mats Olle Matsson`.
    pub fn parse(s: &str) -> (parsed: Result<Player, ParseStringError>)
        ensures
            match parsed {
                Ok(p) => parsed_player(s@) == Some(p@),
                Err(_) => parsed_player(s@) is None,
            },
    {
        if s.is_empty() {
            return Err(ParseStringError);
        }
        let (head, rest) = match split_once(s, " ") {
            Some((head, rest)) => (head, Some(rest)),
            None => (s.to_string(), None),
        };
        let jersey: i32 = match parse_i32(head.as_str()) {
            Some(n) => n,
            None => 0,
        };
        let first_name = match rest {
            Some(rest) => match split_once(rest.as_str(), " ") {
                Some((word, _)) => word,
                None => rest,
            },
            None => String::new(),
        };
        let mut pattern = i32_to_string(jersey);
        pattern.append(" ");
        pattern.append(first_name.as_str());
        pattern.append(" ");
        let family_name = remove_all(s, pattern.as_str());
        if first_name.as_str().is_empty() && family_name.as_str().is_empty() {
            Err(ParseStringError)
        } else {
            Ok(Player { first_name, family_name, jersey })
        }
    }
}

impl std::str::FromStr for Player {
    type Err = ParseStringError;

    fn from_str(s: &str) -> (parsed: Result<Self, Self::Err>)
        ensures
            match parsed {
                Ok(p) => parsed_player(s@) == Some(p@),
                Err(_) => parsed_player(s@) is None,
            },
    {
        Player::parse(s)
    }
}

/// The penalty that a play-by-play description tells of.
///
/// A description of the form `player utvisas length, reason` gives the
/// player, the length and the reason. One without a comma after `utvisas`,
/// or without `utvisas`, gives no length, and the whole description is the
/// reason.
pub open spec fn parsed_penalty(description: Seq<char>, team: Seq<char>) -> PenaltyInfoView {
    let (player_info, penalty_info) = match split_first(description, " utvisas "@) {
        Some(halves) => halves,
        None => (Seq::empty(), Seq::empty()),
    };
    let (penalty, reason) = match split_first(penalty_info, ","@) {
        Some((length, reason)) => (Some(length), reason),
        None => (None, description),
    };
    PenaltyInfoView { team, player: parsed_player(player_info), reason: trimmed(reason), penalty }
}

impl PenaltyInfo {
    /// Reads a penalty out of a play-by-play description.
    pub fn new(description: &str, p: &Penalty) -> (info: PenaltyInfo)
        ensures
            info@ == parsed_penalty(description@, p.team@),
    {
        let (player_info, penalty_info) = match split_once(description, " utvisas ") {
            Some((a, b)) => (a, b),
            None => (String::new(), String::new()),
        };
        let (penalty, reason) = match split_once(penalty_info.as_str(), ",") {
            Some((length, reason)) => (Some(length), reason),
            None => (None, description.to_string()),
        };
        let player = match Player::parse(player_info.as_str()) {
            Ok(player) => Some(player),
            Err(_) => None,
        };
        PenaltyInfo { team: p.team.clone(), player, reason: trim(reason.as_str()), penalty }
    }
}

impl GoalInfo {
    /// The goal of a play-by-play entry. The scorer is read from the entry's
    /// text; the score is the home team's goals for and against.
    pub fn new(a: &Goal) -> (info: GoalInfo)
        ensures
            info@ == (GoalInfoView {
                team: a.team@,
                player: parsed_player(a.extra.scorerLong@),
                team_advantage: a.extra.teamAdvantage@,
                assist: None,
                home_team_result: a.extra.homeForward@.num(),
                away_team_result: a.extra.homeAgainst@.num(),
                location: Location { x: a.location.x, y: a.location.y },
            }),
    {
        GoalInfo {
            team: a.team.clone(),
            player: match Player::parse(a.extra.scorerLong.as_str()) {
                Ok(player) => Some(player),
                Err(_) => None,
            },
            team_advantage: a.extra.teamAdvantage.clone(),
            assist: None,
            home_team_result: a.extra.homeForward.to_num(),
            away_team_result: a.extra.homeAgainst.to_num(),
            location: Location { x: a.location.x, y: a.location.y },
        }
    }
}

impl ShotInfo {
    /// The shot of a play-by-play entry.
    pub fn new(info: &Shot) -> (shot: ShotInfo)
        ensures
            shot@ == (ShotInfoView {
                team: info.team@,
                location: Location { x: info.location.x, y: info.location.y },
            }),
    {
        ShotInfo {
            team: info.team.clone(),
            location: Location { x: info.location.x, y: info.location.y },
        }
    }
}

impl PlayByPlayView {
    /// The payload of the entry as clients see it. Every kind of shot is a
    /// shot; a period entry starts a period while the game is `Playing` and
    /// ends one otherwise.
    pub open spec fn info(self) -> EventInfoView {
        match self.class {
            PlayByPlayTypeView::General => EventInfoView::General,
            PlayByPlayTypeView::Livefeed => EventInfoView::General,
            PlayByPlayTypeView::GoolkeeperEvent => EventInfoView::General,
            PlayByPlayTypeView::Goal {
                team,
                location,
                scorer,
                team_advantage,
                home_against,
                home_forward,
                assist,
            } => EventInfoView::Goal(
                GoalInfoView {
                    team,
                    player: parsed_player(scorer),
                    team_advantage,
                    assist: None,
                    home_team_result: home_forward.num(),
                    away_team_result: home_against.num(),
                    location: Location { x: location.x, y: location.y },
                },
            ),
            PlayByPlayTypeView::Shot(team, at) => shot_info(team, at),
            PlayByPlayTypeView::ShotBlocked(team, at) => shot_info(team, at),
            PlayByPlayTypeView::ShotWide(team, at) => shot_info(team, at),
            PlayByPlayTypeView::ShotIron(team, at) => shot_info(team, at),
            PlayByPlayTypeView::PenaltyShot(team, at) => shot_info(team, at),
            PlayByPlayTypeView::ShootoutPenaltyShot(team, at) => shot_info(team, at),
            PlayByPlayTypeView::Penalty(team) => EventInfoView::Penalty(
                parsed_penalty(self.description, team),
            ),
            PlayByPlayTypeView::Timeout => EventInfoView::Timeout,
            PlayByPlayTypeView::Period(game_status) => if game_status == "Playing"@ {
                EventInfoView::PeriodStart
            } else {
                EventInfoView::PeriodEnd
            },
        }
    }

    /// The entry as an event of the game `game_uuid`.
    pub open spec fn mapped(self, game_uuid: Seq<char>) -> EventView {
        EventView {
            game_uuid,
            event_id: int_digits(self.eventId as int),
            revision: self.revision,
            status: GameStatus::of_period(self.period.num()),
            gametime: self.gametime,
            description: self.description,
            info: self.info(),
        }
    }
}

/// The payload of a shot by `team` at `at`.
pub open spec fn shot_info(team: Seq<char>, at: crate::provider::Location) -> EventInfoView {
    EventInfoView::Shot(ShotInfoView { team, location: Location { x: at.x, y: at.y } })
}

impl PlayByPlay {
    /// The payload of the entry as clients see it.
    pub fn to_type(&self) -> (info: ApiEventType)
        ensures
            info@ == self@.info(),
    {
        match &self.class {
            PlayByPlayType::General(_) => ApiEventType::General,
            PlayByPlayType::Livefeed(_) => ApiEventType::General,
            PlayByPlayType::GoolkeeperEvent(_) => ApiEventType::General,
            PlayByPlayType::Goal(a) => ApiEventType::Goal(GoalInfo::new(a)),
            PlayByPlayType::Shot(a) => ApiEventType::Shot(ShotInfo::new(a)),
            PlayByPlayType::ShotBlocked(a) => ApiEventType::Shot(ShotInfo::new(a)),
            PlayByPlayType::ShotWide(a) => ApiEventType::Shot(ShotInfo::new(a)),
            PlayByPlayType::ShotIron(a) => ApiEventType::Shot(ShotInfo::new(a)),
            PlayByPlayType::PenaltyShot(a) => ApiEventType::Shot(ShotInfo::new(a)),
            PlayByPlayType::ShootoutPenaltyShot(a) => ApiEventType::Shot(ShotInfo::new(a)),
            PlayByPlayType::Penalty(a) => ApiEventType::Penalty(
                PenaltyInfo::new(self.description.as_str(), a),
            ),
            PlayByPlayType::Timeout(_) => ApiEventType::Timeout,
            PlayByPlayType::Period(a) => {
                if str_eq(a.extra.gameStatus.as_str(), "Playing") {
                    ApiEventType::PeriodStart
                } else {
                    ApiEventType::PeriodEnd
                }
            },
        }
    }

    /// The entry as an event of the game `game_uuid`.
    pub fn into_mapped_event(self, game_uuid: &str) -> (event: ApiGameEvent)
        ensures
            event@ == self@.mapped(game_uuid@),
    {
        let info = self.to_type();
        ApiGameEvent {
            game_uuid: game_uuid.to_string(),
            event_id: i32_to_string(self.eventId),
            revision: self.revision,
            status: GameStatus::from_period(self.period.to_num()),
            gametime: self.gametime,
            description: self.description,
            info,
        }
    }
}

/// The mark of the start or the end of a period of the game `game_uuid`.
pub open spec fn period_mark(
    game_uuid: Seq<char>,
    period: StringOrNumView,
    finished: bool,
) -> LiveEventView {
    LiveEventView {
        gameUuid: game_uuid,
        eventId: None,
        period,
        eventType: Some(EventTypeView::Period(PeriodType { started: true, finished })),
    }
}

impl LiveEventView {
    /// Whether the event is a goal, a penalty or a shot.
    pub open spec fn is_play(self) -> bool {
        self.kind() is Goal || self.kind() is Penalty || self.kind() is Shot
    }
}

/// `events` with period marks put in, given that the period before the first
/// of them was `last_period`.
///
/// Where a goal, penalty or shot belongs to another period than the one
/// before it, the end of the old period and the start of the new one are put
/// in front of it. Period events of the input are left out.
pub open spec fn with_period_marks_from(events: Seq<LiveEventView>, last_period: i16) -> Seq<
    LiveEventView,
>
    decreases events.len(),
{
    if events.len() == 0 {
        Seq::empty()
    } else {
        let e = events[0];
        let changes = e.is_play() && e.period.num() != last_period;
        let marks = if changes {
            seq![
                period_mark(e.gameUuid, StringOrNumView::Number(last_period), true),
                period_mark(e.gameUuid, e.period, false),
            ]
        } else {
            Seq::empty()
        };
        let own = if e.kind() is Period {
            Seq::empty()
        } else {
            seq![e]
        };
        let next_period = if changes {
            e.period.num()
        } else {
            last_period
        };
        marks + own + with_period_marks_from(events.drop_first(), next_period)
    }
}

/// `events`, oldest first, with period marks put in: the start of the first
/// period in front, and then as `with_period_marks_from` says. Nothing is put
/// into an empty sequence.
pub open spec fn with_period_marks(events: Seq<LiveEventView>) -> Seq<LiveEventView> {
    if events.len() == 0 {
        events
    } else {
        seq![period_mark(events[0].gameUuid, StringOrNumView::Number(1), false)]
            + with_period_marks_from(events, 1)
    }
}

/// Puts period marks into the events of a game, oldest first.
pub fn add_period_events(raw_events: Vec<LiveEvent>) -> (result: Vec<LiveEvent>)
    ensures
        views(result@) == with_period_marks(views(raw_events@)),
{
    if raw_events.len() == 0 {
        return raw_events;
    }
    let mut result: Vec<LiveEvent> = Vec::new();
    let mut last_period: i16 = 1;
    result.push(
        LiveEvent {
            gameUuid: raw_events[0].gameUuid.clone(),
            eventId: None,
            period: StringOrNum::Number(1),
            eventType: Some(EventType::Period(PeriodType { started: true, finished: false })),
        },
    );
    let ghost all = views(raw_events@);
    assert(views(result@) =~= seq![period_mark(all[0].gameUuid, StringOrNumView::Number(1), false)]);
    assert(all.skip(0) =~= all);
    let mut i: usize = 0;
    while i < raw_events.len()
        invariant
            i <= raw_events.len(),
            all == views(raw_events@),
            all.len() > 0,
            views(result@) + with_period_marks_from(all.skip(i as int), last_period)
                == with_period_marks(all),
        decreases raw_events.len() - i,
    {
        let e = &raw_events[i];
        let ghost before = views(result@);
        let ghost rest = all.skip(i as int);
        assert(rest[0] == e@);
        assert(rest.drop_first() =~= all.skip(i + 1));
        let is_play = match e.get_event_type() {
            EventType::Goal(_) => true,
            EventType::Penalty(_) => true,
            EventType::Shot(_) => true,
            _ => false,
        };
        let period = e.period.to_num();
        let ghost old_period = last_period;
        if is_play && period != last_period {
            proof {
                lemma_views_push(
                    result@,
                    LiveEvent {
                        gameUuid: e.gameUuid,
                        eventId: None,
                        period: StringOrNum::Number(last_period),
                        eventType: Some(
                            EventType::Period(PeriodType { started: true, finished: true }),
                        ),
                    },
                );
            }
            result.push(
                LiveEvent {
                    gameUuid: e.gameUuid.clone(),
                    eventId: None,
                    period: StringOrNum::Number(last_period),
                    eventType: Some(
                        EventType::Period(PeriodType { started: true, finished: true }),
                    ),
                },
            );
            let start = LiveEvent {
                gameUuid: e.gameUuid.clone(),
                eventId: None,
                period: e.period.clone(),
                eventType: Some(EventType::Period(PeriodType { started: true, finished: false })),
            };
            proof {
                lemma_views_push(result@, start);
            }
            result.push(start);
            last_period = period;
        }
        let is_period = match e.get_event_type() {
            EventType::Period(_) => true,
            _ => false,
        };
        if !is_period {
            let copy = e.clone();
            proof {
                lemma_views_push(result@, copy);
            }
            result.push(copy);
        }
        proof {
            let changes = e@.is_play() && e@.period.num() != old_period;
            let marks = if changes {
                seq![
                    period_mark(e@.gameUuid, StringOrNumView::Number(old_period), true),
                    period_mark(e@.gameUuid, e@.period, false),
                ]
            } else {
                Seq::empty()
            };
            let own = if e@.kind() is Period {
                Seq::empty()
            } else {
                seq![e@]
            };
            assert(views(result@) =~= before + marks + own);
            assert(with_period_marks_from(rest, old_period) == marks + own
                + with_period_marks_from(all.skip(i + 1), last_period));
            assert(views(result@) + with_period_marks_from(all.skip(i + 1), last_period) =~= before
                + with_period_marks_from(rest, old_period));
        }
        i += 1;
    }
    assert(all.skip(raw_events.len() as int) =~= Seq::<LiveEventView>::empty());
    assert(views(result@) + Seq::<LiveEventView>::empty() =~= views(result@));
    result
}

} // verus!
