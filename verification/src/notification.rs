//! The notification dispatcher: which push, if any, a user gets for a game
//! and an event, what it says, and what a failed push does to the user.

use vstd::prelude::*;
use crate::apn::{ApnError, ApnHeader, ApnHeaderView, ApnPushType};
use crate::event::{
    ApiEventType, ApiEventTypeLevel, ApiGameEvent, EventInfoView, EventView, Player, PlayerView,
};
use crate::game::{ApiGame, GameView};
use crate::push::{
    AlertView, ApnAlert, ApnAps, ApnBody, ApnBodyView, ApnPush, ApnPushView, ApsView,
    ContentStateView, LiveActivityContentState, LiveActivityEvent, LiveActivityEventView,
    LiveActivityReport, LiveActivityReportView,
};
use crate::report::GameStatus;
use crate::teams::{ApiTeam, TeamsMap, display_code_of, shortname_of};
use crate::text::{clone_opt_text, contains_text, i16_to_string, int_digits, str_eq, texts};
use crate::user::{
    LiveActivityView, User, UserService, UserView, activities_without,
};
use crate::views::{first_where, lemma_first_where, lemma_first_where_from, views};

verus! {

/// The seconds for which a push stays valid.
pub const PUSH_LIFETIME_SECS: i64 = 3600;

impl EventView {
    /// The period and game time of the event as a push writes them.
    pub open spec fn time_info(self) -> Seq<char> {
        match self.status {
            GameStatus::Period1 => "P1 "@ + self.gametime,
            GameStatus::Period2 => "P2 "@ + self.gametime,
            GameStatus::Period3 => "P3 "@ + self.gametime,
            GameStatus::Overtime => "Övertid "@ + self.gametime,
            GameStatus::Shootout => "Straffar"@,
            _ => Seq::empty(),
        }
    }

    /// The keys of the images that go with the event: the winner at the end
    /// of a game, both teams at its start and at a tied end, the team of a
    /// goal or penalty, and none otherwise.
    pub open spec fn images(self, game: GameView) -> Seq<Seq<char>> {
        match self.info {
            EventInfoView::GameStart => seq![game.home_team_code, game.away_team_code],
            EventInfoView::GameEnd(winner) => match winner {
                Some(w) => seq![w],
                None => seq![game.home_team_code, game.away_team_code],
            },
            EventInfoView::Goal(a) => seq![a.team],
            EventInfoView::Penalty(a) => seq![a.team],
            _ => Seq::empty(),
        }
    }

    /// Whether the scorer of the event has a first name, where the event is
    /// a goal with a scorer: an alert on a goal writes his initial.
    pub open spec fn scorer_initial_known(self) -> bool {
        match self.info {
            EventInfoView::Goal(a) => a.player matches Some(p) ==> p.first_name.len() > 0,
            _ => true,
        }
    }

    /// Whether the player of the event has a first name, where the event is
    /// a goal or a penalty with a player: a live activity writes his
    /// initial.
    pub open spec fn initials_known(self) -> bool {
        match self.info {
            EventInfoView::Goal(a) => a.player matches Some(p) ==> p.first_name.len() > 0,
            EventInfoView::Penalty(a) => a.player matches Some(p) ==> p.first_name.len() > 0,
            _ => true,
        }
    }
}

/// A player as a push names him: the initial, a full stop, and the family
/// name; nothing where no player is known.
pub open spec fn player_line(player: Option<PlayerView>) -> Seq<char> {
    match player {
        Some(p) => p.first_name.subrange(0, 1) + ". "@ + p.family_name,
        None => Seq::empty(),
    }
}

/// A score board line.
pub open spec fn score_line(home: Seq<char>, home_score: i16, away_score: i16, away: Seq<char>) -> Seq<
    char,
> {
    home + " "@ + int_digits(home_score as int) + " - "@ + int_digits(away_score as int) + " "@
        + away
}

/// The title of the end of a game, which cheers where the user follows the
/// winner.
pub open spec fn end_title(
    winner: Option<Seq<char>>,
    teams: Seq<ApiTeam>,
    user_teams: Seq<Seq<char>>,
) -> Seq<char> {
    match winner {
        Some(w) => if user_teams.contains(w) {
            shortname_of(teams, w) + " vinner! 🥇"@
        } else {
            shortname_of(teams, w) + " vann"@
        },
        None => "Matchen slutade"@,
    }
}

/// The title of a goal, which cheers where the user follows the scoring
/// team.
pub open spec fn goal_title(team: Seq<char>, teams: Seq<ApiTeam>, user_teams: Seq<Seq<char>>) -> Seq<
    char,
> {
    if user_teams.contains(team) {
        "MÅÅÅL för "@ + shortname_of(teams, team) + "! 🎉"@
    } else {
        "Mål för "@ + shortname_of(teams, team)
    }
}

/// The alert that tells a user who follows `user_teams` of `event` in `game`.
pub open spec fn alert_for(
    game: GameView,
    event: EventView,
    teams: Seq<ApiTeam>,
    user_teams: Seq<Seq<char>>,
) -> AlertView {
    match event.info {
        EventInfoView::GameStart => AlertView {
            title: "Nedsläpp"@,
            body: shortname_of(teams, game.home_team_code) + " : "@ + shortname_of(
                teams,
                game.away_team_code,
            ),
            subtitle: None,
        },
        EventInfoView::GameEnd(winner) => AlertView {
            title: end_title(winner, teams, user_teams),
            body: score_line(
                shortname_of(teams, game.home_team_code),
                game.home_team_result,
                game.away_team_result,
                shortname_of(teams, game.away_team_code),
            ),
            subtitle: None,
        },
        EventInfoView::Goal(a) => AlertView {
            title: goal_title(a.team, teams, user_teams),
            body: score_line(
                display_code_of(teams, game.home_team_code),
                a.home_team_result,
                a.away_team_result,
                display_code_of(teams, game.away_team_code),
            ) + "\n"@ + player_line(a.player) + " • "@ + event.time_info(),
            subtitle: None,
        },
        _ => AlertView {
            title: event.info.name(),
            body: score_line(
                display_code_of(teams, game.home_team_code),
                game.home_team_result,
                game.away_team_result,
                display_code_of(teams, game.away_team_code),
            ),
            subtitle: None,
        },
    }
}

/// What a live activity shows of `event` to a user who follows `user_teams`.
pub open spec fn activity_event_for(
    event: EventView,
    teams: Seq<ApiTeam>,
    user_teams: Seq<Seq<char>>,
) -> LiveActivityEventView {
    match event.info {
        EventInfoView::GameStart => LiveActivityEventView {
            title: "Nedsläpp"@,
            body: None,
            team_code: None,
        },
        EventInfoView::GameEnd(winner) => LiveActivityEventView {
            title: end_title(winner, teams, user_teams),
            body: None,
            team_code: None,
        },
        EventInfoView::Goal(a) => LiveActivityEventView {
            title: goal_title(a.team, teams, user_teams),
            body: Some(player_line(a.player) + " • "@ + event.time_info()),
            team_code: Some(a.team),
        },
        EventInfoView::Penalty(a) => LiveActivityEventView {
            title: "Utvisning - "@ + match a.penalty {
                Some(p) => p,
                None => Seq::empty(),
            },
            body: Some(player_line(a.player) + " • "@ + a.reason),
            team_code: Some(a.team),
        },
        _ => LiveActivityEventView { title: event.description, body: None, team_code: None },
    }
}

impl UserView {
    /// Whether alerts on `game` go to the user: he has a device token, has
    /// not muted the game, and follows the game itself or one of its teams.
    pub open spec fn should_send(self, game: GameView) -> bool {
        self.apn_token is Some && !self.muted_games.contains(game.game_uuid) && (
        self.explicit_games.contains(game.game_uuid) || self.teams.contains(game.home_team_code)
            || self.teams.contains(game.away_team_code))
    }

    /// The index of the user's live activity on the game `game`, or the
    /// number of his live activities where he has none on it.
    pub open spec fn activity_index(self, game: Seq<char>) -> int {
        first_where(self.live_activities, |e: LiveActivityView| e.game_uuid == game)
    }
}

/// A time an hour after `now`, or the last time that 64 bits can tell.
pub open spec fn push_expiry(now: i64) -> i64 {
    if now > i64::MAX - PUSH_LIFETIME_SECS {
        i64::MAX
    } else {
        (now + PUSH_LIFETIME_SECS) as i64
    }
}

/// The alert of a push for `event`: events of the highest level alert, and
/// only where the dispatcher is asked to alert.
pub open spec fn alert_of(
    game: GameView,
    event: Option<EventView>,
    should_alert: bool,
    teams: Seq<ApiTeam>,
    user_teams: Seq<Seq<char>>,
) -> Option<AlertView> {
    match event {
        Some(e) => if should_alert && e.info.level() == ApiEventTypeLevel::High {
            Some(alert_for(game, e, teams, user_teams))
        } else {
            None
        },
        None => None,
    }
}

/// What a push tells a live activity to do: to end where it shows the end of
/// the game, and to update itself otherwise, also where it shows no event.
pub open spec fn activity_phase(event: Option<EventView>) -> Seq<char> {
    if event matches Some(e) && e.info is GameEnd {
        "end"@
    } else {
        "update"@
    }
}

/// The push that refreshes a live activity on `game`.
pub open spec fn activity_push(
    game: GameView,
    event: Option<EventView>,
    alert: Option<AlertView>,
    now: i64,
    topic: Seq<char>,
    teams: Seq<ApiTeam>,
    user_teams: Seq<Seq<char>>,
) -> ApnPushView {
    ApnPushView {
        header: ApnHeaderView {
            push_type: ApnPushType::LiveActivity,
            priority: if alert is Some {
                10
            } else {
                5
            },
            topic: topic + ".push-type.liveactivity"@,
            collapse_id: Some(game.game_uuid),
            expiration: Some(push_expiry(now)),
        },
        body: ApnBodyView {
            aps: ApsView {
                alert,
                mutable_content: None,
                content_available: None,
                sound: if alert is Some {
                    Some("ping.aiff"@)
                } else {
                    None
                },
                badge: None,
                event: Some(activity_phase(event)),
                relevance_score: if alert is Some {
                    Some(100u8)
                } else {
                    Some(75u8)
                },
                stale_date: Some(push_expiry(now)),
                timestamp: Some(now),
                content_state: Some(
                    ContentStateView {
                        report: LiveActivityReportView {
                            home_score: game.home_team_result,
                            away_score: game.away_team_result,
                            status: Some(game.status),
                            gametime: game.gametime,
                        },
                        event: match event {
                            Some(e) => Some(activity_event_for(e, teams, user_teams)),
                            None => None,
                        },
                    },
                ),
            },
            data: game,
            local_attachements: match event {
                Some(e) => e.images(game),
                None => Seq::empty(),
            },
        },
    }
}

/// The push that alerts a device.
pub open spec fn alert_push(
    game: GameView,
    event: Option<EventView>,
    alert: AlertView,
    now: i64,
    topic: Seq<char>,
) -> ApnPushView {
    ApnPushView {
        header: ApnHeaderView {
            push_type: ApnPushType::Alert,
            priority: 10,
            topic,
            collapse_id: Some(game.game_uuid),
            expiration: Some(push_expiry(now)),
        },
        body: ApnBodyView {
            aps: ApsView { alert: Some(alert), sound: Some("ping.aiff"@), ..ApsView::empty() },
            data: game,
            local_attachements: match event {
                Some(e) => e.images(game),
                None => Seq::empty(),
            },
        },
    }
}

/// The push that `user` gets for `game` and `event` at `now`, with the token
/// to which it goes; at most one.
///
/// A user with a live activity on the game gets its refreshed state under
/// the activity's token. Any other user gets an alert under his device
/// token where there is something to alert of and alerts on the game go to
/// him. Nobody else gets a push.
pub open spec fn push_for(
    user: UserView,
    game: GameView,
    event: Option<EventView>,
    should_alert: bool,
    now: i64,
    topic: Seq<char>,
    teams: Seq<ApiTeam>,
) -> Option<(Seq<char>, ApnPushView)> {
    let alert = alert_of(game, event, should_alert, teams, user.teams);
    let at = user.activity_index(game.game_uuid);
    if at < user.live_activities.len() {
        Some(
            (
                user.live_activities[at].apn_token,
                activity_push(game, event, alert, now, topic, teams, user.teams),
            ),
        )
    } else if alert is Some && user.should_send(game) {
        Some((user.apn_token->0, alert_push(game, event, alert->0, now, topic)))
    } else {
        None
    }
}

/// Whether the push for `user` can name its player: every initial that it
/// writes is that of a first name that is not empty.
///
/// The push of a live activity writes the initial of the player of a goal or
/// a penalty. An alert writes that of the scorer of a goal. Where no push
/// goes to the user, nothing is written.
pub open spec fn names_suffice(
    user: UserView,
    game: GameView,
    event: Option<EventView>,
    should_alert: bool,
) -> bool {
    match event {
        Some(e) => if user.activity_index(game.game_uuid) < user.live_activities.len() {
            e.initials_known()
        } else {
            should_alert && user.should_send(game) ==> e.scorer_initial_known()
        },
        None => true,
    }
}

/// Whether the push for each of `users` can name its player.
pub open spec fn all_names_suffice(
    users: Seq<UserView>,
    game: GameView,
    event: Option<EventView>,
    should_alert: bool,
) -> bool {
    forall|i: int|
        0 <= i < users.len() ==> names_suffice(#[trigger] users[i], game, event, should_alert)
}

/// The last of `events` that is not of the lowest level, which is the one
/// that a live activity shows.
pub open spec fn shown_event(events: Seq<EventView>) -> Option<EventView> {
    if last_shown_index(events) >= 0 {
        Some(events[last_shown_index(events)])
    } else {
        None
    }
}

/// What a push's outcome does to `user`, for a push of the kind `push_type`
/// on the game `game`, of which `ended` says whether it told of the end of
/// the game.
///
/// A bad token of a live activity takes that live activity from the user,
/// and only that one; a bad device token takes the device token. A live
/// activity that was told of the end of its game is taken from the user.
/// Every other outcome leaves the user as he is.
pub open spec fn user_after_push(
    user: UserView,
    game: Seq<char>,
    push_type: ApnPushType,
    ended: bool,
    outcome: Result<(), ApnError>,
) -> UserView {
    match (outcome, push_type) {
        (Err(ApnError::BadDeviceToken), ApnPushType::LiveActivity) => UserView {
            live_activities: activities_without(user.live_activities, game),
            ..user
        },
        (Err(ApnError::BadDeviceToken), ApnPushType::Alert) => UserView { apn_token: None, ..user },
        (Ok(_), ApnPushType::LiveActivity) => if ended {
            UserView { live_activities: activities_without(user.live_activities, game), ..user }
        } else {
            user
        },
        _ => user,
    }
}

/// A push on its way: the index of the user whom it is for, the token to
/// which it goes, and the push.
#[derive(Debug)]
pub struct Delivery {
    pub user: usize,
    pub device_token: String,
    pub push: ApnPush,
}

/// What a `Delivery` holds.
pub struct DeliveryView {
    pub user: usize,
    pub device_token: Seq<char>,
    pub push: ApnPushView,
}

impl View for Delivery {
    type V = DeliveryView;

    open spec fn view(&self) -> DeliveryView {
        DeliveryView { user: self.user, device_token: self.device_token@, push: self.push@ }
    }
}

/// The pushes that go out to `users` for `game` and `event`, in the order of
/// the users; a user gets one push at most.
pub open spec fn deliveries(
    users: Seq<UserView>,
    game: GameView,
    event: Option<EventView>,
    should_alert: bool,
    now: i64,
    topic: Seq<char>,
    teams: Seq<ApiTeam>,
) -> Seq<DeliveryView>
    decreases users.len(),
{
    if users.len() == 0 {
        Seq::empty()
    } else {
        let before = deliveries(users.drop_last(), game, event, should_alert, now, topic, teams);
        match push_for(users.last(), game, event, should_alert, now, topic, teams) {
            Some((token, push)) => before.push(
                DeliveryView { user: (users.len() - 1) as usize, device_token: token, push },
            ),
            None => before,
        }
    }
}

/// The index of the last of `events` that is not of the lowest level, or -1.
pub open spec fn last_shown_index(events: Seq<EventView>) -> int
    decreases events.len(),
{
    if events.len() == 0 {
        -1
    } else if events.last().info.level() != ApiEventTypeLevel::Low {
        events.len() - 1
    } else {
        last_shown_index(events.drop_last())
    }
}

/// The index of the last shown event is an index, or -1.
pub proof fn lemma_last_shown_bound(events: Seq<EventView>)
    ensures
        -1 <= last_shown_index(events) < events.len(),
    decreases events.len(),
{
    if events.len() > 0 {
        lemma_last_shown_bound(events.drop_last());
    }
}

/// Of the pushes that go out for one message, no two are for the same user,
/// and they are in the order of the users.
pub proof fn lemma_one_push_per_user(
    users: Seq<UserView>,
    game: GameView,
    event: Option<EventView>,
    should_alert: bool,
    now: i64,
    topic: Seq<char>,
    teams: Seq<ApiTeam>,
)
    requires
        users.len() <= usize::MAX,
    ensures
        forall|i: int, j: int|
            0 <= i < j < deliveries(users, game, event, should_alert, now, topic, teams).len()
                ==> (#[trigger] deliveries(
                users,
                game,
                event,
                should_alert,
                now,
                topic,
                teams,
            )[i]).user < (#[trigger] deliveries(
                users,
                game,
                event,
                should_alert,
                now,
                topic,
                teams,
            )[j]).user,
        forall|i: int|
            0 <= i < deliveries(users, game, event, should_alert, now, topic, teams).len() ==> (
            #[trigger] deliveries(users, game, event, should_alert, now, topic, teams)[i]).user
                < users.len(),
    decreases users.len(),
{
    if users.len() > 0 {
        lemma_one_push_per_user(
            users.drop_last(),
            game,
            event,
            should_alert,
            now,
            topic,
            teams,
        );
    }
}

/// The view of an optional push with its token.
pub open spec fn opt_push(push: Option<(String, ApnPush)>) -> Option<(Seq<char>, ApnPushView)> {
    match push {
        Some((token, p)) => Some((token@, p@)),
        None => None,
    }
}

/// The view of an optional event reference.
pub open spec fn opt_event_ref(event: Option<&ApiGameEvent>) -> Option<EventView> {
    match event {
        Some(e) => Some(e@),
        None => None,
    }
}

impl ApiGameEvent {
    /// The period and game time of the event as a push writes them.
    pub fn get_time_info(&self) -> (info: String)
        ensures
            info@ == self@.time_info(),
    {
        let mut info = match self.status {
            GameStatus::Period1 => "P1 ".to_string(),
            GameStatus::Period2 => "P2 ".to_string(),
            GameStatus::Period3 => "P3 ".to_string(),
            GameStatus::Overtime => "Övertid ".to_string(),
            GameStatus::Shootout => {
                return "Straffar".to_string();
            },
            _ => {
                return String::new();
            },
        };
        info.append(self.gametime.as_str());
        info
    }

    /// The keys of the images that go with the event.
    pub fn get_images(&self, game: &ApiGame) -> (images: Vec<String>)
        ensures
            texts(images@) == self@.images(game@),
    {
        let mut images: Vec<String> = Vec::new();
        match &self.info {
            ApiEventType::GameStart => {
                images.push(game.home_team_code.clone());
                images.push(game.away_team_code.clone());
            },
            ApiEventType::GameEnd(a) => {
                match &a.winner {
                    Some(winner) => {
                        images.push(winner.clone());
                    },
                    None => {
                        images.push(game.home_team_code.clone());
                        images.push(game.away_team_code.clone());
                    },
                }
            },
            ApiEventType::Goal(a) => {
                images.push(a.team.clone());
            },
            ApiEventType::Penalty(a) => {
                images.push(a.team.clone());
            },
            _ => {},
        }
        assert(texts(images@) =~= self@.images(game@));
        images
    }

    /// Whether the scorer of the event, where it is a goal with a scorer,
    /// has a first name.
    pub fn has_scorer_initial(&self) -> (known: bool)
        ensures
            known == self@.scorer_initial_known(),
    {
        match &self.info {
            ApiEventType::Goal(a) => match &a.player {
                Some(p) => !p.first_name.as_str().is_empty(),
                None => true,
            },
            _ => true,
        }
    }

    /// Whether the player of the event, where it is a goal or a penalty with
    /// a player, has a first name.
    pub fn has_initials(&self) -> (known: bool)
        ensures
            known == self@.initials_known(),
    {
        match &self.info {
            ApiEventType::Goal(a) => match &a.player {
                Some(p) => !p.first_name.as_str().is_empty(),
                None => true,
            },
            ApiEventType::Penalty(a) => match &a.player {
                Some(p) => !p.first_name.as_str().is_empty(),
                None => true,
            },
            _ => true,
        }
    }
}

/// A player as a push names him.
fn write_player(player: &Option<Player>) -> (line: String)
    requires
        player matches Some(p) ==> p.first_name@.len() > 0,
    ensures
        line@ == player_line(crate::event::opt_player(*player)),
{
    match player {
        Some(p) => {
            let mut line = p.first_name.as_str().substring_char(0, 1).to_string();
            line.append(". ");
            line.append(p.family_name.as_str());
            line
        },
        None => String::new(),
    }
}

/// A score board line.
fn write_score(home: String, home_score: i16, away_score: i16, away: &str) -> (line: String)
    ensures
        line@ == score_line(home@, home_score, away_score, away@),
{
    let mut line = home;
    line.append(" ");
    line.append(i16_to_string(home_score).as_str());
    line.append(" - ");
    line.append(i16_to_string(away_score).as_str());
    line.append(" ");
    line.append(away);
    line
}

/// The title of the end of a game.
fn write_end_title(winner: &Option<String>, teams: &TeamsMap, user_teams: &Vec<String>) -> (title:
    String)
    ensures
        title@ == end_title(crate::text::opt_text(*winner), teams.teams@, texts(user_teams@)),
{
    match winner {
        Some(w) => {
            let mut title = teams.get_shortname(w.as_str());
            if contains_text(user_teams, w.as_str()) {
                title.append(" vinner! 🥇");
            } else {
                title.append(" vann");
            }
            title
        },
        None => "Matchen slutade".to_string(),
    }
}

/// The title of a goal.
fn write_goal_title(team: &str, teams: &TeamsMap, user_teams: &Vec<String>) -> (title: String)
    ensures
        title@ == goal_title(team@, teams.teams@, texts(user_teams@)),
{
    if contains_text(user_teams, team) {
        let mut title = "MÅÅÅL för ".to_string();
        title.append(teams.get_shortname(team).as_str());
        title.append("! 🎉");
        title
    } else {
        let mut title = "Mål för ".to_string();
        title.append(teams.get_shortname(team).as_str());
        title
    }
}

impl ApnAlert {
    /// The alert that tells a user who follows `user_teams` of `event` in
    /// `game`.
    pub fn from(game: &ApiGame, event: &ApiGameEvent, teams: &TeamsMap, user_teams: &Vec<String>) -> (alert:
        ApnAlert)
        requires
            event@.scorer_initial_known(),
        ensures
            alert@ == alert_for(game@, event@, teams.teams@, texts(user_teams@)),
    {
        match &event.info {
            ApiEventType::GameStart => {
                let mut body = teams.get_shortname(game.home_team_code.as_str());
                body.append(" : ");
                body.append(teams.get_shortname(game.away_team_code.as_str()).as_str());
                ApnAlert { title: "Nedsläpp".to_string(), body, subtitle: None }
            },
            ApiEventType::GameEnd(a) => {
                let title = write_end_title(&a.winner, teams, user_teams);
                let body = write_score(
                    teams.get_shortname(game.home_team_code.as_str()),
                    game.home_team_result,
                    game.away_team_result,
                    teams.get_shortname(game.away_team_code.as_str()).as_str(),
                );
                ApnAlert { title, body, subtitle: None }
            },
            ApiEventType::Goal(a) => {
                let title = write_goal_title(a.team.as_str(), teams, user_teams);
                let mut body = write_score(
                    teams.get_display_code(game.home_team_code.as_str()),
                    a.home_team_result,
                    a.away_team_result,
                    teams.get_display_code(game.away_team_code.as_str()).as_str(),
                );
                body.append("\n");
                body.append(write_player(&a.player).as_str());
                body.append(" • ");
                body.append(event.get_time_info().as_str());
                ApnAlert { title, body, subtitle: None }
            },
            _ => {
                let body = write_score(
                    teams.get_display_code(game.home_team_code.as_str()),
                    game.home_team_result,
                    game.away_team_result,
                    teams.get_display_code(game.away_team_code.as_str()).as_str(),
                );
                ApnAlert { title: event.info.to_str().to_string(), body, subtitle: None }
            },
        }
    }
}

impl LiveActivityEvent {
    /// What a live activity shows of `event` to a user who follows
    /// `user_teams`.
    pub fn from(event: &ApiGameEvent, teams: &TeamsMap, user_teams: &Vec<String>) -> (shown:
        LiveActivityEvent)
        requires
            event@.initials_known(),
        ensures
            shown@ == activity_event_for(event@, teams.teams@, texts(user_teams@)),
    {
        match &event.info {
            ApiEventType::GameStart => LiveActivityEvent {
                title: "Nedsläpp".to_string(),
                body: None,
                team_code: None,
            },
            ApiEventType::GameEnd(a) => LiveActivityEvent {
                title: write_end_title(&a.winner, teams, user_teams),
                body: None,
                team_code: None,
            },
            ApiEventType::Goal(a) => {
                let title = write_goal_title(a.team.as_str(), teams, user_teams);
                let mut body = write_player(&a.player);
                body.append(" • ");
                body.append(event.get_time_info().as_str());
                LiveActivityEvent { title, body: Some(body), team_code: Some(a.team.clone()) }
            },
            ApiEventType::Penalty(a) => {
                let mut title = "Utvisning - ".to_string();
                match &a.penalty {
                    Some(p) => {
                        title.append(p.as_str());
                    },
                    None => {
                        assert("Utvisning - "@ + Seq::<char>::empty() =~= "Utvisning - "@);
                    },
                }
                let mut body = write_player(&a.player);
                body.append(" • ");
                body.append(a.reason.as_str());
                LiveActivityEvent { title, body: Some(body), team_code: Some(a.team.clone()) }
            },
            _ => LiveActivityEvent { title: event.description.clone(), body: None, team_code: None },
        }
    }
}

impl User {
    /// Whether alerts on `game` go to the user.
    pub fn should_send(&self, game: &ApiGame) -> (send: bool)
        ensures
            send == self@.should_send(game@),
    {
        if self.apn_token.is_none() || contains_text(&self.muted_games, game.game_uuid.as_str()) {
            false
        } else {
            contains_text(&self.explicit_games, game.game_uuid.as_str()) || contains_text(
                &self.teams,
                game.home_team_code.as_str(),
            ) || contains_text(&self.teams, game.away_team_code.as_str())
        }
    }

    /// The index of the user's live activity on the game `game_uuid`.
    pub fn find_activity(&self, game_uuid: &str) -> (at: usize)
        ensures
            at == self@.activity_index(game_uuid@),
            at <= self.live_activities@.len(),
    {
        let ghost all = views(self.live_activities@);
        let ghost same = |e: LiveActivityView| e.game_uuid == game_uuid@;
        let mut i: usize = 0;
        while i < self.live_activities.len()
            invariant
                i <= self.live_activities.len(),
                all == views(self.live_activities@),
                same == |e: LiveActivityView| e.game_uuid == game_uuid@,
                forall|j: int| 0 <= j < i ==> !same(#[trigger] all[j]),
            decreases self.live_activities.len() - i,
        {
            proof {
                lemma_first_where_from(all, same, i as int);
            }
            if str_eq(self.live_activities[i].game_uuid.as_str(), game_uuid) {
                return i;
            }
            i += 1;
        }
        proof {
            lemma_first_where_from(all, same, i as int);
        }
        i
    }
}

/// A time an hour after `now`, or the last time that 64 bits can tell.
pub fn expiry_of(now: i64) -> (at: i64)
    ensures
        at == push_expiry(now),
{
    if now > i64::MAX - PUSH_LIFETIME_SECS {
        i64::MAX
    } else {
        now + PUSH_LIFETIME_SECS
    }
}

/// The notification dispatcher: the team catalogue by which it names teams,
/// and the topic under which it pushes.
pub struct NotificationService {
    pub teams: TeamsMap,
    pub topic: String,
}

impl NotificationService {
    /// A dispatcher that names teams by `teams` and pushes under `topic`.
    pub fn new(teams: TeamsMap, topic: String) -> (service: NotificationService)
        ensures
            service.teams == teams,
            service.topic == topic,
    {
        NotificationService { teams, topic }
    }

    fn make_alert(
        &self,
        user: &User,
        game: &ApiGame,
        event: Option<&ApiGameEvent>,
        should_alert: bool,
    ) -> (alert: Option<ApnAlert>)
        requires
            should_alert ==> (event matches Some(e) ==> e@.scorer_initial_known()),
        ensures
            crate::push::opt_alert(alert) == alert_of(
                game@,
                opt_event_ref(event),
                should_alert,
                self.teams.teams@,
                user@.teams,
            ),
    {
        match event {
            Some(e) => {
                if should_alert && e.info.get_level() == ApiEventTypeLevel::High {
                    Some(ApnAlert::from(game, e, &self.teams, &user.teams))
                } else {
                    None
                }
            },
            None => None,
        }
    }

    fn make_activity_push(
        &self,
        user: &User,
        game: &ApiGame,
        event: Option<&ApiGameEvent>,
        alert: Option<ApnAlert>,
        now: i64,
    ) -> (push: ApnPush)
        requires
            event matches Some(e) ==> e@.initials_known(),
        ensures
            push@ == activity_push(
                game@,
                opt_event_ref(event),
                crate::push::opt_alert(alert),
                now,
                self.topic@,
                self.teams.teams@,
                user@.teams,
            ),
    {
        let alerts = alert.is_some();
        let expiration = expiry_of(now);
        let mut topic = self.topic.clone();
        topic.append(".push-type.liveactivity");
        let aps = ApnAps {
            alert,
            mutable_content: None,
            content_available: None,
            sound: if alerts {
                Some("ping.aiff".to_string())
            } else {
                None
            },
            badge: None,
            event: match event {
                Some(ApiGameEvent { info: ApiEventType::GameEnd(_), .. }) => Some("end".to_string()),
                _ => Some("update".to_string()),
            },
            relevance_score: if alerts {
                Some(100)
            } else {
                Some(75)
            },
            stale_date: Some(expiration),
            timestamp: Some(now),
            content_state: Some(
                LiveActivityContentState {
                    report: LiveActivityReport {
                        home_score: game.home_team_result,
                        away_score: game.away_team_result,
                        status: Some(game.status),
                        gametime: clone_opt_text(&game.gametime),
                    },
                    event: match event {
                        Some(e) => Some(LiveActivityEvent::from(e, &self.teams, &user.teams)),
                        None => None,
                    },
                },
            ),
        };
        let local_attachements = match event {
            Some(e) => e.get_images(game),
            None => Vec::new(),
        };
        assert(event is None ==> texts(local_attachements@) =~= Seq::<Seq<char>>::empty());
        ApnPush {
            header: ApnHeader {
                push_type: ApnPushType::LiveActivity,
                priority: if alerts {
                    10
                } else {
                    5
                },
                topic,
                collapse_id: Some(game.game_uuid.clone()),
                expiration: Some(expiration),
            },
            body: ApnBody { aps, data: game.clone(), local_attachements },
        }
    }

    fn make_alert_push(
        &self,
        game: &ApiGame,
        event: Option<&ApiGameEvent>,
        alert: ApnAlert,
        now: i64,
    ) -> (push: ApnPush)
        ensures
            push@ == alert_push(game@, opt_event_ref(event), alert@, now, self.topic@),
    {
        let expiration = expiry_of(now);
        let local_attachements = match event {
            Some(e) => e.get_images(game),
            None => Vec::new(),
        };
        assert(event is None ==> texts(local_attachements@) =~= Seq::<Seq<char>>::empty());
        ApnPush {
            header: ApnHeader {
                push_type: ApnPushType::Alert,
                priority: 10,
                topic: self.topic.clone(),
                collapse_id: Some(game.game_uuid.clone()),
                expiration: Some(expiration),
            },
            body: ApnBody {
                aps: ApnAps {
                    alert: Some(alert),
                    mutable_content: None,
                    content_available: None,
                    sound: Some("ping.aiff".to_string()),
                    badge: None,
                    event: None,
                    relevance_score: None,
                    stale_date: None,
                    timestamp: None,
                    content_state: None,
                },
                data: game.clone(),
                local_attachements,
            },
        }
    }

    /// The push that `user` gets for `game` and `event` at the time `now`, in
    /// seconds, with the token to which it goes.
    ///
    /// A player whose initial the push writes has a first name.
    pub fn get_apn_push(
        &self,
        user: &User,
        game: &ApiGame,
        event: Option<&ApiGameEvent>,
        should_alert: bool,
        now: i64,
    ) -> (push: Option<(String, ApnPush)>)
        requires
            names_suffice(user@, game@, opt_event_ref(event), should_alert),
        ensures
            opt_push(push) == push_for(
                user@,
                game@,
                opt_event_ref(event),
                should_alert,
                now,
                self.topic@,
                self.teams.teams@,
            ),
    {
        let at = user.find_activity(game.game_uuid.as_str());
        if at < user.live_activities.len() {
            let alert = self.make_alert(user, game, event, should_alert);
            let token = user.live_activities[at].apn_token.clone();
            Some((token, self.make_activity_push(user, game, event, alert, now)))
        } else if should_alert && user.should_send(game) {
            match (self.make_alert(user, game, event, should_alert), &user.apn_token) {
                (Some(alert), Some(token)) => Some(
                    (token.clone(), self.make_alert_push(game, event, alert, now)),
                ),
                _ => None,
            }
        } else {
            None
        }
    }

    /// Whether the push for each of `users` can name its player.
    pub fn has_names(
        users: &Vec<User>,
        game: &ApiGame,
        event: Option<&ApiGameEvent>,
        should_alert: bool,
    ) -> (known: bool)
        ensures
            known == all_names_suffice(views(users@), game@, opt_event_ref(event), should_alert),
    {
        let told = match event {
            Some(e) => e,
            None => {
                return true;
            },
        };
        let for_activity = told.has_initials();
        let for_alert = !should_alert || told.has_scorer_initial();
        let ghost all = views(users@);
        let mut i: usize = 0;
        while i < users.len()
            invariant
                i <= users.len(),
                all == views(users@),
                opt_event_ref(event) == Some(told@),
                for_activity == told@.initials_known(),
                for_alert == (should_alert ==> told@.scorer_initial_known()),
                forall|j: int|
                    0 <= j < i ==> names_suffice(#[trigger] all[j], game@, Some(told@), should_alert),
            decreases users.len() - i,
        {
            let user = &users[i];
            let known = if user.find_activity(game.game_uuid.as_str()) < user.live_activities.len() {
                for_activity
            } else {
                for_alert || !user.should_send(game)
            };
            if !known {
                assert(!names_suffice(all[i as int], game@, Some(told@), should_alert));
                return false;
            }
            i += 1;
        }
        true
    }

    /// The pushes that go out for `game` and `event` at the time `now`, user
    /// by user: with each push the index of its user among `users` and the
    /// token to which it goes.
    ///
    /// A player whose initial one of the pushes writes has a first name.
    pub fn process(
        &self,
        users: &Vec<User>,
        game: &ApiGame,
        event: Option<&ApiGameEvent>,
        should_alert: bool,
        now: i64,
    ) -> (pushes: Vec<Delivery>)
        requires
            all_names_suffice(views(users@), game@, opt_event_ref(event), should_alert),
        ensures
            views(pushes@) == deliveries(
                views(users@),
                game@,
                opt_event_ref(event),
                should_alert,
                now,
                self.topic@,
                self.teams.teams@,
            ),
    {
        let mut pushes: Vec<Delivery> = Vec::new();
        let ghost all = views(users@);
        assert(all.take(0) =~= Seq::<UserView>::empty());
        assert(views(pushes@) =~= Seq::<DeliveryView>::empty());
        let mut i: usize = 0;
        while i < users.len()
            invariant
                i <= users.len(),
                all == views(users@),
                all_names_suffice(all, game@, opt_event_ref(event), should_alert),
                views(pushes@) == deliveries(
                    all.take(i as int),
                    game@,
                    opt_event_ref(event),
                    should_alert,
                    now,
                    self.topic@,
                    self.teams.teams@,
                ),
            decreases users.len() - i,
        {
            proof {
                assert(all.take(i + 1).drop_last() =~= all.take(i as int));
                assert(all.take(i + 1).last() == users@[i as int]@);
            }
            match self.get_apn_push(&users[i], game, event, should_alert, now) {
                Some((device_token, push)) => {
                    let delivery = Delivery { user: i, device_token, push };
                    proof {
                        crate::views::lemma_views_push(pushes@, delivery);
                    }
                    pushes.push(delivery);
                },
                None => {},
            }
            i += 1;
        }
        assert(all.take(users.len() as int) =~= all);
        pushes
    }

    /// The last of `events` that is not of the lowest level.
    pub fn last_shown(events: &Vec<ApiGameEvent>) -> (shown: Option<&ApiGameEvent>)
        ensures
            opt_event_ref(shown) == shown_event(views(events@)),
            match shown {
                Some(e) => last_shown_index(views(events@)) >= 0 && *e == events@[last_shown_index(
                    views(events@),
                )],
                None => last_shown_index(views(events@)) == -1,
            },
    {
        let ghost all = views(events@);
        let mut k: usize = events.len();
        assert(all.take(events.len() as int) =~= all);
        while k > 0
            invariant
                k <= events.len(),
                all == views(events@),
                last_shown_index(all) == last_shown_index(all.take(k as int)),
            decreases k,
        {
            proof {
                assert(all.take(k as int).drop_last() =~= all.take(k - 1));
                assert(all.take(k as int).last() == events@[k - 1]@);
            }
            if events[k - 1].info.get_level() != ApiEventTypeLevel::Low {
                return Some(&events[k - 1]);
            }
            k -= 1;
        }
        None
    }

    /// The pushes that refresh the live activities on `game` at the time
    /// `now`, without alerts: they show the last of the game's `events` that
    /// is not of the lowest level.
    ///
    /// Where one of `users` has a live activity on the game, the player of
    /// the event that is shown has a first name.
    pub fn process_live_activity(
        &self,
        users: &Vec<User>,
        game: &ApiGame,
        events: &Vec<ApiGameEvent>,
        now: i64,
    ) -> (pushes: Vec<Delivery>)
        requires
            all_names_suffice(views(users@), game@, shown_event(views(events@)), false),
        ensures
            views(pushes@) == deliveries(
                views(users@),
                game@,
                shown_event(views(events@)),
                false,
                now,
                self.topic@,
                self.teams.teams@,
            ),
    {
        let event = NotificationService::last_shown(events);
        proof {
            lemma_last_shown_bound(views(events@));
        }
        self.process(users, game, event, false, now)
    }

    /// Applies the outcome of a push to `user`.
    pub fn after_push(
        user: &mut User,
        game_uuid: &str,
        push_type: ApnPushType,
        ended: bool,
        outcome: Result<(), ApnError>,
    )
        ensures
            final(user)@ == user_after_push(old(user)@, game_uuid@, push_type, ended, outcome),
    {
        match outcome {
            Err(ApnError::BadDeviceToken) => {
                match push_type {
                    ApnPushType::LiveActivity => UserService::end_live_activity(user, game_uuid),
                    ApnPushType::Alert => UserService::remove_apn_token(user),
                }
            },
            Ok(_) => {
                if ended && push_type == ApnPushType::LiveActivity {
                    UserService::end_live_activity(user, game_uuid);
                }
            },
            _ => {},
        }
    }
}

/// A bad token of a live activity takes from the user the live activity on
/// that game and leaves every other one, and the device token, as they are.
pub proof fn lemma_bad_activity_token(user: UserView, game: Seq<char>, ended: bool, i: int)
    requires
        0 <= i < user.live_activities.len(),
        user.live_activities[i].game_uuid != game,
    ensures
        user_after_push(
            user,
            game,
            ApnPushType::LiveActivity,
            ended,
            Err(ApnError::BadDeviceToken),
        ).live_activities.contains(user.live_activities[i]),
        user_after_push(
            user,
            game,
            ApnPushType::LiveActivity,
            ended,
            Err(ApnError::BadDeviceToken),
        ).apn_token == user.apn_token,
{
    user.live_activities.lemma_filter_contains(|e: LiveActivityView| e.game_uuid != game, i);
}

/// The pushes that go out are the pushes of the users, one for one: there
/// are as many as there are users who get a push, and each is the push of
/// its user, under that push's token.
pub proof fn lemma_deliveries_are_the_pushes(
    users: Seq<UserView>,
    game: GameView,
    event: Option<EventView>,
    should_alert: bool,
    now: i64,
    topic: Seq<char>,
    teams: Seq<ApiTeam>,
)
    requires
        users.len() <= usize::MAX,
    ensures
        deliveries(users, game, event, should_alert, now, topic, teams).len() == users.filter(
            |u: UserView| push_for(u, game, event, should_alert, now, topic, teams) is Some,
        ).len(),
        forall|i: int|
            0 <= i < deliveries(users, game, event, should_alert, now, topic, teams).len() ==> {
                let d = #[trigger] deliveries(users, game, event, should_alert, now, topic, teams)[i];
                d.user < users.len() && push_for(
                    users[d.user as int],
                    game,
                    event,
                    should_alert,
                    now,
                    topic,
                    teams,
                ) == Some((d.device_token, d.push))
            },
    decreases users.len(),
{
    let gets = |u: UserView| push_for(u, game, event, should_alert, now, topic, teams) is Some;
    if users.len() == 0 {
        users.lemma_filter_len(gets);
    } else {
        let front = users.drop_last();
        lemma_deliveries_are_the_pushes(front, game, event, should_alert, now, topic, teams);
        assert(users =~= front.push(users.last()));
        front.lemma_filter_push(users.last(), gets);
        let before = deliveries(front, game, event, should_alert, now, topic, teams);
        let all = deliveries(users, game, event, should_alert, now, topic, teams);
        assert forall|i: int| 0 <= i < all.len() implies {
            let d = #[trigger] all[i];
            d.user < users.len() && push_for(
                users[d.user as int],
                game,
                event,
                should_alert,
                now,
                topic,
                teams,
            ) == Some((d.device_token, d.push))
        } by {
            if i < before.len() {
                assert(all[i] == before[i]);
                assert(front[before[i].user as int] == users[before[i].user as int]);
            }
        }
    }
}

/// An alert goes to the followers of a game and to nobody else: for an
/// event of the highest level, a user without a live activity on the game
/// gets a push exactly where alerts on the game go to him, and it is the
/// alert on that event under his device token. For any other event he gets
/// nothing, as he does where no alerts are asked for.
pub proof fn lemma_alert_goes_to_followers(
    user: UserView,
    game: GameView,
    event: EventView,
    should_alert: bool,
    now: i64,
    topic: Seq<char>,
    teams: Seq<ApiTeam>,
)
    requires
        user.activity_index(game.game_uuid) >= user.live_activities.len(),
    ensures
        push_for(user, game, Some(event), should_alert, now, topic, teams) is Some <==> (
        should_alert && event.info.level() == ApiEventTypeLevel::High && user.should_send(game)),
        push_for(user, game, Some(event), should_alert, now, topic, teams) matches Some(
            (token, push),
        ) ==> Some(token) == user.apn_token && push.header.push_type == ApnPushType::Alert
            && push.body.aps.alert == Some(alert_for(game, event, teams, user.teams)),
{
}

/// A live activity is refreshed whenever the users are told of its game:
/// a user with a live activity on the game gets one push, whatever the
/// event and whether or not alerts are asked for. It goes to the token of
/// that live activity and tells it to end where the event is the end of the
/// game, and to update itself otherwise.
pub proof fn lemma_activity_is_refreshed(
    user: UserView,
    game: GameView,
    event: Option<EventView>,
    should_alert: bool,
    now: i64,
    topic: Seq<char>,
    teams: Seq<ApiTeam>,
)
    requires
        user.activity_index(game.game_uuid) < user.live_activities.len(),
    ensures
        push_for(user, game, event, should_alert, now, topic, teams) matches Some((token, push))
            && token == user.live_activities[user.activity_index(game.game_uuid)].apn_token
            && user.live_activities[user.activity_index(game.game_uuid)].game_uuid
            == game.game_uuid && push.header.push_type == ApnPushType::LiveActivity
            && push.header.topic == topic + ".push-type.liveactivity"@ && push.header.collapse_id
            == Some(game.game_uuid) && push.body.aps.event == Some(
            if event matches Some(e) && e.info is GameEnd {
                "end"@
            } else {
                "update"@
            },
        ),
{
    lemma_first_where(
        user.live_activities,
        |e: LiveActivityView| e.game_uuid == game.game_uuid,
    );
}

} // verus!
