use puck::apn::ApnPushType;
use puck::bus::Msg;
use puck::event::ApiGameEvent;
use puck::event_store::EventService;
use puck::game::{ApiGame, Timestamp};
use puck::listener::{Listener, SseClient};
use puck::models::{GameType, League, Season, SeasonKey, StringOrNum};
use puck::notification::NotificationService;
use puck::provider::{
    EventPlayer, EventTeam, EventType, GameReport, LiveEvent, LiveEventTeam, LiveState,
    LiveStateEvent, PeriodType, PlayByPlay, ShotType, SseEvent, SseGameTime,
};
use puck::registry::ApiSeasonService;
use puck::report::{ApiGameReport, GameStatus};
use puck::season::{GameTeamInfo, SeasonGame, SeasonRsp, SeriesInfo, TeamNames};
use puck::teams::TeamsMap;
use puck::user::{AddUser, StartLiveActivity, User, UserService};
use puck::vote::VoteService;
use puck::writer::{Writer, WriterAction};

const NOW: i64 = 1_700_000_000;

fn get_team_info(code: &str, score: i16) -> GameTeamInfo {
    GameTeamInfo {
        code: code.to_string(),
        score: StringOrNum::Number(score),
        names: TeamNames { code: code.to_string(), long: code.to_string(), short: code.to_string() },
    }
}

fn season_game(uuid: &str, home: &str, away: &str) -> SeasonGame {
    SeasonGame {
        uuid: uuid.to_string(),
        homeTeamInfo: get_team_info(home, 0),
        awayTeamInfo: get_team_info(away, 0),
        startDateTime: Timestamp { secs: NOW - 5 * 60, nanos: 0 },
        state: "pre-game".to_string(),
        shootout: false,
        overtime: false,
        seriesInfo: SeriesInfo { code: League::SHL },
    }
}

struct World {
    registry: ApiSeasonService,
    reports: Vec<ApiGameReport>,
    live_logs: Vec<(String, Vec<LiveEvent>)>,
    older_logs: Vec<(String, Vec<PlayByPlay>)>,
    clients: Vec<(String, SseClient)>,
    users: Vec<User>,
    service: NotificationService,
    notifications: Vec<(String, String)>,
    live_activities: Vec<String>,
    published: Vec<Msg>,
}

impl World {
    fn new(games: Vec<SeasonGame>) -> World {
        let mut registry = ApiSeasonService::new();
        let key = SeasonKey(Season::get_current(), League::SHL, GameType::Season);
        registry.update(
            &Season::get_current(),
            &vec![(key, SeasonRsp { gameInfo: games, teamList: vec![] })],
            &VoteService::new(vec![]),
            &vec![],
            Timestamp { secs: NOW, nanos: 0 },
        );
        World {
            registry,
            reports: vec![],
            live_logs: vec![],
            older_logs: vec![],
            clients: vec![],
            users: vec![],
            service: NotificationService::new(TeamsMap::new(vec![]), "topic".to_string()),
            notifications: vec![],
            live_activities: vec![],
            published: vec![],
        }
    }

    fn add_user(&mut self, req: AddUser) {
        let at = self.users.iter().position(|u| u.id == req.id);
        let known = at.map(|i| self.users.remove(i));
        self.users.push(UserService::handle(known, req));
    }

    fn start_live_activity(&mut self, req: &StartLiveActivity) {
        if let Some(user) = self.users.iter_mut().find(|u| u.id == req.user_id) {
            UserService::start_live_activity(user, req);
        }
    }

    fn push_event(&mut self, game_uuid: &str, frame: SseEvent) {
        if !self.clients.iter().any(|c| c.0 == game_uuid) {
            self.clients.push((game_uuid.to_string(), SseClient::new()));
            self.live_logs.push((game_uuid.to_string(), vec![]));
            self.older_logs.push((game_uuid.to_string(), vec![]));
        }
        let at = self.clients.iter().position(|c| c.0 == game_uuid).unwrap();
        let msgs = self.clients[at].1.on_frame(frame);
        for msg in msgs {
            let out = Listener::handle_sse_msg(
                game_uuid,
                msg,
                &mut self.live_logs[at].1,
                &mut self.older_logs[at].1,
            );
            for bus in out {
                self.write(bus);
            }
        }
    }

    fn write(&mut self, msg: Msg) {
        let actions = match msg {
            Msg::UpdateReport { report, game_uuid, forced } => {
                let stored = self.reports.iter().find(|r| r.game_uuid == game_uuid).cloned();
                let old = Writer::prior_report(&self.registry, stored, &game_uuid).expect("old report");
                Writer::on_update_report(&mut self.registry, &old, &report, &game_uuid, forced)
            }
            Msg::AddEvent { event, game_uuid } => Writer::on_add_event(&self.registry, event, &game_uuid),
            _ => vec![],
        };
        for action in actions {
            match action {
                WriterAction::StoreReport { game_uuid, report } => {
                    self.reports.retain(|r| r.game_uuid != game_uuid);
                    self.reports.push(report);
                }
                WriterAction::Notify { game, event } => {
                    let pushes = self.service.process(&self.users, &game, Some(&event), true, NOW);
                    let ended = event.info.is_game_end();
                    self.deliver(pushes, &game, ended);
                }
                WriterAction::RefreshLiveActivities { game } => {
                    let events = self.events(&game.game_uuid);
                    let pushes = self.service.process_live_activity(&self.users, &game, &events, NOW);
                    self.deliver(pushes, &game, false);
                }
                WriterAction::Publish(msg) => self.published.push(msg),
            }
        }
    }

    fn deliver(&mut self, pushes: Vec<puck::notification::Delivery>, game: &ApiGame, ended: bool) {
        for delivery in pushes {
            let push_type = delivery.push.header.push_type;
            match push_type {
                ApnPushType::LiveActivity => self.live_activities.push(delivery.device_token.clone()),
                ApnPushType::Alert => self.notifications.push((
                    delivery.device_token.clone(),
                    delivery.push.body.aps.alert.as_ref().unwrap().title.clone(),
                )),
            }
            NotificationService::after_push(
                &mut self.users[delivery.user],
                &game.game_uuid,
                push_type,
                ended,
                Ok(()),
            );
        }
    }

    fn events(&self, game_uuid: &str) -> Vec<ApiGameEvent> {
        match self.live_logs.iter().find(|l| l.0 == game_uuid) {
            Some(log) => EventService::read(&log.1),
            None => vec![],
        }
    }

    fn game(&self, game_uuid: &str) -> ApiGame {
        self.registry.read_current_season_game(game_uuid).expect("game")
    }

    fn nr_live(&self, token: &str) -> usize {
        self.live_activities.iter().filter(|t| *t == token).count()
    }
}

fn game_report(game_uuid: &str, home: &str, away: &str) -> GameReport {
    GameReport {
        gameUuid: game_uuid.to_string(),
        gameTime: "00:00".to_string(),
        statusString: "Ongoing".to_string(),
        gameState: "Ongoing".to_string(),
        period: StringOrNum::Number(1),
        homeTeamId: Some(home.to_string()),
        awayTeamId: Some(away.to_string()),
        homeTeamScore: StringOrNum::Number(0),
        awayTeamScore: StringOrNum::Number(0),
        revision: 1,
    }
}

fn add_user(id: String, team: &str, token: String) -> AddUser {
    AddUser { id, teams: vec![team.to_string()], apn_token: Some(token), ios_version: None, app_version: None }
}

fn period_event(event_id: i16, period: i16) -> LiveEvent {
    LiveEvent {
        gameUuid: "game_uuid_1".to_string(),
        eventId: Some(StringOrNum::Number(event_id)),
        period: StringOrNum::Number(period),
        eventType: Some(EventType::Period(PeriodType { started: true, finished: false })),
    }
}

fn shot_type(home_score: i16, revision: u16, goal_status: Option<&str>) -> ShotType {
    ShotType {
        time: "13:37".to_string(),
        gameState: "Ongoing".to_string(),
        goalStatus: goal_status.map(|e| e.to_string()),
        homeTeam: LiveEventTeam { teamId: "SAIK".to_string(), score: StringOrNum::Number(home_score) },
        awayTeam: LiveEventTeam { teamId: "MODO".to_string(), score: StringOrNum::Number(2) },
        eventTeam: EventTeam { teamId: "SAIK".to_string() },
        revision,
        player: EventPlayer {
            playerId: StringOrNum::Number(1337),
            familyName: "Olle".to_string(),
            firstName: "Karlsson".to_string(),
            jerseyToday: StringOrNum::Number(33),
        },
    }
}

#[test]
fn test_game_decoration() {
    // Given - a game of the current season that is about to begin
    let mut world = World::new(vec![season_game("game_uuid_1", "SAIK", "OHK")]);
    world.add_user(add_user("user_id_SAIK_1".to_string(), "SAIK", "apn_token_SAIK_1".to_string()));

    // When - without any report
    world.push_event("game_uuid_1", SseEvent { ..Default::default() });
    let game_uuid = "game_uuid_1";
    {
        // Then - game should be in status Coming
        let game = world.game(game_uuid);
        assert_eq!(game.status, GameStatus::Coming);
    }

    // When - with report with status Period1
    let mut report = GameReport {
        gameUuid: game_uuid.to_string(),
        gameTime: "13:37".to_string(),
        statusString: "not used".to_string(),
        gameState: "Ongoing".to_string(),
        period: StringOrNum::String("1".to_string()),
        homeTeamId: Some("SAIK".to_string()),
        awayTeamId: Some("OHK".to_string()),
        homeTeamScore: StringOrNum::Number(2),
        awayTeamScore: StringOrNum::Number(1),
        revision: 1,
    };
    world.push_event(game_uuid, SseEvent { gameReport: Some(report.clone()), ..Default::default() });
    {
        // Then - game should be in status Period1
        let game = world.game(game_uuid);
        assert_eq!(game.gametime.clone().unwrap(), "13:37");
        assert!(!game.played);
        assert_eq!(game.status, GameStatus::Period1);
        assert_eq!(game.home_team_result, 2);
        assert_eq!(game.away_team_result, 1);
        assert_eq!(game.gametime.as_ref().unwrap(), "13:37");
        // a single fan-out that tells of the start of the game
        assert_eq!(world.notifications, vec![("apn_token_SAIK_1".to_string(), "Nedsläpp".to_string())]);
    }

    // When - with report with status Intermission
    report.gameState = "Intermission".to_string();
    report.gameTime = "20:00".to_string();
    report.revision += 1;
    world.push_event(game_uuid, SseEvent { gameReport: Some(report.clone()), ..Default::default() });
    {
        // Then - game should be in status Intermission
        let game = world.game(game_uuid);
        assert_eq!(game.gametime.unwrap(), "20:00");
        assert!(!game.played);
        assert_eq!(game.status, GameStatus::Intermission);
        assert_eq!(world.notifications.len(), 1);
    }

    // When - with report with status Finished
    report.gameState = "GameEnded".to_string();
    report.revision += 1;
    world.push_event(game_uuid, SseEvent { gameReport: Some(report.clone()), ..Default::default() });
    {
        // Then - game should be in status Finished
        let game = world.game(game_uuid);
        assert!(game.played);
        assert_eq!(game.status, GameStatus::Finished);
        // the end of the game is told with the winner
        assert_eq!(world.notifications.len(), 2);
        assert_eq!(world.notifications[1].1, "SAIK vinner! 🥇");
    }
}

#[test]
fn test_multiple_live_games() {
    // Given - three games
    let mut world = World::new(vec![
        season_game("game_uuid_1", "SAIK", "OHK"),
        season_game("game_uuid_2", "LHF", "MODO"),
        season_game("game_uuid_3", "TIK", "FBK"),
    ]);

    // When - add users that should receive notifications
    for i in 0..10 {
        world.add_user(add_user(format!("user_id_SAIK_{i}"), "SAIK", format!("apn_token_SAIK_{i}")));
    }
    for i in 0..10 {
        world.add_user(add_user(format!("user_id_LHF_{i}"), "LHF", format!("apn_token_LHF_{i}")));
    }

    // When - new report for game with 10 subscribers
    world.push_event("game_uuid_1", SseEvent { gameReport: Some(game_report("game_uuid_1", "SAIK", "OHK")), ..Default::default() });
    assert_eq!(world.game("game_uuid_1").status, GameStatus::Period1);

    // Then - 10 more notifications should be pushed
    assert_eq!(world.notifications.len(), 10);

    // When - new report for game with 10 subscribers
    world.push_event("game_uuid_2", SseEvent { playByPlay: None, gameReport: Some(game_report("game_uuid_2", "LHF", "MODO")), ..Default::default() });
    assert_eq!(world.game("game_uuid_2").status, GameStatus::Period1);

    // Then - 10 more notifications should be pushed
    assert_eq!(world.notifications.len(), 20);

    // When - new report for game with no subscribers
    world.push_event("game_uuid_3", SseEvent { playByPlay: None, gameReport: Some(game_report("game_uuid_3", "TIK", "FBK")), ..Default::default() });
    assert_eq!(world.game("game_uuid_3").status, GameStatus::Period1);

    // Then - no more notifications should be pushed
    assert_eq!(world.notifications.len(), 20);
}

#[test]
fn test_live_events() {
    let mut world = World::new(vec![season_game("game_uuid_1", "SAIK", "OHK")]);

    // When - add users that should receive notifications
    for i in 0..10 {
        world.add_user(add_user(format!("user_id_SAIK_{i}"), "SAIK", format!("apn_token_SAIK_{i}")));
    }
    for i in 0..10 {
        let req = add_user(format!("user_id_SAIK_live_{i}"), "SAIK", format!("apn_token_SAIK_{i}"));
        let start_req = StartLiveActivity { user_id: req.id.clone(), token: req.apn_token.clone().unwrap(), game_uuid: "game_uuid_1".to_string() };
        world.add_user(req);
        world.start_live_activity(&start_req);
    }

    // When - new report for game with 10 subscribers
    world.push_event("game_uuid_1", SseEvent { liveEvent: Some(period_event(1, 1)), ..Default::default() });
    assert_eq!(world.game("game_uuid_1").status, GameStatus::Period1);

    // Then - 10 more notifications should be pushed
    assert_eq!(world.notifications.len(), 10);
    assert_eq!(world.notifications[0].1, "Nedsläpp");
    assert_eq!(world.nr_live("apn_token_SAIK_0"), 2); // RSM event, Live Event
    assert_eq!(world.events("game_uuid_1").len(), 1);

    // When - a shot
    world.push_event("game_uuid_1", SseEvent {
        liveEvent: Some(LiveEvent {
            gameUuid: "game_uuid_1".to_string(),
            eventId: Some(StringOrNum::Number(2)),
            period: StringOrNum::Number(1),
            eventType: Some(EventType::Shot(shot_type(1, 1, None))),
        }),
        ..Default::default()
    });

    // Then game should be updated - score shouldn't be affected
    let game = world.game("game_uuid_1");
    assert_eq!(game.gametime, Some("13:37".to_string()));
    assert_eq!(game.home_team_result, 0);
    assert_eq!(game.away_team_result, 0);

    // Then - 0 more notifications should be pushed
    assert_eq!(world.notifications.len(), 10);
    assert_eq!(world.nr_live("apn_token_SAIK_0"), 3);
    assert_eq!(world.events("game_uuid_1").len(), 2);

    // When - new live event for game with 10 subscribers
    world.push_event("game_uuid_1", SseEvent {
        liveEvent: Some(LiveEvent {
            gameUuid: "game_uuid_1".to_string(),
            eventId: Some(StringOrNum::Number(3)),
            period: StringOrNum::Number(1),
            eventType: Some(EventType::Goal(shot_type(6, 1, Some("EQ")))),
        }),
        ..Default::default()
    });

    // Then game should be updated
    let game = world.game("game_uuid_1");
    assert_eq!(game.gametime, Some("13:37".to_string()));
    assert_eq!(game.home_team_result, 6);
    assert_eq!(game.away_team_result, 2);

    // Then - 10 more notifications should be pushed
    assert_eq!(world.notifications.len(), 20);
    assert_eq!(world.nr_live("apn_token_SAIK_0"), 5);
    assert_eq!(world.events("game_uuid_1").len(), 3);
}

#[test]
fn live_activity_follows_every_accepted_change() {
    let mut world = World::new(vec![season_game("game_uuid_1", "SAIK", "OHK")]);
    let req = add_user("user_id_SAIK_live_0".to_string(), "SAIK", "apn_token_SAIK_0".to_string());
    let start_req = StartLiveActivity { user_id: req.id.clone(), token: req.apn_token.clone().unwrap(), game_uuid: "game_uuid_1".to_string() };
    world.add_user(req);
    world.start_live_activity(&start_req);

    // the start of the first period: the start of the game and the event
    world.push_event("game_uuid_1", SseEvent { liveEvent: Some(period_event(1, 1)), ..Default::default() });
    assert_eq!(world.game("game_uuid_1").status, GameStatus::Period1);
    assert_eq!(world.nr_live("apn_token_SAIK_0"), 2);

    // a new game time
    let clock = |time: &str| SseEvent {
        gameTime: Some(SseGameTime {
            gameUuid: "game_uuid_1".to_string(),
            period: Some(StringOrNum::Number(1)),
            periodTime: Some(time.to_string()),
        }),
        ..Default::default()
    };
    world.push_event("game_uuid_1", clock("00:27"));
    assert_eq!(world.game("game_uuid_1").gametime, Some("00:27".to_string()));
    assert_eq!(world.nr_live("apn_token_SAIK_0"), 3);

    // a game time that goes back is another game time, and is accepted
    world.push_event("game_uuid_1", clock("00:26"));
    assert_eq!(world.nr_live("apn_token_SAIK_0"), 4);

    // the same game time again changes nothing, and is dropped
    world.push_event("game_uuid_1", clock("00:26"));
    assert_eq!(world.nr_live("apn_token_SAIK_0"), 4);

    // a goal: the report and the event
    let goal = |revision: u16| SseEvent {
        liveEvent: Some(LiveEvent {
            gameUuid: "game_uuid_1".to_string(),
            eventId: Some(StringOrNum::Number(1)),
            period: StringOrNum::Number(1),
            eventType: Some(EventType::Goal(shot_type(6, revision, Some("EQ")))),
        }),
        ..Default::default()
    };
    world.push_event("game_uuid_1", goal(1));
    assert_eq!(world.game("game_uuid_1").home_team_result, 6);
    assert_eq!(world.nr_live("apn_token_SAIK_0"), 6);

    // the same event in a later revision is stored, and nothing is told
    world.push_event("game_uuid_1", goal(2));
    assert_eq!(world.nr_live("apn_token_SAIK_0"), 6);
    assert_eq!(world.events("game_uuid_1").len(), 2);
    assert_eq!(world.events("game_uuid_1")[1].revision, 2);

    // the second and the third period
    world.push_event("game_uuid_1", SseEvent { liveEvent: Some(period_event(33, 2)), ..Default::default() });
    assert_eq!(world.game("game_uuid_1").status, GameStatus::Period2);
    assert_eq!(world.nr_live("apn_token_SAIK_0"), 8);
    world.push_event("game_uuid_1", SseEvent { liveEvent: Some(period_event(34, 3)), ..Default::default() });
    assert_eq!(world.game("game_uuid_1").status, GameStatus::Period3);
    assert_eq!(world.nr_live("apn_token_SAIK_0"), 10);

    // overtime raises the overtime flag
    world.push_event("game_uuid_1", SseEvent { liveEvent: Some(period_event(34, 4)), ..Default::default() });
    let game = world.game("game_uuid_1");
    assert_eq!(game.status, GameStatus::Overtime);
    assert!(game.overtime);
    assert!(!game.shootout);
    assert_eq!(world.nr_live("apn_token_SAIK_0"), 12);

    // the game is decided
    world.push_event("game_uuid_1", SseEvent {
        liveState: Some(LiveStateEvent {
            gameUuid: "game_uuid_1".to_string(),
            liveState: LiveState::Decided,
            previousLiveState: LiveState::Ongoing,
        }),
        ..Default::default()
    });
    let game = world.game("game_uuid_1");
    assert_eq!(game.status, GameStatus::Finished);
    assert!(game.overtime);
    assert!(!game.shootout);
    assert_eq!(world.nr_live("apn_token_SAIK_0"), 13);

    // the live activity was told of the end of its game, and is gone
    assert!(world.users[0].live_activities.is_empty());

    // every accepted change was published, in its order
    let statuses: Vec<GameStatus> = world
        .published
        .iter()
        .filter_map(|m| match m {
            Msg::ReportUpdated { report, game_uuid: _ } => Some(report.status),
            _ => None,
        })
        .collect();
    assert_eq!(
        statuses,
        vec![
            GameStatus::Period1,
            GameStatus::Period1,
            GameStatus::Period1,
            GameStatus::Period1,
            GameStatus::Period2,
            GameStatus::Period3,
            GameStatus::Overtime,
            GameStatus::Finished,
        ]
    );
}

#[test]
fn a_full_game_alerts_a_follower_seven_times() {
    let mut world = World::new(vec![season_game("game_uuid_1", "SAIK", "OHK")]);
    world.add_user(add_user("follower".to_string(), "SAIK", "device".to_string()));
    world.add_user(add_user("stranger".to_string(), "LHF", "other".to_string()));

    let goal = |event_id: i16, period: i16, team: &str, home: i16, away: i16| SseEvent {
        liveEvent: Some(LiveEvent {
            gameUuid: "game_uuid_1".to_string(),
            eventId: Some(StringOrNum::Number(event_id)),
            period: StringOrNum::Number(period),
            eventType: Some(EventType::Goal(ShotType {
                time: format!("{:02}:00", event_id),
                gameState: "Ongoing".to_string(),
                goalStatus: None,
                homeTeam: LiveEventTeam { teamId: "SAIK".to_string(), score: StringOrNum::Number(home) },
                awayTeam: LiveEventTeam { teamId: "OHK".to_string(), score: StringOrNum::Number(away) },
                eventTeam: EventTeam { teamId: team.to_string() },
                revision: 1,
                player: EventPlayer {
                    playerId: StringOrNum::Number(7),
                    familyName: "Ek".to_string(),
                    firstName: "Bo".to_string(),
                    jerseyToday: StringOrNum::Number(7),
                },
            })),
        }),
        ..Default::default()
    };
    let mark = |period: i16, finished: bool| SseEvent {
        liveEvent: Some(LiveEvent {
            gameUuid: "game_uuid_1".to_string(),
            eventId: None,
            period: StringOrNum::Number(period),
            eventType: Some(EventType::Period(PeriodType { started: true, finished })),
        }),
        ..Default::default()
    };

    world.push_event("game_uuid_1", mark(1, false));
    world.push_event("game_uuid_1", goal(1, 1, "SAIK", 1, 0));
    world.push_event("game_uuid_1", goal(2, 1, "OHK", 1, 1));
    world.push_event("game_uuid_1", mark(1, true));
    world.push_event("game_uuid_1", mark(2, false));
    world.push_event("game_uuid_1", goal(3, 2, "SAIK", 2, 1));
    world.push_event("game_uuid_1", mark(2, true));
    world.push_event("game_uuid_1", mark(3, false));
    world.push_event("game_uuid_1", goal(4, 3, "SAIK", 3, 1));
    world.push_event("game_uuid_1", goal(5, 3, "OHK", 3, 2));
    world.push_event("game_uuid_1", SseEvent {
        liveState: Some(LiveStateEvent {
            gameUuid: "game_uuid_1".to_string(),
            liveState: LiveState::Decided,
            previousLiveState: LiveState::Ongoing,
        }),
        ..Default::default()
    });

    let game = world.game("game_uuid_1");
    assert_eq!(game.status, GameStatus::Finished);
    assert!(game.played);
    assert_eq!((game.home_team_result, game.away_team_result), (3, 2));
    let titles: Vec<&str> = world.notifications.iter().map(|n| n.1.as_str()).collect();
    assert_eq!(
        titles,
        vec![
            "Nedsläpp",
            "MÅÅÅL för SAIK! 🎉",
            "Mål för OHK",
            "MÅÅÅL för SAIK! 🎉",
            "MÅÅÅL för SAIK! 🎉",
            "Mål för OHK",
            "SAIK vinner! 🥇",
        ]
    );
    assert!(world.notifications.iter().all(|n| n.0 == "device"));
    assert_eq!(world.events("game_uuid_1").len(), 10);
}
