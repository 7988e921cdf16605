use puck::apn::{ApnClient, ApnError, ApnHeader, ApnPushType, ApnResponse};
use puck::event::{
    ApiEventType, ApiGameEvent, GameEndInfo, GoalInfo, Location, PenaltyInfo, Player, ShotInfo,
};
use puck::game::{ApiGame, Timestamp};
use puck::models::{GameType, League, Season};
use puck::notification::NotificationService;
use puck::push::{ApnAlert, LiveActivityEvent};
use puck::report::GameStatus;
use puck::teams::{ApiTeam, TeamsMap};
use puck::user::{LiveActivityEntry, User};

const NOW: i64 = 1_700_000_000;

fn team(code: &str, display_code: &str, shortname: &str) -> ApiTeam {
    ApiTeam {
        code: code.to_string(),
        display_code: display_code.to_string(),
        name: format!("{shortname} Hockey"),
        shortname: shortname.to_string(),
        golds: vec![],
        league: Some(League::SHL),
        founded: None,
        retired_numbers: vec![],
    }
}

fn teams() -> TeamsMap {
    TeamsMap::new(vec![team("SAIK", "SKE", "Skellefteå"), team("OHK", "ÖRE", "Örebro"), team("SAIK", "XXX", "Second")])
}

fn service() -> NotificationService {
    NotificationService::new(teams(), "com.example.puck".to_string())
}

fn game() -> ApiGame {
    ApiGame {
        game_uuid: "g1".to_string(),
        home_team_code: "SAIK".to_string(),
        away_team_code: "OHK".to_string(),
        home_team_result: 2,
        away_team_result: 1,
        start_date_time: Timestamp { secs: NOW, nanos: 0 },
        status: GameStatus::Period2,
        shootout: false,
        overtime: false,
        played: false,
        game_type: GameType::Season,
        league: League::SHL,
        season: Season::Season2022,
        gametime: Some("07:00".to_string()),
        votes: None,
    }
}

fn event(info: ApiEventType) -> ApiGameEvent {
    ApiGameEvent {
        game_uuid: "g1".to_string(),
        event_id: "57".to_string(),
        revision: 1,
        status: GameStatus::Period2,
        gametime: "07:00".to_string(),
        description: "described".to_string(),
        info,
    }
}

fn goal(team: &str) -> ApiEventType {
    ApiEventType::Goal(GoalInfo {
        team: team.to_string(),
        player: Some(Player { first_name: "Kristians".to_string(), family_name: "Rubins".to_string(), jersey: 33 }),
        team_advantage: "EQ".to_string(),
        assist: None,
        home_team_result: 3,
        away_team_result: 1,
        location: Location { x: 0, y: 0 },
    })
}

fn penalty() -> ApiEventType {
    ApiEventType::Penalty(PenaltyInfo {
        team: "OHK".to_string(),
        player: Some(Player { first_name: "Arvid".to_string(), family_name: "Eljas".to_string(), jersey: 24 }),
        reason: "Hooking".to_string(),
        penalty: Some("2 min".to_string()),
    })
}

fn user(teams: &[&str], token: Option<&str>) -> User {
    User {
        id: "u1".to_string(),
        teams: teams.iter().map(|e| e.to_string()).collect(),
        apn_token: token.map(|e| e.to_string()),
        ..Default::default()
    }
}

#[test]
fn team_names_fall_back_to_the_code() {
    let teams = teams();
    assert_eq!(teams.get_shortname("SAIK"), "Skellefteå");
    assert_eq!(teams.get_display_code("SAIK"), "SKE");
    assert_eq!(teams.get_shortname("LHF"), "LHF");
    assert_eq!(teams.get_display_code("LHF"), "LHF");
    assert_eq!(teams.get("OHK").unwrap().name, "Örebro Hockey");
    assert!(teams.get("LHF").is_none());
}

#[test]
fn alerts_are_written_per_event() {
    let teams = teams();
    let fan = vec!["SAIK".to_string()];
    let other = vec!["LHF".to_string()];

    let start = ApnAlert::from(&game(), &event(ApiEventType::GameStart), &teams, &fan);
    assert_eq!((start.title.as_str(), start.body.as_str(), start.subtitle), ("Nedsläpp", "Skellefteå : Örebro", None));

    let scored = ApnAlert::from(&game(), &event(goal("SAIK")), &teams, &fan);
    assert_eq!(scored.title, "MÅÅÅL för Skellefteå! 🎉");
    assert_eq!(scored.body, "SKE 3 - 1 ÖRE\nK. Rubins • P2 07:00");
    let conceded = ApnAlert::from(&game(), &event(goal("OHK")), &teams, &fan);
    assert_eq!(conceded.title, "Mål för Örebro");

    let won = ApnAlert::from(&game(), &event(ApiEventType::GameEnd(GameEndInfo { winner: Some("SAIK".to_string()) })), &teams, &fan);
    assert_eq!((won.title.as_str(), won.body.as_str()), ("Skellefteå vinner! 🥇", "Skellefteå 2 - 1 Örebro"));
    let seen = ApnAlert::from(&game(), &event(ApiEventType::GameEnd(GameEndInfo { winner: Some("SAIK".to_string()) })), &teams, &other);
    assert_eq!(seen.title, "Skellefteå vann");
    let tied = ApnAlert::from(&game(), &event(ApiEventType::GameEnd(GameEndInfo { winner: None })), &teams, &fan);
    assert_eq!(tied.title, "Matchen slutade");

    let mut negative = game();
    negative.home_team_result = -2;
    negative.away_team_result = 10;
    let odd = ApnAlert::from(&negative, &event(ApiEventType::Timeout), &teams, &fan);
    assert_eq!((odd.title.as_str(), odd.body.as_str()), ("Timeout", "SKE -2 - 10 ÖRE"));
}

#[test]
fn the_time_of_an_event_is_written_by_its_period() {
    let at = |status: GameStatus| {
        let mut e = event(ApiEventType::General);
        e.status = status;
        e.get_time_info()
    };
    assert_eq!(at(GameStatus::Period1), "P1 07:00");
    assert_eq!(at(GameStatus::Period2), "P2 07:00");
    assert_eq!(at(GameStatus::Period3), "P3 07:00");
    assert_eq!(at(GameStatus::Overtime), "Övertid 07:00");
    assert_eq!(at(GameStatus::Shootout), "Straffar");
    assert_eq!(at(GameStatus::Intermission), "");
    assert_eq!(at(GameStatus::Coming), "");
}

#[test]
fn images_go_with_the_teams_of_an_event() {
    let images = |info: ApiEventType| event(info).get_images(&game());
    assert_eq!(images(ApiEventType::GameStart), vec!["SAIK", "OHK"]);
    assert_eq!(images(ApiEventType::GameEnd(GameEndInfo { winner: Some("OHK".to_string()) })), vec!["OHK"]);
    assert_eq!(images(ApiEventType::GameEnd(GameEndInfo { winner: None })), vec!["SAIK", "OHK"]);
    assert_eq!(images(goal("SAIK")), vec!["SAIK"]);
    assert_eq!(images(penalty()), vec!["OHK"]);
    assert!(images(ApiEventType::PeriodStart).is_empty());
    assert!(images(ApiEventType::Shot(ShotInfo { team: "SAIK".to_string(), location: Location { x: 0, y: 0 } })).is_empty());
}

#[test]
fn live_activities_show_the_event() {
    let teams = teams();
    let fan = vec!["OHK".to_string()];
    let shown = |info: ApiEventType| {
        let e = LiveActivityEvent::from(&event(info), &teams, &fan);
        (e.title, e.body, e.team_code)
    };
    assert_eq!(shown(ApiEventType::GameStart), ("Nedsläpp".to_string(), None, None));
    assert_eq!(
        shown(goal("OHK")),
        ("MÅÅÅL för Örebro! 🎉".to_string(), Some("K. Rubins • P2 07:00".to_string()), Some("OHK".to_string()))
    );
    assert_eq!(
        shown(penalty()),
        ("Utvisning - 2 min".to_string(), Some("A. Eljas • Hooking".to_string()), Some("OHK".to_string()))
    );
    assert_eq!(
        shown(ApiEventType::Penalty(PenaltyInfo { team: "OHK".to_string(), player: None, reason: "Too many".to_string(), penalty: None })),
        ("Utvisning - ".to_string(), Some(" • Too many".to_string()), Some("OHK".to_string()))
    );
    assert_eq!(shown(ApiEventType::GameEnd(GameEndInfo { winner: Some("OHK".to_string()) })), ("Örebro vinner! 🥇".to_string(), None, None));
    assert_eq!(shown(ApiEventType::PeriodEnd), ("described".to_string(), None, None));
}

#[test]
fn alerts_go_to_users_who_follow_the_game() {
    let g = game();
    assert!(user(&["SAIK"], Some("t")).should_send(&g));
    assert!(user(&["X", "OHK"], Some("t")).should_send(&g));
    assert!(!user(&["LHF"], Some("t")).should_send(&g));
    assert!(!user(&["SAIK"], None).should_send(&g));
    let mut explicit = user(&[], Some("t"));
    explicit.explicit_games = vec!["g1".to_string()];
    assert!(explicit.should_send(&g));
    explicit.muted_games = vec!["g1".to_string()];
    assert!(!explicit.should_send(&g));
    let mut muted = user(&["SAIK"], Some("t"));
    muted.muted_games = vec!["g0".to_string(), "g1".to_string()];
    assert!(!muted.should_send(&g));
}

#[test]
fn a_follower_gets_an_alert_for_an_event_of_the_highest_level() {
    let service = service();
    let follower = user(&["SAIK"], Some("device"));
    let e = event(goal("SAIK"));
    let (token, push) = service.get_apn_push(&follower, &game(), Some(&e), true, NOW).unwrap();
    assert_eq!(token, "device");
    assert_eq!(push.header.push_type, ApnPushType::Alert);
    assert_eq!(push.header.priority, 10);
    assert_eq!(push.header.topic, "com.example.puck");
    assert_eq!(push.header.collapse_id, Some("g1".to_string()));
    assert_eq!(push.header.expiration, Some(NOW + 3600));
    assert_eq!(push.body.aps.alert.as_ref().unwrap().title, "MÅÅÅL för Skellefteå! 🎉");
    assert_eq!(push.body.aps.sound, Some("ping.aiff".to_string()));
    assert!(push.body.aps.content_state.is_none());
    assert_eq!((push.body.aps.event, push.body.aps.relevance_score, push.body.aps.stale_date, push.body.aps.timestamp), (None, None, None, None));
    assert_eq!(push.body.data.game_uuid, "g1");
    assert_eq!(push.body.local_attachements, vec!["SAIK"]);

    // no alert where the dispatcher is not asked to alert, for events below the highest
    // level, without an event, and for users who do not follow the game
    assert!(service.get_apn_push(&follower, &game(), Some(&e), false, NOW).is_none());
    assert!(service.get_apn_push(&follower, &game(), Some(&event(penalty())), true, NOW).is_none());
    assert!(service.get_apn_push(&follower, &game(), None, true, NOW).is_none());
    assert!(service.get_apn_push(&user(&["LHF"], Some("device")), &game(), Some(&e), true, NOW).is_none());
    assert!(service.get_apn_push(&user(&["SAIK"], None), &game(), Some(&e), true, NOW).is_none());
}

#[test]
fn a_live_activity_gets_its_state_refreshed() {
    let service = service();
    let mut watcher = user(&[], Some("device"));
    watcher.live_activities = vec![
        LiveActivityEntry { game_uuid: "g0".to_string(), apn_token: "other".to_string() },
        LiveActivityEntry { game_uuid: "g1".to_string(), apn_token: "activity".to_string() },
    ];

    // with an alert
    let e = event(goal("OHK"));
    let (token, push) = service.get_apn_push(&watcher, &game(), Some(&e), true, NOW).unwrap();
    assert_eq!(token, "activity");
    assert_eq!(push.header.push_type, ApnPushType::LiveActivity);
    assert_eq!(push.header.priority, 10);
    assert_eq!(push.header.topic, "com.example.puck.push-type.liveactivity");
    assert_eq!(push.header.collapse_id, Some("g1".to_string()));
    assert_eq!(push.header.expiration, Some(NOW + 3600));
    let aps = &push.body.aps;
    assert_eq!(aps.alert.as_ref().unwrap().title, "Mål för Örebro");
    assert_eq!(aps.sound, Some("ping.aiff".to_string()));
    assert_eq!(aps.event, Some("update".to_string()));
    assert_eq!(aps.relevance_score, Some(100));
    assert_eq!(aps.stale_date, Some(NOW + 3600));
    assert_eq!(aps.timestamp, Some(NOW));
    let state = aps.content_state.as_ref().unwrap();
    assert_eq!((state.report.home_score, state.report.away_score), (2, 1));
    assert_eq!(state.report.status, Some(GameStatus::Period2));
    assert_eq!(state.report.gametime, Some("07:00".to_string()));
    assert_eq!(state.event.as_ref().unwrap().team_code, Some("OHK".to_string()));
    assert_eq!(push.body.local_attachements, vec!["OHK"]);

    // silent: an event below the highest level
    let (_, push) = service.get_apn_push(&watcher, &game(), Some(&event(penalty())), true, NOW).unwrap();
    assert!(push.body.aps.alert.is_none());
    assert_eq!(push.header.priority, 5);
    assert_eq!(push.body.aps.sound, None);
    assert_eq!(push.body.aps.relevance_score, Some(75));
    assert_eq!(push.body.aps.event, Some("update".to_string()));

    // silent: no event at all
    let (_, push) = service.get_apn_push(&watcher, &game(), None, false, NOW).unwrap();
    assert!(push.body.aps.alert.is_none());
    assert_eq!(push.header.priority, 5);
    assert_eq!(push.body.aps.event, Some("update".to_string()));
    assert!(push.body.aps.content_state.as_ref().unwrap().event.is_none());
    assert!(push.body.local_attachements.is_empty());

    // the end of the game ends the live activity
    let end = event(ApiEventType::GameEnd(GameEndInfo { winner: Some("SAIK".to_string()) }));
    let (_, push) = service.get_apn_push(&watcher, &game(), Some(&end), true, NOW).unwrap();
    assert_eq!(push.body.aps.event, Some("end".to_string()));

    // a push never outlives the clock
    let (_, push) = service.get_apn_push(&watcher, &game(), None, false, i64::MAX - 10).unwrap();
    assert_eq!(push.header.expiration, Some(i64::MAX));
}

#[test]
fn a_bad_token_is_pruned() {
    let with_activities = || {
        let mut u = user(&["SAIK"], Some("device"));
        u.live_activities = vec![
            LiveActivityEntry { game_uuid: "g0".to_string(), apn_token: "other".to_string() },
            LiveActivityEntry { game_uuid: "g1".to_string(), apn_token: "activity".to_string() },
        ];
        u
    };
    let games = |u: &User| u.live_activities.iter().map(|e| e.game_uuid.clone()).collect::<Vec<String>>();

    // on an alert push the device token is nulled
    let mut u = with_activities();
    NotificationService::after_push(&mut u, "g1", ApnPushType::Alert, false, Err(ApnError::BadDeviceToken));
    assert_eq!(u.apn_token, None);
    assert_eq!(games(&u), vec!["g0", "g1"]);

    // on a live activity push that entry is removed, other entries are untouched
    let mut u = with_activities();
    NotificationService::after_push(&mut u, "g1", ApnPushType::LiveActivity, false, Err(ApnError::BadDeviceToken));
    assert_eq!(u.apn_token, Some("device".to_string()));
    assert_eq!(games(&u), vec!["g0"]);
    assert_eq!(u.live_activities[0].apn_token, "other");

    // any other failure changes nothing
    let mut u = with_activities();
    NotificationService::after_push(&mut u, "g1", ApnPushType::LiveActivity, true, Err(ApnError::Other));
    NotificationService::after_push(&mut u, "g1", ApnPushType::Alert, true, Err(ApnError::Other));
    NotificationService::after_push(&mut u, "g1", ApnPushType::Alert, true, Ok(()));
    NotificationService::after_push(&mut u, "g1", ApnPushType::LiveActivity, false, Ok(()));
    assert_eq!(u.apn_token, Some("device".to_string()));
    assert_eq!(games(&u), vec!["g0", "g1"]);

    // a live activity that was told of the end of its game is removed
    NotificationService::after_push(&mut u, "g1", ApnPushType::LiveActivity, true, Ok(()));
    assert_eq!(games(&u), vec!["g0"]);
}

#[test]
fn every_user_gets_one_push_at_most() {
    let service = service();
    let mut watcher = user(&["SAIK"], Some("device-2"));
    watcher.live_activities = vec![LiveActivityEntry { game_uuid: "g1".to_string(), apn_token: "activity".to_string() }];
    let users = vec![user(&["LHF"], Some("device-0")), user(&["OHK"], Some("device-1")), watcher, user(&["SAIK"], None)];
    let e = event(goal("SAIK"));

    let pushes = service.process(&users, &game(), Some(&e), true, NOW);
    let sent: Vec<(usize, &str, ApnPushType)> = pushes.iter().map(|d| (d.user, d.device_token.as_str(), d.push.header.push_type)).collect();
    assert_eq!(sent, vec![(1, "device-1", ApnPushType::Alert), (2, "activity", ApnPushType::LiveActivity)]);
    assert_eq!(pushes[0].push.body.aps.alert.as_ref().unwrap().title, "Mål för Skellefteå");
    assert_eq!(pushes[1].push.body.aps.alert.as_ref().unwrap().title, "MÅÅÅL för Skellefteå! 🎉");

    // a refresh of the live activities shows the last event that is not of the lowest level
    let events = vec![
        event(penalty()),
        event(ApiEventType::Shot(ShotInfo { team: "SAIK".to_string(), location: Location { x: 0, y: 0 } })),
        event(ApiEventType::General),
    ];
    assert!(std::ptr::eq(NotificationService::last_shown(&events).unwrap(), &events[0]));
    assert!(NotificationService::last_shown(&events[1..].to_vec()).is_none());
    let pushes = service.process_live_activity(&users, &game(), &events, NOW);
    assert_eq!(pushes.len(), 1);
    assert_eq!(pushes[0].user, 2);
    let aps = &pushes[0].push.body.aps;
    assert!(aps.alert.is_none());
    assert_eq!(aps.content_state.as_ref().unwrap().event.as_ref().unwrap().title, "Utvisning - 2 min");
}

#[test]
fn an_event_without_a_first_name_has_no_initial() {
    assert!(event(goal("SAIK")).has_initials());
    assert!(event(ApiEventType::GameStart).has_initials());
    let mut nameless = event(penalty());
    if let ApiEventType::Penalty(p) = &mut nameless.info {
        p.player.as_mut().unwrap().first_name = "".to_string();
    }
    assert!(!nameless.has_initials());
    if let ApiEventType::Penalty(p) = &mut nameless.info {
        p.player = None;
    }
    assert!(nameless.has_initials());
}

#[test]
fn a_first_name_is_asked_for_only_where_its_initial_is_written() {
    let service = service();
    let mut watcher = user(&["SAIK"], Some("device-1"));
    watcher.live_activities = vec![LiveActivityEntry { game_uuid: "g1".to_string(), apn_token: "activity".to_string() }];
    let elsewhere = {
        let mut u = user(&["SAIK"], Some("device-2"));
        u.live_activities = vec![LiveActivityEntry { game_uuid: "g0".to_string(), apn_token: "other".to_string() }];
        u
    };
    let followers = vec![user(&["SAIK"], Some("device-0")), elsewhere, user(&["LHF"], None)];
    let mut with_watcher = followers.clone();
    with_watcher.push(watcher);

    let mut nameless_penalty = event(penalty());
    if let ApiEventType::Penalty(p) = &mut nameless_penalty.info {
        p.player.as_mut().unwrap().first_name = "".to_string();
    }
    let mut nameless_goal = event(goal("SAIK"));
    if let ApiEventType::Goal(g) = &mut nameless_goal.info {
        g.player.as_mut().unwrap().first_name = "".to_string();
    }
    assert!(nameless_penalty.has_scorer_initial());
    assert!(!nameless_goal.has_scorer_initial());
    assert!(event(goal("SAIK")).has_scorer_initial());
    assert!(event(ApiEventType::GameStart).has_scorer_initial());

    // an alert never names the player of a penalty, a live activity does
    assert!(NotificationService::has_names(&followers, &game(), Some(&nameless_penalty), true));
    assert!(!NotificationService::has_names(&with_watcher, &game(), Some(&nameless_penalty), true));
    assert!(!NotificationService::has_names(&with_watcher, &game(), Some(&nameless_penalty), false));
    assert!(service.process(&followers, &game(), Some(&nameless_penalty), true, NOW).is_empty());
    let alert = ApnAlert::from(&game(), &nameless_penalty, &service.teams, &vec![]);
    assert_eq!(alert.body, "SKE 2 - 1 ÖRE");

    // an alert on a goal names the scorer, where an alert is written at all
    assert!(!NotificationService::has_names(&followers, &game(), Some(&nameless_goal), true));
    assert!(NotificationService::has_names(&followers, &game(), Some(&nameless_goal), false));
    assert!(NotificationService::has_names(&followers[2..].to_vec(), &game(), Some(&nameless_goal), true));
    assert!(!NotificationService::has_names(&with_watcher, &game(), Some(&nameless_goal), false));
    assert!(service.process(&followers, &game(), Some(&nameless_goal), false, NOW).is_empty());
    assert!(service.process(&followers[2..].to_vec(), &game(), Some(&nameless_goal), true, NOW).is_empty());

    // no event, no name
    assert!(NotificationService::has_names(&with_watcher, &game(), None, true));
    assert!(NotificationService::has_names(&with_watcher, &game(), Some(&event(goal("SAIK"))), true));

    // a refresh of the live activities reads the event that it shows, and no other
    let events = vec![nameless_penalty, event(goal("SAIK")), event(ApiEventType::General)];
    let shown = NotificationService::last_shown(&events);
    assert!(NotificationService::has_names(&with_watcher, &game(), shown, false));
    let pushes = service.process_live_activity(&with_watcher, &game(), &events, NOW);
    assert_eq!(pushes.len(), 1);
    assert_eq!(pushes[0].device_token, "activity");
    assert_eq!(pushes[0].push.body.aps.event, Some("update".to_string()));

    // without an event above the lowest level the live activity is still told to update itself
    let pushes = service.process_live_activity(&with_watcher, &game(), &vec![event(ApiEventType::General)], NOW);
    assert_eq!(pushes.len(), 1);
    assert_eq!(pushes[0].push.header.priority, 5);
    assert_eq!(pushes[0].push.body.aps.event, Some("update".to_string()));
    assert!(pushes[0].push.body.aps.content_state.as_ref().unwrap().event.is_none());
}

#[test]
fn ten_followers_get_ten_alerts() {
    let service = service();
    let mut users: Vec<User> = Vec::new();
    for i in 0..10 {
        users.push(user(&["SAIK"], Some(&format!("saik-{i}"))));
        users.push(user(&["LHF"], Some(&format!("lhf-{i}"))));
    }
    let start = event(ApiEventType::GameStart);
    let pushes = service.process(&users, &game(), Some(&start), true, NOW);
    assert_eq!(pushes.len(), 10);
    for (i, d) in pushes.iter().enumerate() {
        assert_eq!(d.user, 2 * i);
        assert_eq!(d.device_token, format!("saik-{i}"));
        assert_eq!(d.push.header.push_type, ApnPushType::Alert);
        assert_eq!(d.push.body.aps.alert.as_ref().unwrap().title, "Nedsläpp");
    }
    // an event below the highest level alerts nobody
    assert!(service.process(&users, &game(), Some(&event(penalty())), true, NOW).is_empty());
}

#[test]
fn headers_of_a_push() {
    let header = ApnHeader {
        push_type: ApnPushType::LiveActivity,
        priority: 5,
        topic: "topic".to_string(),
        collapse_id: Some("g1".to_string()),
        expiration: Some(-7),
    };
    let line = |k: &str, v: &str| (k.to_string(), v.to_string());
    assert_eq!(
        header.lines(),
        vec![
            line("apns-priority", "5"),
            line("apns-topic", "topic"),
            line("apns-push-type", "liveactivity"),
            line("apns-expiration", "-7"),
            line("apns-collapse-id", "g1"),
        ]
    );
    let header = ApnHeader { push_type: ApnPushType::Alert, priority: 10, topic: "t".to_string(), collapse_id: None, expiration: None };
    assert_eq!(header.lines(), vec![line("apns-priority", "10"), line("apns-topic", "t"), line("apns-push-type", "alert")]);
    assert_eq!(ApnPushType::Alert.to_string(), "alert");
    assert_eq!(ApnError::BadDeviceToken.to_string(), "BadDeviceToken");
    assert_eq!(ApnError::Other.to_string(), "Other");
}

#[test]
fn the_answer_of_the_gateway_is_read() {
    let answer = |reason: Option<&str>| ApnResponse { reason: reason.map(|e| e.to_string()) };
    assert_eq!(ApnClient::read_answer(200, &answer(None)), Ok(()));
    assert_eq!(ApnClient::read_answer(200, &answer(Some("BadDeviceToken"))), Ok(()));
    assert_eq!(ApnClient::read_answer(400, &answer(Some("BadDeviceToken"))), Err(ApnError::BadDeviceToken));
    assert_eq!(ApnClient::read_answer(410, &answer(Some("Unregistered"))), Err(ApnError::BadDeviceToken));
    assert_eq!(ApnClient::read_answer(400, &answer(Some("BadTopic"))), Err(ApnError::Other));
    assert_eq!(ApnClient::read_answer(500, &answer(None)), Err(ApnError::Other));
}

#[test]
fn the_token_is_renewed_after_55_minutes() {
    let mut client = ApnClient::new("https://apn".to_string(), "team".to_string(), "key".to_string(), "path".to_string());
    let at = |secs: i64, nanos: u32| Timestamp { secs, nanos };
    assert!(client.needs_token(at(0, 0)));
    assert_eq!(client.push_url("abc"), "https://apn/3/device/abc");

    client.token = Some(puck::apn::Token { value: "signed".to_string(), expiration: at(1000, 500) });
    assert!(!client.needs_token(at(1000, 500)));
    assert!(!client.needs_token(at(1000 + 3299, 999_999_999)));
    assert!(!client.needs_token(at(1000 + 3300, 499)));
    assert!(client.needs_token(at(1000 + 3300, 500)));
    assert!(client.needs_token(at(1000 + 3301, 0)));

    assert_eq!(client.claims(77), (vec![("iss".to_string(), "team".to_string())], vec![("iat".to_string(), 77)]));

    // a token that is not due is kept
    assert!(client.update_token(&b"no key".to_vec(), at(2000, 0)));
    assert_eq!(client.token.as_ref().unwrap().value, "signed");
    // a key that cannot be read makes no token
    assert!(!client.update_token(&b"no key".to_vec(), at(9000, 0)));
    assert!(client.token.is_none());

    // what was signed is the token, made at the time of the signing
    let token = puck::apn::Token::signed(Some("a.b.c".to_string()), at(9000, 7)).unwrap();
    assert_eq!((token.value.as_str(), token.expiration), ("a.b.c", at(9000, 7)));
    assert!(puck::apn::Token::signed(None, at(9000, 7)).is_none());
}
