use puck::bus::Msg;
use puck::config::{default_db_path, default_false, default_sse_sleep, default_true, Config, LogResult};
use puck::details::{ApiGameDetailsService, DetailsStep};
use puck::event::{ApiEventType, ApiGameEvent};
use puck::game::{ApiGame, Timestamp};
use puck::models::{GameType, League, Season, SeasonKey};
use puck::orchestrator::{Orchestrator, RefreshAction, SentGames, Transport};
use puck::report::{ApiGameReport, GameStatus};
use puck::rest::{
    get_events_2023_url, get_events_url, get_player_stats_url, get_season_url, get_sse_url,
    get_stats_url, store_step, throttle_step, Db, FetchDetailsService, IdentifiableEnum, Span,
    StoreStep, ThrottleStep,
};

const NOW: Timestamp = Timestamp { secs: 1_700_000_000, nanos: 0 };

fn game(uuid: &str, status: GameStatus, start_in_secs: i64) -> ApiGame {
    ApiGame {
        game_uuid: uuid.to_string(),
        home_team_code: "SAIK".to_string(),
        away_team_code: "OHK".to_string(),
        home_team_result: 0,
        away_team_result: 0,
        start_date_time: Timestamp { secs: NOW.secs + start_in_secs, nanos: 0 },
        status,
        shootout: false,
        overtime: false,
        played: status == GameStatus::Finished,
        game_type: GameType::PlayOff,
        league: League::HA,
        season: Season::Season2021,
        gametime: None,
        votes: None,
    }
}

#[test]
fn a_listener_is_spawned_once_for_a_live_game() {
    let mut sent = SentGames::new(40);
    let games = vec![
        game("live", GameStatus::Coming, -60),
        game("soon", GameStatus::Coming, 179),
        game("later", GameStatus::Coming, 180),
        game("done", GameStatus::Finished, -7200),
        game("running", GameStatus::Period2, -3600),
        game("live", GameStatus::Coming, -60),
    ];
    assert_eq!(Orchestrator::games_to_spawn(&games, NOW, &mut sent), vec!["live", "soon", "running"]);
    assert!(sent.contains(&"running".to_string()));
    assert!(!sent.contains(&"later".to_string()));
    // nothing is spawned again in the next round
    assert!(Orchestrator::games_to_spawn(&games, NOW, &mut sent).is_empty());
    // three minutes later the next game may be live
    let later = Timestamp { secs: NOW.secs + 1, nanos: 0 };
    assert_eq!(Orchestrator::games_to_spawn(&games, later, &mut sent), vec!["later"]);
    assert_eq!(Orchestrator::transport(true), Transport::Poll);
    assert_eq!(Orchestrator::transport(false), Transport::Sse);
}

#[test]
fn the_memory_of_spawned_games_is_bounded() {
    let mut sent = SentGames::new(40);
    let games: Vec<ApiGame> = (0..41).map(|i| game(&format!("g{i}"), GameStatus::Coming, -60)).collect();
    assert_eq!(Orchestrator::games_to_spawn(&games[..40].to_vec(), NOW, &mut sent).len(), 40);
    assert!(sent.contains(&"g0".to_string()));
    assert!(Orchestrator::games_to_spawn(&games[..40].to_vec(), NOW, &mut sent).is_empty());
    // the forty-first game pushes the oldest one out
    assert_eq!(Orchestrator::games_to_spawn(&games[40..].to_vec(), NOW, &mut sent), vec!["g40"]);
    assert!(!sent.contains(&"g0".to_string()));
    assert!(sent.contains(&"g1".to_string()));
    assert!(sent.contains(&"g40".to_string()));
    // so that the oldest one is spawned again, which pushes the next one out
    assert_eq!(Orchestrator::games_to_spawn(&games, NOW, &mut sent), games.iter().map(|g| g.game_uuid.clone()).collect::<Vec<String>>());

    // a memory without room remembers nothing
    let mut none = SentGames::new(0);
    none.remember("g".to_string());
    assert!(!none.contains(&"g".to_string()));
    let mut one = SentGames::new(1);
    one.remember("a".to_string());
    one.remember("b".to_string());
    assert!(!one.contains(&"a".to_string()));
    assert!(one.contains(&"b".to_string()));
}

fn refreshed(actions: &[RefreshAction]) -> Vec<String> {
    actions
        .iter()
        .map(|a| match a {
            RefreshAction::UpdateStandings { season } => format!("standings {}", season.to_string()),
            RefreshAction::UpdatePlayoffs { season } => format!("playoffs {}", season.to_string()),
            RefreshAction::UpdatePlayerStats => "players".to_string(),
            RefreshAction::FetchStats { league, season, game_uuid, max_age_secs } => {
                format!("stats {} {} {game_uuid} {max_age_secs}", league.to_string(), season.to_string())
            }
            RefreshAction::FetchPlayers { league, game_uuid, max_age_secs } => {
                format!("boxscore {} {game_uuid} {max_age_secs}", league.to_string())
            }
        })
        .collect()
}

fn report(uuid: &str) -> ApiGameReport {
    ApiGameReport {
        game_uuid: uuid.to_string(),
        gametime: "".to_string(),
        status: GameStatus::Finished,
        home_team_code: "".to_string(),
        away_team_code: "".to_string(),
        home_team_result: 0,
        away_team_result: 0,
        overtime: None,
        shootout: None,
    }
}

#[test]
fn a_finished_game_is_refreshed_once() {
    let games = vec![game("running", GameStatus::Period2, 0), game("done", GameStatus::Finished, 0), game("done", GameStatus::Finished, 0)];
    let updated = |uuid: &str| Msg::ReportUpdated { report: report(uuid), game_uuid: uuid.to_string() };
    assert_eq!(
        refreshed(&Orchestrator::refresh_actions(&updated("done"), &games)),
        vec!["standings Season2022", "playoffs Season2021", "players", "stats HA Season2021 done 30", "boxscore HA done 30"]
    );
    assert_eq!(
        refreshed(&Orchestrator::refresh_actions(&updated("running"), &games)),
        vec!["stats HA Season2021 running 30", "boxscore HA running 30"]
    );
    assert!(Orchestrator::refresh_actions(&updated("unknown"), &games).is_empty());
    let event = ApiGameEvent {
        game_uuid: "other".to_string(),
        event_id: "1".to_string(),
        revision: 1,
        status: GameStatus::Finished,
        gametime: "".to_string(),
        description: "".to_string(),
        info: ApiEventType::General,
    };
    let taken = Msg::EventUpdated { event: event.clone(), game_uuid: "done".to_string() };
    assert_eq!(Orchestrator::refresh_actions(&taken, &games).len(), 5);
    // only what the writer says counts
    assert!(Orchestrator::refresh_actions(&Msg::AddEvent { event, game_uuid: "done".to_string() }, &games).is_empty());
    assert!(Orchestrator::refresh_actions(&Msg::SseClosed { game_uuid: "done".to_string() }, &games).is_empty());
}

#[test]
fn details_are_filled_in_ten_games_at_a_time() {
    let mut games: Vec<ApiGame> = (0..30).map(|i| game(&format!("g{i}"), GameStatus::Finished, 0)).collect();
    games[0].played = false;
    let mut stale = vec![true; 30];
    stale[1] = false;
    stale[5] = false;
    let (first, note) = FetchDetailsService::update(&games, &stale);
    assert_eq!(
        first.iter().map(|g| g.game_uuid.as_str()).collect::<Vec<&str>>(),
        vec!["g2", "g3", "g4", "g6", "g7", "g8", "g9", "g10", "g11", "g12"]
    );
    assert_eq!(note, "27 out of 30 left");
    let (first, note) = FetchDetailsService::update(&games[..4].to_vec(), &stale[..4].to_vec());
    assert_eq!(first.len(), 2);
    assert_eq!(note, "2 out of 4 left");
    let (first, note) = FetchDetailsService::update(&vec![], &vec![]);
    assert!(first.is_empty());
    assert_eq!(note, "0 out of 0 left");
}

#[test]
fn a_stored_value_is_stale_when_it_is_missing_or_too_old() {
    let span = |secs: u64, nanos: u32| Span { secs, nanos };
    assert!(Db::is_stale(None, None));
    assert!(Db::is_stale(None, Some(span(10, 0))));
    assert!(!Db::is_stale(Some(span(1_000_000, 0)), None));
    assert!(!Db::is_stale(Some(span(10, 0)), Some(span(10, 0))));
    assert!(Db::is_stale(Some(span(10, 1)), Some(span(10, 0))));
    assert!(Db::is_stale(Some(span(11, 0)), Some(span(10, 999))));
    assert!(!Db::is_stale(Some(span(9, 999_999_999)), Some(span(10, 0))));
    assert!(Db::is_stale(Some(span(0, 1)), Some(Span::from_secs(0))));
    assert!(!Db::is_stale(Some(span(0, 0)), Some(Span::from_secs(0))));

    assert_eq!(throttle_step(None, None), ThrottleStep::Fetch);
    assert_eq!(throttle_step(Some(span(5, 0)), Some(span(4, 0))), ThrottleStep::Fetch);
    assert_eq!(throttle_step(Some(span(5, 0)), Some(span(5, 0))), ThrottleStep::UseStored);
    assert_eq!(throttle_step(Some(span(5, 0)), None), ThrottleStep::UseStored);
    assert_eq!(store_step(true), StoreStep::Answer);
    assert_eq!(store_step(false), StoreStep::Placeholder);

    assert_eq!(Season::get_current().get_throttle(), Some(span(10 * 60 * 60, 0)));
    assert_eq!(Season::Season2019.get_throttle(), None);
    assert_eq!(Season::get_current().get_details_age(), span(10 * 24 * 60 * 60, 0));
    assert_eq!(Season::Season2019.get_details_age(), span(0, 0));
    assert_eq!(Db::new("v2_report").get_path("./db", "g1"), "./db/v2_report/g1");
}

fn config() -> Config {
    Config {
        port: 8080,
        ha_url: "https://ha".to_string(),
        shl_url: "https://shl".to_string(),
        sse_url: "https://sse/stream".to_string(),
        apn_host: "".to_string(),
        apn_key_path: "".to_string(),
        apn_key_id: "".to_string(),
        apn_team_id: "".to_string(),
        apn_topic: "".to_string(),
        db_path: default_db_path(),
        api_key: "key".to_string(),
        api_admin_key: "".to_string(),
        sse_sleep: default_sse_sleep(),
        sse_file_append: default_true(),
        poll: default_false(),
    }
}

#[test]
fn addresses_of_the_provider() {
    let config = config();
    assert_eq!(config.get_url(&League::HA), "https://ha");
    assert_eq!(config.get_url(&League::SHL), "https://shl");
    assert_eq!((config.db_path.as_str(), config.sse_sleep, config.sse_file_append, config.poll), ("./db", 100, true, false));
    assert!(config.is_api_key("key"));
    assert!(!config.is_api_key(""));
    assert_eq!(
        get_season_url(&config, &SeasonKey(Season::Season2023, League::HA, GameType::Demotion)),
        "https://ha/sports/game-info?gamePlace=all&played=all&seasonUuid=qcz-3NvSZ2Cmh&seriesUuid=qQ9-594cW8OWD&gameTypeUuid=qRf-347BaDIOc"
    );
    assert_eq!(get_events_url(&config, "g1"), "https://shl/gameday/play-by-play/initial-events/g1");
    assert_eq!(get_events_2023_url(&config, "g1"), "https://shl/gameday/play-by-play/g1");
    assert_eq!(get_stats_url(&config, &League::HA, "g1"), "https://ha/gameday/periodstats/g1");
    assert_eq!(get_player_stats_url(&config, &League::SHL, "g1"), "https://shl/gameday/boxscore/g1");
    assert_eq!(get_sse_url(&config, "g1"), "https://sse/stream?gameUuid=g1");
    assert_eq!(League::SHL.get_uuid(), "qQ9-bb0bzEWUk");
    assert_eq!(GameType::Season.get_uuid(), "qQ9-af37Ti40B");
    assert_eq!(GameType::PlayOff.get_uuid(), "qQ9-7debq38kX");
    let seasons: Vec<&str> = Season::get_all().iter().map(|s| s.get_uuid()).collect();
    assert_eq!(seasons, vec!["qUv-YXiuQN45", "qWX-334j11U5o1", "qY7-AdVh5z1XJ", "qZl-8qa6OaFXf", "qbN-XMFfjGVt", "qcz-3NvSZ2Cmh"]);
    let ok: Result<u8, String> = Ok(1);
    let err: Result<u8, String> = Err("no".to_string());
    assert_eq!(ok.ok_log("msg"), Some(1));
    assert_eq!(err.ok_log("msg"), None);
}

#[test]
fn details_of_a_game_that_has_not_begun_are_the_game_alone() {
    assert_eq!(ApiGameDetailsService::plan(None), DetailsStep::Unknown);
    assert_eq!(ApiGameDetailsService::plan(Some(&game("g", GameStatus::Coming, 0))), DetailsStep::GameOnly);
    assert_eq!(ApiGameDetailsService::plan(Some(&game("g", GameStatus::Period1, 0))), DetailsStep::Fetch);
    assert_eq!(ApiGameDetailsService::plan(Some(&game("g", GameStatus::Finished, 0))), DetailsStep::Fetch);
    let bare = ApiGameDetailsService::game_only(game("g", GameStatus::Coming, 0));
    assert!(bare.events.is_empty() && bare.players.is_empty() && bare.stats.is_none());
    assert_eq!(bare.game.game_uuid, "g");

    let event = |id: &str| ApiGameEvent {
        game_uuid: "g".to_string(),
        event_id: id.to_string(),
        revision: 1,
        status: GameStatus::Period1,
        gametime: "".to_string(),
        description: "".to_string(),
        info: ApiEventType::General,
    };
    let details = ApiGameDetailsService::read(game("g", GameStatus::Period1, 0), Some(vec![event("1"), event("2"), event("3")]), None, vec![]);
    assert_eq!(details.events.iter().map(|e| e.event_id.as_str()).collect::<Vec<&str>>(), vec!["3", "2", "1"]);
    assert!(ApiGameDetailsService::read(game("g", GameStatus::Period1, 0), None, None, vec![]).events.is_empty());
}
