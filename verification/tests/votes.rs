use puck::api::{Api, VoteError};
use puck::game::{ApiGame, Timestamp};
use puck::models::{GameType, League, Season, SeasonKey, StringOrNum};
use puck::registry::ApiSeasonService;
use puck::report::GameStatus;
use puck::season::{GameTeamInfo, SeasonGame, SeasonRsp, SeriesInfo, TeamNames};
use puck::vote::{ApiVotePerGame, Vote, VoteBody, VotePerGame, VoteService};

#[test]
fn vote_service_sunny_day() {
    // Given
    let mut service = VoteService::new(vec![]);
    let vote = Vote { user_id: "user_id".to_string(), game_uuid: "game_uuid".to_string(), team_code: "team_code".to_string(), is_home_winner: true };
    let vote2 = Vote { user_id: "user_id2".to_string(), game_uuid: "game_uuid".to_string(), team_code: "team_code".to_string(), is_home_winner: true };

    // When
    service.vote(vote.clone());
    service.vote(vote2.clone());

    service.vote(vote.clone());
    service.vote(vote2.clone());

    service.vote(vote.clone());
    service.vote(vote2.clone());

    // Then
    let votes = &service.all_votes;
    assert_eq!(votes.len(), 2);
    assert!(votes.iter().any(|e| { e.game_uuid == vote.game_uuid && e.user_id == vote.user_id }));
    assert!(votes.iter().any(|e| { e.game_uuid == vote2.game_uuid && e.user_id == vote2.user_id }));
}

fn get_team_info(code: &str, score: i16) -> GameTeamInfo {
    GameTeamInfo {
        code: code.to_string(),
        score: StringOrNum::Number(score),
        names: TeamNames { code: code.to_string(), long: code.to_string(), short: code.to_string() },
    }
}

fn body(game_uuid: &str, user_id: &str, team_code: &str) -> VoteBody {
    VoteBody { game_uuid: game_uuid.to_string(), user_id: user_id.to_string(), team_code: team_code.to_string() }
}

#[test]
fn test_vote_service() {
    // Given - a game that has not begun
    let now = Timestamp { secs: 1_700_000_000, nanos: 0 };
    let mut registry = ApiSeasonService::new();
    let mut votes = VoteService::new(vec![]);
    let key = SeasonKey(Season::get_current(), League::SHL, GameType::Season);
    let game = SeasonGame {
        uuid: "game_uuid_1".to_string(),
        homeTeamInfo: get_team_info("SAIK", 0),
        awayTeamInfo: get_team_info("OHK", 0),
        startDateTime: Timestamp { secs: now.secs + 5 * 24 * 3600, nanos: 0 },
        state: "pre-game".to_string(),
        shootout: false,
        overtime: false,
        seriesInfo: SeriesInfo { code: League::SHL },
    };
    registry.update(&Season::get_current(), &vec![(key, SeasonRsp { gameInfo: vec![game], teamList: vec![] })], &votes, &vec![], now);
    let api_key = "API_KEY";
    let find = |registry: &ApiSeasonService, uuid: &str| registry.read_current_season_game(uuid);

    // When - make request without api-key
    let res = Api::check_vote("", api_key, find(&registry, "game_uuid_1").as_ref(), body("game_uuid_1", "user_id_1", "SAIK"));
    // Then - should be unauthorized
    assert_eq!(res.unwrap_err().status(), 401);

    // When - make request with invalid team
    let res = Api::check_vote(api_key, api_key, find(&registry, "game_uuid_1").as_ref(), body("game_uuid_1", "user_id_1", "LHF"));
    // Then - should be bad request
    assert_eq!(res.unwrap_err().status(), 400);

    // When - make request with invalid game uuid
    let res = Api::check_vote(api_key, api_key, find(&registry, "INVALID").as_ref(), body("INVALID", "user_id_1", "SAIK"));
    // Then - should be bad request
    assert_eq!(res.unwrap_err().status(), 400);

    // When - add multiple votes
    for i in 0..=100 {
        let user_id = format!("user_id_SAIK_{i}");
        let res = Api::check_vote(api_key, api_key, find(&registry, "game_uuid_1").as_ref(), body("game_uuid_1", &user_id, "SAIK"));
        // Then - should be successful and response should be updated vote_per_game
        let tally = votes.vote(res.unwrap());
        registry.update_from_votes("game_uuid_1", tally);
        let vote_per_game: ApiVotePerGame = tally.into();
        let expected: ApiVotePerGame = VotePerGame { home_count: i + 1, away_count: 0 }.into();
        assert_eq!(vote_per_game.home_perc, expected.home_perc);
        assert_eq!(vote_per_game.away_perc, expected.away_perc);
        assert_eq!(vote_per_game.home_perc + vote_per_game.away_perc, 100);
    }
    // When - add multiple votes
    for i in 0..=9 {
        let user_id = format!("user_id_OHK_{i}");
        let res = Api::check_vote(api_key, api_key, find(&registry, "game_uuid_1").as_ref(), body("game_uuid_1", &user_id, "OHK"));
        let tally = votes.vote(res.unwrap());
        registry.update_from_votes("game_uuid_1", tally);
        let vote_per_game: ApiVotePerGame = tally.into();
        let expected: ApiVotePerGame = VotePerGame { home_count: 101, away_count: i + 1 }.into();
        assert_eq!(vote_per_game.away_perc, expected.away_perc);
        assert_eq!(vote_per_game.home_perc, expected.home_perc);
        assert_eq!(vote_per_game.home_perc + vote_per_game.away_perc, 100);
    }

    let details_game = registry.read_game("game_uuid_1").unwrap();
    assert_eq!(details_game.votes.unwrap().home_perc, 91);
    assert_eq!(details_game.votes.unwrap().away_perc, 9);

    let season_games = registry.read_current_season();
    let season_game = season_games.iter().find(|e| e.game_uuid == "game_uuid_1").unwrap();
    assert_eq!(details_game.votes.unwrap().home_perc, season_game.votes.unwrap().home_perc);
    assert_eq!(details_game.votes.unwrap().away_perc, season_game.votes.unwrap().away_perc);
}

#[test]
fn vote_percentages_are_rounded() {
    let shares = |home_count: u16, away_count: u16| {
        let s: ApiVotePerGame = VotePerGame { home_count, away_count }.into();
        (s.home_perc, s.away_perc)
    };
    assert_eq!(shares(0, 0), (0, 0));
    assert_eq!(shares(1, 0), (100, 0));
    assert_eq!(shares(1, 2), (33, 67));
    assert_eq!(shares(101, 9), (92, 8));
    assert_eq!(shares(101, 10), (91, 9));
    assert_eq!(shares(2, 1), (67, 33));
    assert_eq!(shares(65535, 65535), (50, 50));
    assert_eq!(shares(65535, 0), (100, 0));
    // a share that lies halfway between two whole numbers is rounded upwards, and so is its
    // counterpart: only then the two do not add up to 100
    assert_eq!(shares(1, 7), (13, 88));
    assert_eq!(shares(23, 17), (58, 43));
    assert_eq!(shares(1, 1), (50, 50));
}

#[test]
fn vote_percentages_add_up_to_100_unless_a_share_is_a_half() {
    for home in 0u16..60 {
        for away in 0u16..60 {
            if home + away == 0 {
                continue;
            }
            let s: ApiVotePerGame = VotePerGame { home_count: home, away_count: away }.into();
            let total = u32::from(home + away);
            let half = (200 * u32::from(home)) % (2 * total) == total;
            assert_eq!(s.home_perc + s.away_perc, if half { 101 } else { 100 }, "{home} {away}");
        }
    }
}

#[test]
fn latest_vote_of_a_user_counts() {
    let mut service = VoteService::new(vec![]);
    let vote = |user: &str, game: &str, home: bool| Vote {
        user_id: user.to_string(),
        game_uuid: game.to_string(),
        team_code: if home { "H" } else { "A" }.to_string(),
        is_home_winner: home,
    };
    assert_eq!(service.vote(vote("u1", "g1", true)), VotePerGame { home_count: 1, away_count: 0 });
    assert_eq!(service.vote(vote("u2", "g1", false)), VotePerGame { home_count: 1, away_count: 1 });
    assert_eq!(service.vote(vote("u1", "g2", false)), VotePerGame { home_count: 0, away_count: 1 });
    // u1 changes his mind on g1
    assert_eq!(service.vote(vote("u1", "g1", false)), VotePerGame { home_count: 0, away_count: 2 });
    assert_eq!(service.all_votes.len(), 3);
    assert_eq!(service.all_votes.last().unwrap().user_id, "u1");
    assert_eq!(service.all_votes.last().unwrap().game_uuid, "g1");

    assert_eq!(service.get("g1"), Some(VotePerGame { home_count: 0, away_count: 2 }));
    assert_eq!(service.get("g2"), Some(VotePerGame { home_count: 0, away_count: 1 }));
    assert_eq!(service.get("g3"), None);
    assert_eq!(
        service.get_all(),
        vec![
            ("g1".to_string(), VotePerGame { home_count: 0, away_count: 2 }),
            ("g2".to_string(), VotePerGame { home_count: 0, away_count: 1 }),
        ]
    );
    assert_eq!(VoteService::get_aggregate(&service.all_votes, "g1"), VotePerGame { home_count: 0, away_count: 2 });
}

fn api_game(status: GameStatus) -> ApiGame {
    ApiGame {
        game_uuid: "g1".to_string(),
        home_team_code: "SAIK".to_string(),
        away_team_code: "OHK".to_string(),
        home_team_result: 0,
        away_team_result: 0,
        start_date_time: Timestamp { secs: 0, nanos: 0 },
        status,
        shootout: false,
        overtime: false,
        played: false,
        game_type: GameType::Season,
        league: League::SHL,
        season: Season::Season2022,
        gametime: None,
        votes: None,
    }
}

#[test]
fn votes_are_refused_for_a_reason() {
    let coming = api_game(GameStatus::Coming);
    let begun = api_game(GameStatus::Period1);
    assert_eq!(Api::check_vote("wrong", "key", Some(&coming), body("g1", "u", "SAIK")).unwrap_err(), VoteError::Unauthorized);
    assert_eq!(Api::check_vote("wrong", "key", None, body("g1", "u", "LHF")).unwrap_err(), VoteError::Unauthorized);
    assert_eq!(Api::check_vote("key", "key", None, body("g1", "u", "SAIK")).unwrap_err(), VoteError::InvalidGame);
    assert_eq!(Api::check_vote("key", "key", Some(&begun), body("g1", "u", "LHF")).unwrap_err(), VoteError::InvalidTeamCode);
    assert_eq!(Api::check_vote("key", "key", Some(&begun), body("g1", "u", "SAIK")).unwrap_err(), VoteError::InvalidGameStatus);
    let home = Api::check_vote("key", "key", Some(&coming), body("g1", "u", "SAIK")).unwrap();
    assert!(home.is_home_winner);
    assert_eq!((home.user_id.as_str(), home.game_uuid.as_str(), home.team_code.as_str()), ("u", "g1", "SAIK"));
    let away = Api::check_vote("key", "key", Some(&coming), body("g1", "u", "OHK")).unwrap();
    assert!(!away.is_home_winner);
    assert_eq!(VoteError::Unauthorized.to_string(), "Unauthorized");
    assert_eq!(VoteError::InvalidGame.to_string(), "Invalid game");
    assert_eq!(VoteError::InvalidTeamCode.to_string(), "Invalid team_code");
    assert_eq!(VoteError::InvalidGameStatus.to_string(), "Invalid game status");
    assert_eq!(VoteError::InvalidGame.status(), 400);
}

fn many_votes(game: &str, home: bool, from: usize, to: usize) -> Vec<Vote> {
    (from..to)
        .map(|i| Vote {
            user_id: format!("u{i}"),
            game_uuid: game.to_string(),
            team_code: if home { "H" } else { "A" }.to_string(),
            is_home_winner: home,
        })
        .collect()
}

#[test]
fn a_tally_is_bounded_per_game_and_team() {
    // more votes than 16 bits can count, but not on one team of one game
    let mut all = many_votes("g1", true, 0, 35_000);
    all.extend(many_votes("g2", true, 0, 20_000));
    all.extend(many_votes("g2", false, 20_000, 35_000));
    let mut service = VoteService::new(all);
    assert_eq!(service.all_votes.len(), 70_000);
    assert!(service.fits());
    assert_eq!(VoteService::count(&service.all_votes, "g1", true), 35_000);
    assert_eq!(VoteService::count(&service.all_votes, "g2", false), 15_000);
    assert_eq!(VoteService::count(&service.all_votes, "g3", false), 0);
    assert_eq!(service.get("g2"), Some(VotePerGame { home_count: 20_000, away_count: 15_000 }));
    assert_eq!(
        service.get_all(),
        vec![
            ("g1".to_string(), VotePerGame { home_count: 35_000, away_count: 0 }),
            ("g2".to_string(), VotePerGame { home_count: 20_000, away_count: 15_000 }),
        ]
    );
    let next = many_votes("g1", false, 99_999, 100_000).pop().unwrap();
    assert!(service.takes(&next));
    assert_eq!(service.vote(next), VotePerGame { home_count: 35_000, away_count: 1 });
    assert_eq!(service.all_votes.len(), 70_001);
}

#[test]
fn a_full_tally_takes_no_further_vote() {
    let mut service = VoteService::new(many_votes("g1", true, 0, 65_535));
    assert!(service.fits());
    let vote = |user: &str, game: &str, home: bool| Vote {
        user_id: user.to_string(),
        game_uuid: game.to_string(),
        team_code: if home { "H" } else { "A" }.to_string(),
        is_home_winner: home,
    };
    // the home team of g1 has as many votes as can be counted
    assert!(!service.takes(&vote("new", "g1", true)));
    // its away team has not, nor has another game
    assert!(service.takes(&vote("new", "g1", false)));
    assert!(service.takes(&vote("new", "g2", true)));
    // a user who has voted may vote again: his earlier vote leaves
    assert!(service.takes(&vote("u7", "g1", true)));
    assert!(service.takes(&vote("u7", "g1", false)));
    assert_eq!(service.vote(vote("u7", "g1", false)), VotePerGame { home_count: 65_534, away_count: 1 });
    assert!(service.takes(&vote("new", "g1", true)));
    assert_eq!(service.vote(vote("new", "g1", true)), VotePerGame { home_count: 65_535, away_count: 1 });

    // one vote too many on one team
    let crowded = VoteService::new(many_votes("g1", false, 0, 65_536));
    assert!(!crowded.fits());
    assert_eq!(VoteService::count(&crowded.all_votes, "g1", false), 65_536);
    assert!(!crowded.takes(&vote("new", "g1", true)));
    let mut spread = many_votes("g1", false, 0, 65_535);
    spread.extend(many_votes("g1", true, 65_535, 65_540));
    assert!(VoteService::new(spread).fits());
}
