use puck::game::{ApiGame, Timestamp};
use puck::models::{GameType, League, Season};
use puck::playoff::{PlayoffEntry, PlayoffSeries, PlayoffService, Playoffs};
use puck::report::GameStatus;
use puck::standing::{Standing, StandingService};

fn game(game_uuid: &str, team1: &str, team2: &str, played: bool, game_type: GameType) -> ApiGame {
    ApiGame {
        game_uuid: game_uuid.to_string(),
        home_team_code: team1.to_string(),
        away_team_code: team2.to_string(),
        home_team_result: 3,
        away_team_result: 0,
        start_date_time: Timestamp { secs: 1_700_000_000, nanos: 0 },
        status: if played { GameStatus::Finished } else { GameStatus::Coming },
        shootout: false,
        overtime: false,
        played,
        game_type,
        league: League::SHL,
        season: Season::Season2022,
        gametime: None,
        votes: None,
    }
}

fn get_played_game(game_uuid: &str, team1: &str, team2: &str) -> ApiGame {
    game(game_uuid, team1, team2, true, GameType::Season)
}

fn get_coming_game(game_uuid: &str, team1: &str, team2: &str) -> ApiGame {
    game(game_uuid, team1, team2, false, GameType::Season)
}

fn row<'a>(rows: &'a [Standing], team: &str) -> &'a Standing {
    rows.iter().find(|e| e.team_code == team).unwrap()
}

#[test]
fn standing_service_sunny_day() {
    let games = vec![
        get_played_game("game_uuid123", "LHF", "FHC"),
        get_coming_game("game_uuid124", "TIK", "MODO"),
    ];

    let standings = StandingService::update(&games).unwrap();
    assert_eq!(standings.SHL.len(), 4);
    assert_eq!(standings.HA.len(), 0);

    let lhf = standings.SHL.iter().find(|e| e.team_code == "LHF").unwrap();
    assert_eq!(lhf.gp, 1);
    assert_eq!(lhf.rank, 1);
    assert_eq!(lhf.points, 3);

    let fhc = standings.SHL.iter().find(|e| e.team_code == "FHC").unwrap();
    assert_eq!(fhc.gp, 1);
    assert_eq!(fhc.rank, 2);
    assert_eq!(fhc.points, 0);

    let tik = standings.SHL.iter().find(|e| e.team_code == "TIK").unwrap();
    assert_eq!(tik.gp, 0);
    assert_eq!(tik.rank, 0);
    assert_eq!(tik.points, 0);

    let modo = standings.SHL.iter().find(|e| e.team_code == "MODO").unwrap();
    assert_eq!(modo.gp, 0);
    assert_eq!(modo.rank, 0);
    assert_eq!(modo.points, 0);
}

#[test]
fn standings_count_points_and_goal_difference() {
    let mut overtime = get_played_game("g2", "B", "A");
    overtime.home_team_result = 2;
    overtime.away_team_result = 1;
    overtime.overtime = true;
    let mut shootout = get_played_game("g3", "C", "A");
    shootout.home_team_result = 1;
    shootout.away_team_result = 2;
    shootout.shootout = true;
    let games = vec![get_played_game("g1", "A", "B"), overtime, shootout];

    let rows = StandingService::get_standings(&games).unwrap();
    assert_eq!(rows.len(), 3);

    // A: a win in regulation (3-0), a loss after overtime (1-2), a win after shootout (2-1)
    let a = row(&rows, "A");
    assert_eq!((a.gp, a.points, a.diff, a.rank), (3, 3 + 1 + 2, 3 - 1 + 1, 1));
    // B: a loss in regulation (0-3), a win after overtime (2-1)
    let b = row(&rows, "B");
    assert_eq!((b.gp, b.points, b.diff, b.rank), (2, 2, -3 + 1, 2));
    // C: a loss after shootout (1-2)
    let c = row(&rows, "C");
    assert_eq!((c.gp, c.points, c.diff, c.rank), (1, 1, -1, 3));
    assert_eq!(rows.iter().map(|e| e.team_code.as_str()).collect::<Vec<&str>>(), vec!["A", "B", "C"]);
}

#[test]
fn standings_break_ties_by_goal_difference_and_rank_idle_teams_last() {
    let mut narrow = get_played_game("g2", "C", "D");
    narrow.home_team_result = 1;
    let games = vec![
        get_coming_game("g0", "X", "Y"),
        narrow,
        get_played_game("g1", "A", "B"),
    ];
    let rows = StandingService::get_standings(&games).unwrap();
    let order: Vec<(&str, u8)> = rows.iter().map(|e| (e.team_code.as_str(), e.rank)).collect();
    // A and C both have 3 points: A leads by 3 goals, C by 1; D lost by 1, B by 3
    assert_eq!(order, vec![("A", 1), ("C", 2), ("D", 3), ("B", 4), ("X", 0), ("Y", 0)]);
}

#[test]
fn standings_leave_other_leagues_and_game_types_out() {
    let mut ha = get_played_game("g1", "AIK", "MODO");
    ha.league = League::HA;
    let games = vec![
        ha,
        game("g2", "LHF", "FHC", true, GameType::PlayOff),
        get_played_game("g3", "LHF", "TIK"),
    ];
    let standings = StandingService::update(&games).unwrap();
    assert_eq!(standings.HA.iter().map(|e| e.team_code.as_str()).collect::<Vec<&str>>(), vec!["AIK", "MODO"]);
    assert_eq!(standings.SHL.iter().map(|e| e.team_code.as_str()).collect::<Vec<&str>>(), vec!["LHF", "TIK"]);
    assert_eq!(row(&standings.SHL, "LHF").gp, 1);
}

#[test]
fn standings_refuse_a_record_that_does_not_fit() {
    let mut big = get_played_game("g1", "A", "B");
    big.home_team_result = 30000;
    big.away_team_result = -30000;
    assert!(StandingService::get_standings(&vec![big]).is_none());

    let many: Vec<ApiGame> = (0..128).map(|i| get_coming_game("g", &format!("H{i}"), &format!("A{i}"))).collect();
    assert!(StandingService::get_standings(&many).is_none());
    assert_eq!(StandingService::get_standings(&many[..127].to_vec()).unwrap().len(), 254);
}

#[test]
fn points_and_goal_difference_of_a_game() {
    let mut g = get_played_game("g1", "A", "B");
    assert!(g.did_team_win("A"));
    assert!(!g.did_team_win("B"));
    assert_eq!(g.get_points_for("A"), 3);
    assert_eq!(g.get_points_for("B"), 0);
    assert_eq!(g.get_goal_diff_for("A"), 3);
    assert_eq!(g.get_goal_diff_for("B"), -3);
    g.overtime = true;
    assert_eq!(g.get_points_for("A"), 2);
    assert_eq!(g.get_points_for("B"), 1);
    // a tie counts as a win of the away team
    g.home_team_result = 0;
    assert!(g.did_team_win("B"));
}

fn get_playoff_game(game_uuid: &str, team1: &str, team2: &str) -> ApiGame {
    let mut g = game(game_uuid, team1, team2, true, GameType::PlayOff);
    g.season = Season::Season2023;
    g
}

#[test]
fn playoff_service_sunny_day() {
    let games = vec![
        get_playoff_game("game_uuid", "team1", "team2"),
        get_playoff_game("game_uuid", "team1", "team2"),
        get_playoff_game("game_uuid", "team2", "team1"),
        get_playoff_game("game_uuid", "team3", "team4"),
    ];
    let stored = Playoffs {
        SHL: PlayoffSeries {
            quarter: vec![PlayoffEntry {
                team1: "team1".to_string(),
                team2: "team2".to_string(),
                score1: 4,
                score2: 6,
                eliminated: Some("team1".to_string()),
                nr_games: 7,
            }],
            demotion: Some(PlayoffEntry {
                team1: "team3".to_string(),
                team2: "team4".to_string(),
                score1: 4,
                score2: 6,
                eliminated: None,
                nr_games: 7,
            }),
            ..Default::default()
        },
        HA: PlayoffSeries { ..Default::default() },
    };

    let result = PlayoffService::update(Some(stored), &games);

    assert!(result.is_some());
    let play_off = result.unwrap();
    assert!(play_off.HA.final_.is_none());
    assert_eq!(play_off.SHL.quarter.len(), 1);
    let quarter = play_off.SHL.quarter.get(0).unwrap();
    assert_eq!(quarter.score1, 2);
    assert_eq!(quarter.score2, 1);
    assert_eq!(quarter.eliminated.as_ref().unwrap(), "team1");
    let demotion = play_off.SHL.demotion.unwrap();
    assert_eq!(demotion.score1, 1);
    assert_eq!(demotion.score2, 0);
    assert!(demotion.eliminated.is_none());
}

#[test]
fn playoffs_need_games_and_a_bracket() {
    let bracket = || Playoffs { SHL: PlayoffSeries::default(), HA: PlayoffSeries::default() };
    // regular season games and games that are not played do not count
    let games = vec![
        get_played_game("g1", "team1", "team2"),
        game("g2", "team1", "team2", false, GameType::PlayOff),
    ];
    assert!(PlayoffService::update(Some(bracket()), &games).is_none());
    assert!(PlayoffService::update(None, &vec![get_playoff_game("g", "team1", "team2")]).is_none());
    assert!(PlayoffService::update(Some(bracket()), &vec![get_playoff_game("g", "team1", "team2")]).is_some());
}

#[test]
fn playoff_score_of_an_undecided_side_is_zero() {
    let games = vec![get_playoff_game("g", "TBD", "team2"), get_playoff_game("g", "team1", "team2")];
    assert_eq!(PlayoffService::get_score("TBD", "team2", &games), 0);
    assert_eq!(PlayoffService::get_score("team2", "TBD", &games), 0);
    assert_eq!(PlayoffService::get_score("team1", "team2", &games), 1);
    assert_eq!(PlayoffService::get_score("team2", "team1", &games), 0);
    assert_eq!(puck::playoff::get_nr_games(), 7);
}
