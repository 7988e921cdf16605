use puck::event::{ApiEventType, ApiGameEvent, GoalInfo, PenaltyInfo, Player, ShotInfo};
use puck::models::{GameType, League, ParseStringError, Season, SeasonKey, StringOrNum};
use puck::normalize::{GameOverview, GameTime};
use puck::provider::{
    Description, EventPlayer, EventTeam, EventType, GameReport, General, Goal, GoalExtra,
    GoalkeeperType, LiveEvent, LiveEventTeam, Location, Penalty, PenaltyType, Period, PeriodExtra,
    PeriodStats, PeriodType, PlayByPlay, PlayByPlayType, Shot, ShotType, StatsValue,
    TeamStatistics,
};
use puck::report::{ApiGameReport, GameStatus, UpdateReport};
use puck::text::{contains_text, i16_to_string, i32_to_string, i64_to_string, join, parse_i16, parse_i32, str_eq, trim, usize_to_string, without_text};

#[test]
fn leagues_game_types_and_seasons() {
    assert_eq!(League::get_all(), vec![League::SHL, League::HA]);
    assert_eq!(GameType::get_all(), vec![GameType::Season, GameType::PlayOff, GameType::Demotion]);
    assert_eq!(
        Season::get_all(),
        vec![Season::Season2018, Season::Season2019, Season::Season2020, Season::Season2021, Season::Season2022, Season::Season2023]
    );
    assert_eq!(Season::get_current(), Season::Season2022);
    assert!(Season::Season2022.is_current());
    assert!(!Season::Season2023.is_current());
    assert_eq!("Season".parse::<GameType>(), Ok(GameType::Season));
    assert_eq!("PlayOff".parse::<GameType>(), Ok(GameType::PlayOff));
    assert_eq!("Demotion".parse::<GameType>(), Ok(GameType::Demotion));
    assert_eq!("season".parse::<GameType>(), Err(ParseStringError));
    assert_eq!("".parse::<GameType>(), Err(ParseStringError));
    for (year, season) in [(2018, Season::Season2018), (2019, Season::Season2019), (2020, Season::Season2020), (2021, Season::Season2021), (2022, Season::Season2022), (2023, Season::Season2023)] {
        assert_eq!(format!("{year}").parse::<Season>(), Ok(season));
        assert_eq!(format!("Season{year}").parse::<Season>(), Ok(season));
        assert_eq!(season.to_string(), format!("Season{year}"));
    }
    assert_eq!("2017".parse::<Season>(), Err(ParseStringError));
    assert_eq!(" 2018".parse::<Season>(), Err(ParseStringError));
    assert_eq!(Season::parse("2024"), Err(ParseStringError));
    assert_eq!(SeasonKey(Season::Season2023, League::SHL, GameType::Season).to_string(), "Season2023/SHL/Season");
    assert_eq!(League::HA.to_string(), "HA");
    assert_eq!(GameType::Demotion.to_string(), "Demotion");
}

fn text(s: &str) -> StringOrNum {
    StringOrNum::String(s.to_string())
}

fn list(items: &[&str]) -> StringOrNum {
    StringOrNum::Arr(items.iter().map(|e| e.to_string()).collect())
}

#[test]
fn a_scalar_as_a_number() {
    assert_eq!(StringOrNum::Number(-7).to_num(), -7);
    assert_eq!(text("56").to_num(), 56);
    assert_eq!(text("-56").to_num(), -56);
    assert_eq!(text("+56").to_num(), 56);
    assert_eq!(text("007").to_num(), 7);
    assert_eq!(text("-0").to_num(), 0);
    assert_eq!(text("32767").to_num(), 32767);
    assert_eq!(text("-32768").to_num(), -32768);
    for none in ["", "-", "+", " 5", "5 ", "5.0", "1e3", "0x10", "--5", "+-5", "32768", "-32769", "99999999999999999999999999999999999999999", "five", "٣"] {
        assert_eq!(text(none).to_num(), 0, "{none}");
    }
    assert_eq!(list(&[]).to_num(), 0);
    assert_eq!(list(&["12", "x"]).to_num(), 12);
    assert_eq!(list(&["x", "12"]).to_num(), 0);
    assert_eq!(parse_i16("123"), Some(123));
    assert_eq!(parse_i16("40000"), None);
    assert_eq!(parse_i32("40000"), Some(40000));
    assert_eq!(parse_i32("-2147483648"), Some(i32::MIN));
    assert_eq!(parse_i32("2147483648"), None);
    assert_eq!(parse_i32("+0000000000000000000000000000000000000000000000000000000000000000000012"), Some(12));
}

#[test]
fn a_scalar_as_text() {
    assert_eq!(text("2").to_str(), "2");
    assert_eq!(text("").to_str(), "");
    assert_eq!(StringOrNum::Number(0).to_str(), "0");
    assert_eq!(StringOrNum::Number(10).to_str(), "10");
    assert_eq!(StringOrNum::Number(-1).to_str(), "-1");
    assert_eq!(StringOrNum::Number(i16::MIN).to_str(), "-32768");
    assert_eq!(StringOrNum::Number(i16::MAX).to_str(), "32767");
    assert_eq!(list(&[]).to_str(), "");
    assert_eq!(list(&["a"]).to_str(), "a");
    assert_eq!(list(&["a", "", "c"]).to_str(), "a--c");
    assert_eq!(list(&["1", "2"]).clone().to_str(), "1-2");
    assert_eq!(i16_to_string(-305), "-305");
    assert_eq!(i32_to_string(i32::MIN), "-2147483648");
    assert_eq!(i64_to_string(i64::MAX), "9223372036854775807");
    assert_eq!(usize_to_string(1001), "1001");
    assert_eq!(join(&vec!["x".to_string(), "y".to_string()], ", "), "x, y");
}

#[test]
fn texts_are_compared_and_trimmed() {
    assert!(str_eq("", ""));
    assert!(str_eq("Övertid", "Övertid"));
    assert!(!str_eq("Övertid", "Overtid"));
    assert!(!str_eq("ab", "abc"));
    assert!(!str_eq("abc", "abd"));
    assert_eq!(trim("  a b \t\n"), "a b");
    assert_eq!(trim(""), "");
    assert_eq!(trim(" \u{a0}\u{3000} "), "");
    assert_eq!(trim("\u{2003}é "), "é");
    assert_eq!(trim("x"), "x");
    let items = vec!["a".to_string(), "b".to_string(), "a".to_string()];
    assert!(contains_text(&items, "b"));
    assert!(!contains_text(&items, "c"));
    assert_eq!(without_text(&items, "a"), vec!["b"]);
    assert_eq!(without_text(&items, "c"), items);
}

#[test]
fn white_space_is_what_unicode_calls_so() {
    let mut spaces: Vec<u32> = vec![0x09, 0x0A, 0x0B, 0x0C, 0x0D, 0x20, 0x85, 0xA0, 0x1680];
    spaces.extend(0x2000..=0x200A);
    spaces.extend([0x2028, 0x2029, 0x202F, 0x205F, 0x3000]);
    assert_eq!(spaces.len(), 25);
    for n in 0..=0x10FFFF_u32 {
        if let Some(c) = char::from_u32(n) {
            let mut padded = c.to_string();
            assert_eq!(trim(&padded).is_empty(), spaces.contains(&n), "U+{n:04X}");
            padded.push('x');
            padded.push(c);
            assert_eq!(trim(&padded) == "x", spaces.contains(&n), "U+{n:04X}");
        }
    }
}

#[test]
fn a_status_of_the_provider() {
    for (state, status) in [
        ("NotStarted", GameStatus::Coming),
        ("GameEnded", GameStatus::Finished),
        ("Intermission", GameStatus::Intermission),
        ("PeriodBreak", GameStatus::Intermission),
        ("ShootOut", GameStatus::Shootout),
        ("OverTime", GameStatus::Overtime),
        ("Ongoing", GameStatus::Period2),
        ("ongoing", GameStatus::Coming),
        ("", GameStatus::Coming),
    ] {
        assert_eq!(GameStatus::get_from(state, 2), status, "{state}");
    }
    for (period, status) in [
        (1, GameStatus::Period1),
        (2, GameStatus::Period2),
        (3, GameStatus::Period3),
        (4, GameStatus::Overtime),
        (10, GameStatus::Overtime),
        (11, GameStatus::Period1),
        (99, GameStatus::Shootout),
        (0, GameStatus::Period1),
        (-1, GameStatus::Period1),
    ] {
        assert_eq!(GameStatus::from(period), status);
        assert_eq!(GameStatus::from_period(period), status);
        assert_eq!(GameStatus::get_from("Ongoing", period), status);
    }
}

#[test]
fn the_report_of_the_provider() {
    let raw = GameReport {
        gameUuid: "g1".to_string(),
        gameTime: "13:37".to_string(),
        statusString: "not used".to_string(),
        gameState: "Ongoing".to_string(),
        period: text("3"),
        homeTeamId: None,
        awayTeamId: Some("OHK".to_string()),
        homeTeamScore: StringOrNum::Number(2),
        awayTeamScore: text("1"),
        revision: 4,
    };
    assert_eq!(raw.get_status(), GameStatus::Period3);
    let report = ApiGameReport::from_game_report(&raw);
    assert_eq!((report.game_uuid.as_str(), report.gametime.as_str(), report.status), ("g1", "13:37", GameStatus::Period3));
    assert_eq!((report.home_team_code.as_str(), report.away_team_code.as_str()), ("TBD", "OHK"));
    assert_eq!((report.home_team_result, report.away_team_result, report.overtime, report.shootout), (2, 1, None, None));
    let update = UpdateReport::from_game_report(&raw.clone());
    assert_eq!((update.gametime, update.status, update.home_team_result, update.away_team_result, update.overtime, update.shootout), (Some("13:37".to_string()), Some(GameStatus::Period3), Some(2), Some(1), None, None));

    let overview = GameOverview { gameUuid: "g1".to_string(), homeGoals: 3, awayGoals: 4, state: "OverTime".to_string(), time: GameTime { period: 4, periodTime: "61:00".to_string() } };
    let update = UpdateReport::from_overview(overview);
    assert_eq!((update.gametime, update.status, update.home_team_result, update.away_team_result, update.overtime, update.shootout), (Some("61:00".to_string()), Some(GameStatus::Overtime), Some(3), Some(4), None, None));
}

fn live_team(team: &str, score: i16) -> LiveEventTeam {
    LiveEventTeam { teamId: team.to_string(), score: StringOrNum::Number(score) }
}

fn shot() -> ShotType {
    ShotType {
        time: "07:29".to_string(),
        gameState: "Ongoing".to_string(),
        goalStatus: None,
        homeTeam: live_team("SAIK", 0),
        awayTeam: live_team("MODO", 1),
        eventTeam: EventTeam { teamId: "SAIK".to_string() },
        revision: 5,
        player: EventPlayer { playerId: text("4446"), familyName: "Olsson".to_string(), firstName: "Anton".to_string(), jerseyToday: text("56") },
    }
}

fn penalty(offence: &str) -> PenaltyType {
    PenaltyType {
        time: "06:27".to_string(),
        gameState: "OverTime".to_string(),
        homeTeam: live_team("LIF", 2),
        awayTeam: live_team("OHK", 0),
        eventTeam: EventTeam { teamId: "LIF".to_string() },
        revision: 2,
        player: None,
        offence: offence.to_string(),
        variant: Description { description: "2 min".to_string() },
    }
}

fn live(period: i16, event_type: Option<EventType>) -> LiveEvent {
    LiveEvent { gameUuid: "g1".to_string(), eventId: Some(text("58")), period: StringOrNum::Number(period), eventType: event_type }
}

#[test]
fn events_of_the_live_stream_as_clients_see_them() {
    let event: ApiGameEvent = live(2, Some(EventType::Goal(shot()))).into();
    assert_eq!((event.game_uuid.as_str(), event.event_id.as_str(), event.revision, event.status), ("g1", "58", 5, GameStatus::Period2));
    assert_eq!((event.gametime.as_str(), event.description.as_str()), ("07:29", ""));
    assert_eq!(
        event.info,
        ApiEventType::Goal(GoalInfo {
            team: "SAIK".to_string(),
            player: Some(Player { first_name: "Anton".to_string(), family_name: "Olsson".to_string(), jersey: 56 }),
            team_advantage: "EQ".to_string(),
            assist: None,
            home_team_result: 0,
            away_team_result: 1,
            location: puck::event::Location { x: 0, y: 0 },
        })
    );
    let event = ApiGameEvent::from_live_event(&live(2, Some(EventType::Shot(shot()))));
    assert_eq!(event.info, ApiEventType::Shot(ShotInfo { team: "SAIK".to_string(), location: puck::event::Location { x: 0, y: 0 } }));

    let event = ApiGameEvent::from_live_event(&live(2, Some(EventType::Penalty(penalty("TOO-M")))));
    assert_eq!((event.revision, event.status, event.gametime.as_str()), (2, GameStatus::Overtime, "06:27"));
    assert_eq!(event.info, ApiEventType::Penalty(PenaltyInfo { team: "LIF".to_string(), player: None, reason: "Too many players".to_string(), penalty: Some("2 min".to_string()) }));

    let keeper = EventType::Goalkeeper(GoalkeeperType { time: "20:00".to_string(), gameState: "GameEnded".to_string() });
    let event = ApiGameEvent::from_live_event(&live(3, Some(keeper)));
    assert_eq!((event.revision, event.status, event.gametime.as_str()), (1, GameStatus::Finished, "20:00"));
    assert_eq!(event.info, ApiEventType::General);

    let event = ApiGameEvent::from_live_event(&live(99, Some(EventType::Period(PeriodType { started: false, finished: false }))));
    assert_eq!((event.event_id.as_str(), event.status, event.gametime.as_str()), ("PeriodStart 99", GameStatus::Shootout, "00:00"));
    assert_eq!(event.info, ApiEventType::PeriodStart);
    let mut named = live(3, Some(EventType::Period(PeriodType { started: true, finished: true })));
    named.period = StringOrNum::Arr(vec!["3".to_string(), "b".to_string()]);
    assert_eq!(ApiGameEvent::from_live_event(&named).event_id, "PeriodEnd 3-b");

    let event = ApiGameEvent::from_live_event(&live(2, Some(EventType::Unknown)));
    assert_eq!((event.revision, event.status, event.gametime.as_str()), (1, GameStatus::Coming, "00:00"));
}

#[test]
fn updates_that_events_of_the_live_stream_imply() {
    let fields = |u: UpdateReport| (u.gametime, u.status, u.home_team_result, u.away_team_result, u.overtime, u.shootout);
    let time = |t: &str| Some(t.to_string());
    assert_eq!(fields(UpdateReport::from(&live(2, Some(EventType::Goal(shot()))))), (time("07:29"), Some(GameStatus::Period2), Some(0), Some(1), None, None));
    assert_eq!(fields(UpdateReport::from(&live(2, Some(EventType::Shot(shot()))))), (time("07:29"), Some(GameStatus::Period2), None, None, None, None));
    assert_eq!(fields(UpdateReport::from(&live(2, Some(EventType::Penalty(penalty("HOOK")))))), (time("06:27"), Some(GameStatus::Overtime), None, None, None, None));
    let keeper = EventType::Goalkeeper(GoalkeeperType { time: "20:00".to_string(), gameState: "GameEnded".to_string() });
    assert_eq!(fields(UpdateReport::from(&live(2, Some(keeper)))), (None, Some(GameStatus::Finished), None, None, None, None));
    let period = |started: bool, finished: bool| live(4, Some(EventType::Period(PeriodType { started, finished })));
    assert_eq!(fields(UpdateReport::from(&period(true, true))), (time("20:00"), Some(GameStatus::Intermission), None, None, None, None));
    assert_eq!(fields(UpdateReport::from(&period(true, false))), (time("00:00"), Some(GameStatus::Overtime), None, None, None, None));
    assert_eq!(fields(UpdateReport::from(&period(false, true))), (time("00:00"), Some(GameStatus::Overtime), None, None, None, None));
    assert_eq!(fields(UpdateReport::from(&live(2, Some(EventType::Unknown)))), (None, None, None, None, None, None));
    assert_eq!(fields(UpdateReport::from(&live(2, None))), (None, None, None, None, None, None));
}

#[test]
fn reports_and_events_in_one_line() {
    let report = ApiGameReport {
        game_uuid: "g1".to_string(),
        gametime: "13:37".to_string(),
        status: GameStatus::Period2,
        home_team_code: "SAIK".to_string(),
        away_team_code: "OHK".to_string(),
        home_team_result: 2,
        away_team_result: -1,
        overtime: None,
        shootout: None,
    };
    assert_eq!(report.to_string(), "SAIK 2 - -1 OHK :: Period2 • 13:37");
    assert_eq!(GameStatus::Intermission.to_string(), "Intermission");
    assert_eq!(EventType::Goal(shot()).to_string(), "Goal for SAIK :: SAIK 0 - 1 MODO :: 07:29");
    assert_eq!(EventType::Shot(shot()).to_string(), "Shot for SAIK :: SAIK 0 - 1 MODO :: 07:29");
    assert_eq!(EventType::Penalty(penalty("HOOK")).to_string(), "Penalty for LIF :: LIF 2 - 0 OHK :: 06:27");
    let keeper = EventType::Goalkeeper(GoalkeeperType { time: "20:00".to_string(), gameState: "GameEnded".to_string() });
    assert_eq!(keeper.to_string(), "Goalkeeper :: GameEnded 20:00");
    assert_eq!(EventType::Unknown.to_string(), "Unknown");
    assert_eq!(live(3, Some(EventType::Period(PeriodType { started: true, finished: false }))).to_string(), "Period 3");
    assert_eq!(live(3, Some(EventType::Goal(shot()))).to_string(), "Goal for SAIK :: SAIK 0 - 1 MODO :: 07:29");
    assert_eq!(live(3, None).to_string(), "Unknown");
}

#[test]
fn offences_are_written_out() {
    for (code, name) in [
        ("HOOK", "Hooking"),
        ("TRIP", "Tripping"),
        ("INTRF", "Interference"),
        ("UN-SP", "Unsportsmanlike"),
        ("ROUGH", "Roughing"),
        ("HI-ST", "High-Sticking"),
        ("TOO-M", "Too many players"),
        ("HOLD", "Holding"),
        ("CROSS", "Crosschecking"),
        ("GK-INTRF", "Goalkeeper Interference"),
        ("BOARD", "Boarding"),
        ("DELAY", "Delay the game"),
        ("KNEE", "Kneeing"),
        ("SLASH", "Slashing"),
        ("ELBOW", "ELBOW"),
        ("hook", "hook"),
    ] {
        assert_eq!(penalty(code).get_offence(), name);
    }
    assert_eq!(live_team("SAIK", 1).get_team_id(), "SAIK");
    assert_eq!(EventTeam { teamId: "LIF".to_string() }.get_team_id(), "LIF");
}

#[test]
fn scores_of_team_statistics() {
    let value = |caption: &str, value: Option<StringOrNum>| StatsValue { caption: caption.to_string(), value };
    let stats = TeamStatistics {
        gameUuid: "g".to_string(),
        teamId: "FHC".to_string(),
        statistics: vec![
            PeriodStats { period: StringOrNum::Number(1), parsedTotalStatistics: vec![value("G", Some(StringOrNum::Number(9)))] },
            PeriodStats { period: text("x"), parsedTotalStatistics: vec![value("PIM", None), value("G", Some(text("1"))), value("G", Some(text("7"))), value("PP", None)] },
            PeriodStats { period: StringOrNum::Number(0), parsedTotalStatistics: vec![value("GA", Some(StringOrNum::Number(4)))] },
        ],
    };
    // a period that is no number counts as the whole game, and the first such period is read
    assert_eq!(stats.get_score(), Some(1));
    assert_eq!(stats.get_opponent_score(), None);
    assert_eq!(stats.get_total("PP"), None);
    assert_eq!(stats.get_total("PIM"), None);
    assert_eq!(stats.get_team_id(), "FHC");
    let none = TeamStatistics { gameUuid: "g".to_string(), teamId: "FHC".to_string(), statistics: vec![] };
    assert_eq!(none.get_score(), None);
}

#[test]
fn players_are_read_from_text() {
    let parsed = |s: &str| Player::parse(s).map(|p| (p.jersey, p.first_name, p.family_name));
    let player = |jersey: i32, first: &str, family: &str| Ok((jersey, first.to_string(), family.to_string()));
    assert_eq!(parsed("1 Mats Olle Matsson"), player(1, "Mats", "Olle Matsson"));
    assert_eq!(parsed("91 Anna Ek"), player(91, "Anna", "Ek"));
    // every occurrence of the jersey and first name is taken out of the family name
    assert_eq!(parsed("7 Bo Ek 7 Bo Berg"), player(7, "Bo", "Ek Berg"));
    // a jersey that is no number counts as 0 and is not taken out
    assert_eq!(parsed("Mats Olle Matsson"), player(0, "Olle", "Mats Olle Matsson"));
    assert_eq!(parsed("x"), player(0, "", "x"));
    assert_eq!(parsed("12"), player(12, "", "12"));
    assert_eq!(parsed("12 Bo"), player(12, "Bo", "12 Bo"));
    assert_eq!(parsed("12 Bo "), player(12, "Bo", ""));
    assert_eq!(parsed("+12 Bo Ek"), player(12, "Bo", "+Ek"));
    assert_eq!(parsed(""), Err(ParseStringError));
    assert_eq!(parsed("0  "), Err(ParseStringError));
    assert_eq!(parsed("0  0  "), Err(ParseStringError));
    assert_eq!(parsed("1  "), Err(ParseStringError));
    assert_eq!(parsed("1  x"), player(1, "", "x"));
}

#[test]
fn penalties_are_read_from_text() {
    let read = |description: &str| {
        let info = PenaltyInfo::new(description, &Penalty { team: "LHF".to_string() });
        assert_eq!(info.team, "LHF");
        (info.player.map(|p| p.family_name), info.penalty, info.reason)
    };
    let some = |s: &str| Some(s.to_string());
    assert_eq!(read("1 Olle Olsson utvisas 5min, roughing"), (some("Olsson"), some("5min"), "roughing".to_string()));
    assert_eq!(read("1 Olle Olsson utvisas 2 min ,  hooking, again \n"), (some("Olsson"), some("2 min "), "hooking, again".to_string()));
    // without a comma the whole description is the reason
    assert_eq!(read("1 Olle Olsson utvisas 5min roughing "), (some("Olsson"), None, "1 Olle Olsson utvisas 5min roughing".to_string()));
    assert_eq!(read("Too many players on ice"), (None, None, "Too many players on ice".to_string()));
    assert_eq!(read(" utvisas , "), (None, some(""), "".to_string()));
    assert_eq!(read("a utvisas b utvisas c,d"), (some("a"), some("b utvisas c"), "d".to_string()));
    assert_eq!(read(""), (None, None, "".to_string()));
}

fn entry(class: PlayByPlayType) -> PlayByPlay {
    PlayByPlay {
        eventId: -12,
        revision: 3,
        hash: "h".to_string(),
        period: text("2"),
        gametime: "10:00".to_string(),
        description: "9 Bo Ek utvisas 2min, Hooking".to_string(),
        class,
    }
}

#[test]
fn entries_of_the_older_feed_as_clients_see_them() {
    let at = Location { x: 1.5f32.to_bits(), y: (-2.0f32).to_bits() };
    let kept = puck::event::Location { x: 1.5f32.to_bits(), y: (-2.0f32).to_bits() };
    let shot = || Shot { team: "SAIK".to_string(), location: at };
    let goal = Goal {
        team: "OHK".to_string(),
        location: at,
        extra: GoalExtra { scorerLong: "33 Kristians Rubins".to_string(), teamAdvantage: "PP1".to_string(), homeAgainst: text("2"), homeForward: StringOrNum::Number(5), assist: "someone".to_string() },
    };
    assert_eq!(ShotInfo::new(&shot()), ShotInfo { team: "SAIK".to_string(), location: kept });
    assert_eq!(f32::from_bits(ShotInfo::new(&shot()).location.y), -2.0);
    let scored = GoalInfo {
        team: "OHK".to_string(),
        player: Some(Player { first_name: "Kristians".to_string(), family_name: "Rubins".to_string(), jersey: 33 }),
        team_advantage: "PP1".to_string(),
        assist: None,
        home_team_result: 5,
        away_team_result: 2,
        location: kept,
    };
    assert_eq!(GoalInfo::new(&goal), scored);

    let period = |status: &str| PlayByPlayType::Period(Period { extra: PeriodExtra { gameStatus: status.to_string() } });
    let sent = ApiEventType::Shot(ShotInfo { team: "SAIK".to_string(), location: kept });
    for (class, info) in [
        (PlayByPlayType::General(General {}), ApiEventType::General),
        (PlayByPlayType::Livefeed(General {}), ApiEventType::General),
        (PlayByPlayType::GoolkeeperEvent(General {}), ApiEventType::General),
        (PlayByPlayType::Timeout(General {}), ApiEventType::Timeout),
        (PlayByPlayType::Goal(goal), ApiEventType::Goal(scored)),
        (PlayByPlayType::Shot(shot()), sent.clone()),
        (PlayByPlayType::ShotBlocked(shot()), sent.clone()),
        (PlayByPlayType::ShotWide(shot()), sent.clone()),
        (PlayByPlayType::ShotIron(shot()), sent.clone()),
        (PlayByPlayType::PenaltyShot(shot()), sent.clone()),
        (PlayByPlayType::ShootoutPenaltyShot(shot()), sent.clone()),
        (period("Playing"), ApiEventType::PeriodStart),
        (period("Intermission"), ApiEventType::PeriodEnd),
        (
            PlayByPlayType::Penalty(Penalty { team: "LHF".to_string() }),
            ApiEventType::Penalty(PenaltyInfo {
                team: "LHF".to_string(),
                player: Some(Player { first_name: "Bo".to_string(), family_name: "Ek".to_string(), jersey: 9 }),
                reason: "Hooking".to_string(),
                penalty: Some("2min".to_string()),
            }),
        ),
    ] {
        assert_eq!(entry(class.clone()).to_type(), info);
        let event = entry(class).into_mapped_event("g1");
        assert_eq!((event.game_uuid.as_str(), event.event_id.as_str(), event.revision, event.status), ("g1", "-12", 3, GameStatus::Period2));
        assert_eq!((event.gametime.as_str(), event.description.as_str()), ("10:00", "9 Bo Ek utvisas 2min, Hooking"));
        assert_eq!(event.info, info);
    }
}

#[test]
fn period_marks_are_put_in() {
    let goal = |period: i16| live(period, Some(EventType::Goal(shot())));
    let keeper = |period: i16| live(period, Some(EventType::Goalkeeper(GoalkeeperType { time: "".to_string(), gameState: "".to_string() })));
    let mark = |period: i16| live(period, Some(EventType::Period(PeriodType { started: true, finished: false })));
    let shape = |events: Vec<LiveEvent>| -> Vec<String> {
        puck::playbyplay::add_period_events(events)
            .iter()
            .map(|e| match e.get_event_type() {
                EventType::Period(p) => format!("{} {}", if p.finished { "end" } else { "start" }, e.period.to_str()),
                EventType::Goal(_) => format!("goal {}", e.period.to_str()),
                _ => format!("other {}", e.period.to_str()),
            })
            .collect()
    };
    assert!(shape(vec![]).is_empty());
    assert_eq!(shape(vec![goal(1)]), vec!["start 1", "goal 1"]);
    // period events of the input are left out; other events do not move the period on
    assert_eq!(
        shape(vec![mark(1), keeper(2), goal(2), mark(3), goal(2), goal(1)]),
        vec!["start 1", "other 2", "end 1", "start 2", "goal 2", "goal 2", "end 2", "start 1", "goal 1"]
    );
    assert_eq!(shape(vec![mark(2)]), vec!["start 1"]);
    let marked = puck::playbyplay::add_period_events(vec![goal(3)]);
    assert_eq!(marked.iter().map(|e| e.get_event_id()).collect::<Vec<String>>(), vec!["PeriodStart 1", "PeriodEnd 1", "PeriodStart 3", "58"]);
    assert!(marked[1].eventId.is_none());
    assert_eq!(marked[1].gameUuid, "g1");
}
