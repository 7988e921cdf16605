use puck::report::{ApiGameReport, GameStatus, UpdateReport};

fn report(gametime: &str, status: GameStatus, home_team_result: i16, away_team_result: i16) -> ApiGameReport {
    ApiGameReport {
        game_uuid: "uuid".to_string(),
        gametime: gametime.to_string(),
        status,
        home_team_code: "SAIK".to_string(),
        away_team_code: "MODO".to_string(),
        home_team_result,
        away_team_result,
        overtime: None,
        shootout: None,
    }
}

#[test]
fn test_valid_steps() {
    assert!(GameStatus::Coming.get_valid_steps().contains(&GameStatus::Period1));
    assert!(!GameStatus::Coming.get_valid_steps().contains(&GameStatus::Period2));

    assert!(GameStatus::Period1.get_valid_steps().contains(&GameStatus::Intermission));
    assert!(GameStatus::Period1.get_valid_steps().contains(&GameStatus::Period2));
    assert!(!GameStatus::Period1.get_valid_steps().contains(&GameStatus::Period3));
}

#[test]
fn test_is_valid_update() {
    assert!(report("00:00", GameStatus::Period1, 0, 0).is_valid_update(&report("00:00", GameStatus::Coming, 0, 0)));

    assert!(report("00:15", GameStatus::Period1, 0, 0).is_valid_update(&report("00:00", GameStatus::Period1, 0, 0)));

    assert!(report("00:15", GameStatus::Period1, 1, 0).is_valid_update(&report("00:15", GameStatus::Period1, 0, 0)));
    assert!(report("00:40", GameStatus::Period1, 1, 0).is_valid_update(&report("00:15", GameStatus::Period1, 1, 0)));
    assert!(report("01:00", GameStatus::Period1, 1, 0).is_valid_update(&report("00:40", GameStatus::Period1, 1, 0)));
    assert!(report("01:00", GameStatus::Period1, 2, 0).is_valid_update(&report("01:00", GameStatus::Period1, 1, 0)));

    assert!(report("00:00", GameStatus::Intermission, 1, 0).is_valid_update(&report("00:00", GameStatus::Period1, 1, 0)));

    assert!(report("20:00", GameStatus::Period2, 1, 0).is_valid_update(&report("00:00", GameStatus::Intermission, 1, 0)));

    assert!(report("00:00", GameStatus::Intermission, 1, 0).is_valid_update(&report("00:00", GameStatus::Period2, 1, 0)));

    assert!(report("00:00", GameStatus::Finished, 1, 0).is_valid_update(&report("00:00", GameStatus::Period3, 1, 0)));

    assert!(report("01:00", GameStatus::Period1, 2, 0).is_valid_update(&report("01:23", GameStatus::Period1, 0, 0)));
}

#[test]
fn test_is_invalid_update() {
    assert!(!report("00:00", GameStatus::Coming, 0, 0).is_valid_update(&report("00:00", GameStatus::Period1, 0, 0)));

    assert!(!report("00:15", GameStatus::Period1, 0, 0).is_valid_update(&report("00:15", GameStatus::Period1, 1, 0)));
    assert!(!report("00:15", GameStatus::Period1, 1, 0).is_valid_update(&report("00:15", GameStatus::Period1, 1, 0)));
    assert!(!report("01:00", GameStatus::Period1, 0, 0).is_valid_update(&report("01:00", GameStatus::Period1, 1, 0)));

    assert!(!report("00:00", GameStatus::Period3, 1, 0).is_valid_update(&report("00:00", GameStatus::Finished, 1, 0)));

    assert!(!report("00:00", GameStatus::Intermission, 1, 0).is_valid_update(&report("00:01", GameStatus::Intermission, 1, 0)));
}

#[test]
fn test_shootout_overtime_to_report() -> Result<(), ()> {
    // Given
    let mut update = UpdateReport { ..Default::default() };
    let mut old = ApiGameReport {
        game_uuid: "game_uuid123".to_string(),
        gametime: "00:00".to_string(),
        status: GameStatus::Period3,
        home_team_code: "LHF".to_string(),
        away_team_code: "SAIK".to_string(),
        home_team_result: 1,
        away_team_result: 0,
        overtime: None,
        shootout: None,
    };

    // When
    let updated = update.to_report(&old);

    // Then
    assert_eq!(updated.shootout, None);
    assert_eq!(updated.overtime, None);

    // Given
    old.overtime = Some(false);

    // When
    let updated = update.to_report(&old);

    // Then
    assert_eq!(updated.overtime, Some(false));

    // Given
    old.overtime = Some(true);

    // When
    let updated = update.to_report(&old);

    // Then
    assert_eq!(updated.overtime, Some(true));

    // Given
    old.overtime = None;
    update.status = Some(GameStatus::Overtime);

    // When
    let updated = update.to_report(&old);

    // Then
    assert_eq!(updated.overtime, Some(true));

    // Given
    old.overtime = None;
    update.status = None;
    update.overtime = Some(true);

    // When
    let updated = update.to_report(&old);

    // Then
    assert_eq!(updated.overtime, Some(true));
    Ok(())
}
