use puck::event::{PenaltyInfo, Player};
use puck::models::StringOrNum;
use puck::playbyplay::add_period_events;
use puck::provider::{
    EventPlayer, EventTeam, EventType, LiveEvent, LiveEventTeam, Penalty, ShotType,
};

#[test]
fn parse_player() {
    let player_res = "1 Mats Olle Matsson".parse::<Player>();
    assert!(player_res.is_ok());
    let player = player_res.unwrap();
    assert_eq!(player.first_name, "Mats");
    assert_eq!(player.family_name, "Olle Matsson");
    assert_eq!(player.jersey, 1);
}

#[test]
fn parse_player_err() {
    let player_res = "".parse::<Player>();
    assert!(player_res.is_err());
}

#[test]
fn parse_penalty_info() {
    let info = PenaltyInfo::new("1 Olle Olsson utvisas 5min, roughing", &Penalty { team: "LHF".to_string() });
    assert_eq!(info.penalty.unwrap(), "5min");
    assert_eq!(info.reason, "roughing");
    assert_eq!(info.player.unwrap().first_name, "Olle");
    assert_eq!(info.team, "LHF");
}

#[test]
fn parse_penalty_info2() {
    let info = PenaltyInfo::new("Too many players on ice", &Penalty { team: "LHF".to_string() });
    assert_eq!(info.penalty, None);
    assert_eq!(info.reason, "Too many players on ice");
    assert_eq!(info.player, None);
    assert_eq!(info.team, "LHF");
}

fn assert_period(period: &LiveEvent, started: bool, finished: bool) {
    match period.get_event_type() {
        EventType::Period(e) => {
            assert_eq!(e.finished, finished);
            assert_eq!(e.started, started);
        }
        _ => panic!(""),
    }
}

fn get_event(period: i16) -> LiveEvent {
    LiveEvent {
        gameUuid: "u".to_string(),
        eventId: Some(StringOrNum::Number(1)),
        period: StringOrNum::Number(period),
        eventType: Some(EventType::Goal(ShotType {
            time: "00:00".to_string(),
            gameState: "Ongoing".to_string(),
            goalStatus: None,
            homeTeam: LiveEventTeam { teamId: "SAIK".to_string(), score: StringOrNum::Number(1) },
            awayTeam: LiveEventTeam { teamId: "SAIK".to_string(), score: StringOrNum::Number(1) },
            eventTeam: EventTeam { teamId: "SAIK".to_string() },
            revision: 1,
            player: EventPlayer {
                playerId: StringOrNum::Number(1),
                familyName: "Ole".to_string(),
                firstName: "ole".to_string(),
                jerseyToday: StringOrNum::Number(1),
            },
        })),
    }
}

#[test]
fn test_add_period_events() {
    let events = vec![get_event(1), get_event(3), get_event(4), get_event(4), get_event(99), get_event(99)];
    let result = add_period_events(events);
    assert_eq!(result.len(), 6 + 7);

    let p1 = result[0].clone();
    assert!(matches!(p1.eventType.as_ref().expect("msg"), EventType::Period(_)));
    assert_eq!(p1.period.to_num(), 1);
    assert_period(&p1, true, false);

    let p1 = result[2].clone();
    assert!(matches!(p1.eventType.as_ref().expect("msg"), EventType::Period(_)));
    assert_eq!(p1.period.to_num(), 1);
    assert_period(&p1, true, true);

    let p1 = result[3].clone();
    assert!(matches!(p1.eventType.as_ref().expect("msg"), EventType::Period(_)));
    assert_eq!(p1.period.to_num(), 3);
    assert_period(&p1, true, false);

    let p1 = result[5].clone();
    assert!(matches!(p1.eventType.as_ref().expect("msg"), EventType::Period(_)));
    assert_eq!(p1.period.to_num(), 3);
    assert_period(&p1, true, true);

    let p1 = result[6].clone();
    assert!(matches!(p1.eventType.as_ref().expect("msg"), EventType::Period(_)));
    assert_eq!(p1.period.to_num(), 4);
    assert_period(&p1, true, false);

    let p1 = result[9].clone();
    assert!(matches!(p1.eventType.as_ref().expect("msg"), EventType::Period(_)));
    assert_eq!(p1.period.to_num(), 4);
    assert_period(&p1, true, true);

    let p1 = result[10].clone();
    assert!(matches!(p1.eventType.as_ref().expect("msg"), EventType::Period(_)));
    assert_eq!(p1.period.to_num(), 99);
    assert_period(&p1, true, false);
}
