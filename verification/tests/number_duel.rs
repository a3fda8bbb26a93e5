//! Scenario tests for the number-discovery duel session.

use duels::{DuelError, DuelEvent, DuelState, Phase};

fn duel_with(n1: i64, n2: i64) -> DuelState {
    let mut duel = DuelState::new();
    duel.submit_number("p1".to_string(), n1).unwrap();
    duel.submit_number("p2".to_string(), n2).unwrap();
    duel
}

#[test]
fn higher_number_wins() {
    let mut duel = duel_with(5, 9);
    duel.discover_number("p1".to_string()).unwrap();
    let r = duel.discover_number("p2".to_string()).unwrap();
    assert_eq!(r.info.phase, Phase::Finished);
    assert_eq!(r.info.winner.as_deref(), Some("p2"));
    assert_eq!(r.info.current_turn, None);
}

#[test]
fn equal_numbers_draw() {
    let mut duel = duel_with(7, 7);
    duel.discover_number("p1".to_string()).unwrap();
    let r = duel.discover_number("p2".to_string()).unwrap();
    assert_eq!(r.info.phase, Phase::Finished);
    assert_eq!(r.info.winner, None);
}

#[test]
fn first_joined_player_acts_first() {
    let mut duel = DuelState::new();
    let info = duel.submit_number("p1".to_string(), 5).unwrap();
    assert_eq!(info.phase, Phase::Setup);
    assert_eq!(info.current_turn, None);

    let info = duel.submit_number("p2".to_string(), 9).unwrap();
    assert_eq!(info.phase, Phase::InProgress);
    assert_eq!(info.current_turn.as_deref(), Some("p1"));

    let r = duel.discover_number("p2".to_string());
    match r {
        Err(DuelError::NotYourTurn(expected)) => assert_eq!(expected, "p1"),
        other => panic!("expected NotYourTurn, got {other:?}"),
    }
}

#[test]
fn turn_passes_then_game_finishes() {
    let mut duel = duel_with(5, 9);
    let r = duel.discover_number("p1".to_string()).unwrap();
    assert_eq!(r.number, 9, "the discovery reveals the opponent's number");
    assert_eq!(r.info.phase, Phase::InProgress);
    assert_eq!(r.info.current_turn.as_deref(), Some("p2"));

    let again = duel.discover_number("p1".to_string());
    match again {
        Err(DuelError::NotYourTurn(expected)) => assert_eq!(expected, "p2"),
        other => panic!("expected NotYourTurn, got {other:?}"),
    }

    let r = duel.discover_number("p2".to_string()).unwrap();
    assert_eq!(r.number, 5);
    assert_eq!(r.info.phase, Phase::Finished);
    assert_eq!(r.info.current_turn, None);
    assert_eq!(r.info.winner.as_deref(), Some("p2"));
}

#[test]
fn discovery_requires_full_roster() {
    let mut duel = DuelState::new();
    assert!(matches!(
        duel.discover_number("p1".to_string()),
        Err(DuelError::NotEnoughPlayers)
    ));
    duel.submit_number("p1".to_string(), 5).unwrap();
    assert!(matches!(
        duel.discover_number("p1".to_string()),
        Err(DuelError::NotEnoughPlayers)
    ));
}

#[test]
fn roster_is_capped_at_two() {
    let mut duel = DuelState::new();
    duel.submit_number("p1".to_string(), 1).unwrap();
    duel.submit_number("p2".to_string(), 2).unwrap();
    let mut late = DuelState::new();
    late.submit_number("p1".to_string(), 1).unwrap();
    let r = late.submit_number("p2".to_string(), 2);
    assert!(r.is_ok());
    // A third identity can no longer join: the phase has advanced.
    assert!(matches!(
        duel.submit_number("p3".to_string(), 3),
        Err(DuelError::InvalidPhase)
    ));
}

#[test]
fn numbers_are_write_once() {
    let mut duel = DuelState::new();
    duel.submit_number("p1".to_string(), 5).unwrap();
    assert!(matches!(
        duel.submit_number("p1".to_string(), 6),
        Err(DuelError::NumberAlreadySubmitted)
    ));
}

#[test]
fn no_submission_after_setup() {
    let mut duel = duel_with(5, 9);
    assert!(matches!(
        duel.submit_number("p3".to_string(), 1),
        Err(DuelError::InvalidPhase)
    ));
    duel.discover_number("p1".to_string()).unwrap();
    duel.discover_number("p2".to_string()).unwrap();
    assert!(matches!(
        duel.submit_number("p1".to_string(), 1),
        Err(DuelError::InvalidPhase)
    ));
}

#[test]
fn no_discovery_after_finish() {
    let mut duel = duel_with(5, 9);
    duel.discover_number("p1".to_string()).unwrap();
    duel.discover_number("p2".to_string()).unwrap();
    assert!(matches!(
        duel.discover_number("p1".to_string()),
        Err(DuelError::GameFinished)
    ));
}

#[test]
fn numbers_stay_hidden_until_earned() {
    let mut duel = DuelState::new();
    let info = duel.submit_number("p1".to_string(), 5).unwrap();
    assert_eq!(info.players.len(), 1);
    assert_eq!(info.players[0].id, "p1");
    assert_eq!(info.players[0].number, None, "own number is withheld too");

    let info = duel.submit_number("p2".to_string(), 9).unwrap();
    assert_eq!(info.players[0].number, None);
    assert_eq!(info.players[1].number, None);

    let r = duel.discover_number("p1".to_string()).unwrap();
    assert_eq!(r.info.players[1].number, Some(9), "revealed by the opponent");
    assert_eq!(r.info.players[0].number, None, "not yet revealed");
    assert!(r.info.players[0].discovered);
    assert!(!r.info.players[1].discovered);

    let r = duel.discover_number("p2".to_string()).unwrap();
    assert_eq!(r.info.players[0].number, Some(5), "forced open at game end");
    assert_eq!(r.info.players[1].number, Some(9));
}

#[test]
fn duel_events_follow_mutations() {
    let mut duel = DuelState::new();
    duel.submit_number("p1".to_string(), 5).unwrap();
    let events = duel.take_events();
    assert_eq!(events.len(), 2);
    assert!(matches!(&events[0], DuelEvent::PlayerRegistered { player_id } if player_id == "p1"));
    assert!(matches!(&events[1], DuelEvent::NumberSubmitted { player_id } if player_id == "p1"));

    duel.submit_number("p2".to_string(), 9).unwrap();
    let events = duel.take_events();
    assert_eq!(events.len(), 3);
    assert!(matches!(&events[0], DuelEvent::PlayerRegistered { player_id } if player_id == "p2"));
    assert!(matches!(&events[1], DuelEvent::NumberSubmitted { player_id } if player_id == "p2"));
    assert!(
        matches!(&events[2], DuelEvent::TurnChanged { player_id: Some(p) } if p == "p1")
    );

    duel.discover_number("p1".to_string()).unwrap();
    let events = duel.take_events();
    assert_eq!(events.len(), 2);
    assert!(
        matches!(&events[0], DuelEvent::NumberDiscovered { player_id, target_id, value: 9 }
            if player_id == "p1" && target_id == "p2")
    );
    assert!(
        matches!(&events[1], DuelEvent::TurnChanged { player_id: Some(p) } if p == "p2")
    );

    duel.discover_number("p2".to_string()).unwrap();
    let events = duel.take_events();
    assert_eq!(events.len(), 3);
    assert!(
        matches!(&events[0], DuelEvent::NumberDiscovered { player_id, target_id, value: 5 }
            if player_id == "p2" && target_id == "p1")
    );
    assert!(matches!(&events[1], DuelEvent::TurnChanged { player_id: None }));
    assert!(
        matches!(&events[2], DuelEvent::GameFinished { winner: Some(w) } if w == "p2")
    );
}

#[test]
fn no_duel_events_on_failed_calls() {
    let mut duel = duel_with(5, 9);
    duel.take_events();
    let _ = duel.submit_number("p3".to_string(), 1);
    let _ = duel.discover_number("p2".to_string());
    assert!(duel.take_events().is_empty());
}

#[test]
fn negative_numbers_compare_by_value() {
    let mut duel = duel_with(-3, -9);
    duel.discover_number("p1".to_string()).unwrap();
    let r = duel.discover_number("p2".to_string()).unwrap();
    assert_eq!(r.info.winner.as_deref(), Some("p1"));
}
