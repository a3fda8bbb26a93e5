//! Scenario tests for the secret-word duel session.

use duels::{Error, Event, GameStage, GameState};

fn ready_game() -> GameState {
    let mut state = GameState::init();
    state
        .create_game("Alice".to_string(), "Pat".to_string(), "Quinn".to_string())
        .unwrap();
    state
}

fn game_with_secret(secret: &str) -> GameState {
    let mut state = ready_game();
    state
        .set_secret("Alice".to_string(), secret.to_string())
        .unwrap();
    state
}

#[test]
fn create_game_starts_waiting_for_secret() {
    let mut state = GameState::init();
    let info = state
        .create_game("Alice".to_string(), "Pat".to_string(), "Quinn".to_string())
        .unwrap();
    assert_eq!(info.stage, GameStage::WaitingForSecret);
    assert_eq!(info.admin.as_deref(), Some("Alice"));
    assert_eq!(info.player_one.as_deref(), Some("Pat"));
    assert_eq!(info.player_two.as_deref(), Some("Quinn"));
    assert!(!info.secret_set);
    assert_eq!(info.total_messages, 0);
    assert_eq!(info.max_messages, 200);
    assert_eq!(info.awaiting_player.as_deref(), Some("Alice"));
}

#[test]
fn create_game_trims_names() {
    let mut state = GameState::init();
    let info = state
        .create_game("  Alice  ".to_string(), " Pat ".to_string(), " Quinn ".to_string())
        .unwrap();
    assert_eq!(info.admin.as_deref(), Some("Alice"));
    assert_eq!(info.player_one.as_deref(), Some("Pat"));
    assert_eq!(info.player_two.as_deref(), Some("Quinn"));
}

#[test]
fn create_game_rejects_empty_name() {
    let mut state = GameState::init();
    let r = state.create_game("   ".to_string(), "Pat".to_string(), "Quinn".to_string());
    assert!(matches!(r, Err(Error::EmptyName)));
}

#[test]
fn create_game_rejects_long_name() {
    let mut state = GameState::init();
    let long = "x".repeat(129);
    let r = state.create_game(long, "Pat".to_string(), "Quinn".to_string());
    assert!(matches!(r, Err(Error::NameTooLong(129))));
}

#[test]
fn create_game_rejects_different_admin() {
    let mut state = ready_game();
    let r = state.create_game("Mallory".to_string(), "Pat".to_string(), "Quinn".to_string());
    assert!(matches!(r, Err(Error::AdminMismatch)));
}

#[test]
fn create_game_same_admin_restarts() {
    let mut state = game_with_secret("banana");
    let info = state
        .create_game("Alice".to_string(), "Rae".to_string(), "Sam".to_string())
        .unwrap();
    assert_eq!(info.stage, GameStage::WaitingForSecret);
    assert!(!info.secret_set);
    assert_eq!(info.player_one.as_deref(), Some("Rae"));
    assert_eq!(info.total_messages, 0);
}

#[test]
fn set_secret_requires_admin() {
    let mut state = ready_game();
    let r = state.set_secret("Mallory".to_string(), "banana".to_string());
    assert!(matches!(r, Err(Error::Unauthorized(_))));
}

#[test]
fn set_secret_before_create_game_is_incomplete() {
    let mut state = GameState::init();
    let r = state.set_secret("Alice".to_string(), "banana".to_string());
    assert!(matches!(r, Err(Error::GameSetupIncomplete(_))));
}

#[test]
fn set_secret_rejects_multiple_words() {
    let mut state = ready_game();
    let r = state.set_secret("Alice".to_string(), "two words".to_string());
    assert!(matches!(r, Err(Error::InvalidSecretFormat)));
}

#[test]
fn set_secret_accepts_padded_single_word() {
    let mut state = ready_game();
    let info = state
        .set_secret("Alice".to_string(), "  banana  ".to_string())
        .unwrap();
    assert_eq!(info.stage, GameStage::WaitingForQuestion);
    assert!(info.secret_set);
    assert_eq!(info.awaiting_player.as_deref(), Some("Pat"));
    let secret = state.get_secret("Alice".to_string()).unwrap();
    assert_eq!(secret.as_deref(), Some("banana"));
}

#[test]
fn guess_comparison_is_normalized() {
    let state = game_with_secret("banana");
    for guess in ["Banana", " banana ", "BANANA"] {
        let r = state.check_guess(guess.to_string()).unwrap();
        assert!(r.guess_was_correct, "guess {:?} should match", guess);
    }
    let r = state.check_guess("apple".to_string()).unwrap();
    assert!(!r.guess_was_correct);
}

#[test]
fn check_guess_requires_secret() {
    let state = ready_game();
    let r = state.check_guess("banana".to_string());
    assert!(matches!(r, Err(Error::SecretNotSet)));
}

#[test]
fn full_round_stage_transitions() {
    let mut state = game_with_secret("banana");
    let q = state
        .submit_question("Pat".to_string(), "Is it yellow?".to_string(), 10)
        .unwrap();
    assert_eq!(q.id, 0);
    assert_eq!(q.sender, "Pat");
    assert_eq!(q.role, "player_one");
    assert_eq!(q.content, "Is it yellow?");
    assert_eq!(q.timestamp_ms, 10);
    assert_eq!(state.game_info().unwrap().stage, GameStage::WaitingForAnswer);

    let wrong = state
        .submit_answer(
            "Quinn".to_string(),
            "Yes it is".to_string(),
            Some("apple".to_string()),
            11,
        )
        .unwrap();
    assert!(!wrong.guess_was_correct);
    assert_eq!(state.game_info().unwrap().stage, GameStage::WaitingForQuestion);

    state
        .submit_question("Pat".to_string(), "Is it a fruit?".to_string(), 12)
        .unwrap();
    let right = state
        .submit_answer(
            "Quinn".to_string(),
            "It is. Guessing now.".to_string(),
            Some(" BANANA ".to_string()),
            13,
        )
        .unwrap();
    assert!(right.guess_was_correct);
    assert_eq!(state.game_info().unwrap().stage, GameStage::Completed);

    let r = state.submit_question("Pat".to_string(), "Another?".to_string(), 14);
    assert!(matches!(r, Err(Error::InvalidTurn(_))));

    let info = state
        .create_game("Alice".to_string(), "Pat".to_string(), "Quinn".to_string())
        .unwrap();
    assert_eq!(info.stage, GameStage::WaitingForSecret);
}

#[test]
fn question_requires_secret_then_player_one() {
    let mut state = ready_game();
    let r = state.submit_question("Pat".to_string(), "Ready?".to_string(), 0);
    assert!(matches!(r, Err(Error::SecretNotSet)));

    let mut state = game_with_secret("banana");
    let r = state.submit_question("Quinn".to_string(), "Ready?".to_string(), 0);
    assert!(matches!(r, Err(Error::Unauthorized(_))));
}

#[test]
fn question_rejects_empty_and_long_content() {
    let mut state = game_with_secret("banana");
    let r = state.submit_question("Pat".to_string(), "   ".to_string(), 0);
    assert!(matches!(r, Err(Error::EmptyContent)));
    let long = "y".repeat(16385);
    let r = state.submit_question("Pat".to_string(), long, 0);
    assert!(matches!(r, Err(Error::ContentTooLong(16385))));
}

#[test]
fn answer_requires_open_question() {
    let mut state = game_with_secret("banana");
    let r = state.submit_answer("Quinn".to_string(), "Too early".to_string(), None, 0);
    assert!(matches!(r, Err(Error::InvalidTurn(_))));
}

#[test]
fn answer_requires_player_two() {
    let mut state = game_with_secret("banana");
    state
        .submit_question("Pat".to_string(), "Is it yellow?".to_string(), 0)
        .unwrap();
    let r = state.submit_answer("Pat".to_string(), "I answer myself".to_string(), None, 1);
    assert!(matches!(r, Err(Error::Unauthorized(_))));
}

#[test]
fn message_ids_increase_and_reset_on_create() {
    let mut state = game_with_secret("banana");
    let mut expected: u64 = 0;
    for _ in 0..3 {
        let q = state
            .submit_question("Pat".to_string(), "Question".to_string(), 0)
            .unwrap();
        assert_eq!(q.id, expected);
        let a = state
            .submit_answer("Quinn".to_string(), "Answer".to_string(), None, 1)
            .unwrap();
        assert_eq!(a.message.id, expected + 1);
        expected += 2;
    }

    state.clear_history("Alice".to_string()).unwrap();
    let q = state
        .submit_question("Pat".to_string(), "After clearing".to_string(), 2)
        .unwrap();
    assert_eq!(q.id, expected, "identifiers keep rising after clear_history");

    state
        .create_game("Alice".to_string(), "Pat".to_string(), "Quinn".to_string())
        .unwrap();
    state
        .set_secret("Alice".to_string(), "banana".to_string())
        .unwrap();
    let q = state
        .submit_question("Pat".to_string(), "Fresh round".to_string(), 3)
        .unwrap();
    assert_eq!(q.id, 0, "identifiers reset only on create_game");
}

#[test]
fn lowering_capacity_evicts_oldest_batch() {
    let mut state = game_with_secret("banana");
    for i in 0..3 {
        state
            .submit_question("Pat".to_string(), format!("Question {i}"), 0)
            .unwrap();
        state
            .submit_answer("Quinn".to_string(), format!("Answer {i}"), None, 1)
            .unwrap();
    }
    assert_eq!(state.game_info().unwrap().total_messages, 6);

    state.set_max_messages("Alice".to_string(), 2).unwrap();
    let info = state.game_info().unwrap();
    assert_eq!(info.total_messages, 2);
    assert_eq!(info.max_messages, 2);
    let page = state.messages(None, None).unwrap();
    assert_eq!(page.len(), 2);
    assert_eq!(page[0].content, "Question 2");
    assert_eq!(page[1].content, "Answer 2");
}

#[test]
fn appends_over_capacity_drop_oldest() {
    let mut state = game_with_secret("banana");
    state.set_max_messages("Alice".to_string(), 1).unwrap();
    state
        .submit_question("Pat".to_string(), "First".to_string(), 0)
        .unwrap();
    state
        .submit_answer("Quinn".to_string(), "Second".to_string(), None, 1)
        .unwrap();
    let page = state.messages(None, None).unwrap();
    assert_eq!(page.len(), 1);
    assert_eq!(page[0].content, "Second");
}

#[test]
fn set_max_messages_validates_range() {
    let mut state = ready_game();
    assert!(matches!(
        state.set_max_messages("Alice".to_string(), 0),
        Err(Error::InvalidMaxMessages)
    ));
    assert!(matches!(
        state.set_max_messages("Alice".to_string(), 1001),
        Err(Error::InvalidMaxMessages)
    ));
    assert!(state.set_max_messages("Alice".to_string(), 1000).is_ok());
    assert!(matches!(
        state.set_max_messages("Mallory".to_string(), 10),
        Err(Error::Unauthorized(_))
    ));
}

#[test]
fn pagination_clamps_offset_and_limit() {
    let mut state = game_with_secret("banana");
    for i in 0..3 {
        state
            .submit_question("Pat".to_string(), format!("Q{i}"), 0)
            .unwrap();
        state
            .submit_answer("Quinn".to_string(), format!("A{i}"), None, 1)
            .unwrap();
    }
    // 6 entries; an offset far past the end yields an empty page, not an error.
    let page = state.messages(Some(1000), Some(10)).unwrap();
    assert!(page.is_empty());

    let page = state.messages(Some(2), Some(2)).unwrap();
    assert_eq!(page.len(), 2);
    assert_eq!(page[0].content, "Q1");
    assert_eq!(page[1].content, "A1");

    // A zero limit clamps up to one entry.
    let page = state.messages(None, Some(0)).unwrap();
    assert_eq!(page.len(), 1);
    assert_eq!(page[0].content, "Q0");
}

#[test]
fn pagination_on_five_entries() {
    let mut state = game_with_secret("banana");
    for i in 0..2 {
        state
            .submit_question("Pat".to_string(), format!("Q{i}"), 0)
            .unwrap();
        state
            .submit_answer("Quinn".to_string(), format!("A{i}"), None, 1)
            .unwrap();
    }
    state
        .submit_question("Pat".to_string(), "Q2".to_string(), 0)
        .unwrap();
    let page = state.messages(Some(1000), Some(10)).unwrap();
    assert!(page.is_empty());
    let all = state.messages(None, None).unwrap();
    assert_eq!(all.len(), 5);
}

#[test]
fn message_by_id_finds_and_fails() {
    let mut state = game_with_secret("banana");
    let q = state
        .submit_question("Pat".to_string(), "Findable".to_string(), 7)
        .unwrap();
    let found = state.message_by_id(q.id).unwrap();
    assert_eq!(found.content, "Findable");
    assert_eq!(found.timestamp_ms, 7);
    let r = state.message_by_id(999);
    assert!(matches!(r, Err(Error::MessageNotFound(999))));
}

#[test]
fn clear_history_requires_admin_and_clears() {
    let mut state = game_with_secret("banana");
    state
        .submit_question("Pat".to_string(), "To be purged".to_string(), 0)
        .unwrap();
    assert!(matches!(
        state.clear_history("Pat".to_string()),
        Err(Error::Unauthorized(_))
    ));
    state.clear_history("Alice".to_string()).unwrap();
    assert_eq!(state.game_info().unwrap().total_messages, 0);
}

#[test]
fn clear_history_on_empty_log_emits_nothing() {
    let mut state = ready_game();
    state.take_events();
    state.clear_history("Alice".to_string()).unwrap();
    let events = state.take_events();
    assert!(events.is_empty());

    state
        .set_secret("Alice".to_string(), "banana".to_string())
        .unwrap();
    state
        .submit_question("Pat".to_string(), "Hello".to_string(), 0)
        .unwrap();
    state.take_events();
    state.clear_history("Alice".to_string()).unwrap();
    let events = state.take_events();
    assert_eq!(events.len(), 1);
    assert!(matches!(events[0], Event::HistoryCleared));
}

#[test]
fn events_follow_successful_mutations() {
    let mut state = GameState::init();
    state
        .create_game("Alice".to_string(), "Pat".to_string(), "Quinn".to_string())
        .unwrap();
    let events = state.take_events();
    assert_eq!(events.len(), 2);
    assert!(
        matches!(&events[0], Event::StageChanged { stage } if stage == "waiting_for_secret")
    );
    assert!(
        matches!(&events[1], Event::GameCreated { admin, player_one, player_two }
            if admin == "Alice" && player_one == "Pat" && player_two == "Quinn")
    );

    state
        .set_secret("Alice".to_string(), "banana".to_string())
        .unwrap();
    let events = state.take_events();
    assert_eq!(events.len(), 2);
    assert!(
        matches!(&events[0], Event::StageChanged { stage } if stage == "waiting_for_question")
    );
    assert!(matches!(&events[1], Event::SecretSet));

    state
        .submit_question("Pat".to_string(), "Is it yellow?".to_string(), 5)
        .unwrap();
    let events = state.take_events();
    assert_eq!(events.len(), 2);
    assert!(
        matches!(&events[0], Event::StageChanged { stage } if stage == "waiting_for_answer")
    );
    assert!(
        matches!(&events[1], Event::MessageAdded { id: 0, sender, role, content, timestamp_ms: 5 }
            if sender == "Pat" && role == "player_one" && content == "Is it yellow?")
    );

    state
        .submit_answer(
            "Quinn".to_string(),
            "Guessing".to_string(),
            Some("banana".to_string()),
            6,
        )
        .unwrap();
    let events = state.take_events();
    assert_eq!(events.len(), 3);
    assert!(matches!(&events[0], Event::StageChanged { stage } if stage == "completed"));
    assert!(matches!(&events[1], Event::SecretGuessed { guesser } if guesser == "Quinn"));
    assert!(matches!(&events[2], Event::MessageAdded { id: 1, .. }));
}

#[test]
fn no_events_on_failed_calls() {
    let mut state = ready_game();
    state.take_events();
    let _ = state.set_secret("Mallory".to_string(), "banana".to_string());
    let _ = state.submit_question("Pat".to_string(), "Too early".to_string(), 0);
    let _ = state.create_game("Mallory".to_string(), "A".to_string(), "B".to_string());
    assert!(state.take_events().is_empty());
}

#[test]
fn get_secret_is_role_gated_and_silent() {
    let state = game_with_secret("banana");
    assert_eq!(
        state.get_secret("Alice".to_string()).unwrap().as_deref(),
        Some("banana")
    );
    assert_eq!(
        state.get_secret("Quinn".to_string()).unwrap().as_deref(),
        Some("banana")
    );
    assert_eq!(state.get_secret("Pat".to_string()).unwrap(), None);
    assert_eq!(state.get_secret("Mallory".to_string()).unwrap(), None);
    assert!(matches!(
        state.get_secret("  ".to_string()),
        Err(Error::EmptyName)
    ));
}

#[test]
fn debug_reveal_secret_is_ungated() {
    let state = game_with_secret("banana");
    assert_eq!(
        state.debug_reveal_secret().unwrap().as_deref(),
        Some("banana")
    );
    let fresh = GameState::init();
    assert_eq!(fresh.debug_reveal_secret().unwrap(), None);
}

#[test]
fn stage_labels_and_awaiting_player() {
    assert_eq!(GameStage::NotStarted.as_label(), "not_started");
    assert_eq!(GameStage::WaitingForSecret.as_label(), "waiting_for_secret");
    assert_eq!(GameStage::WaitingForQuestion.as_label(), "waiting_for_question");
    assert_eq!(GameStage::WaitingForAnswer.as_label(), "waiting_for_answer");
    assert_eq!(GameStage::Completed.as_label(), "completed");

    let state = ready_game();
    assert_eq!(
        GameStage::WaitingForQuestion.awaiting_player(&state).as_deref(),
        Some("Pat")
    );
    assert_eq!(
        GameStage::WaitingForAnswer.awaiting_player(&state).as_deref(),
        Some("Quinn")
    );
    assert_eq!(GameStage::Completed.awaiting_player(&state), None);
}

#[test]
fn normalise_word_trims_and_lowercases() {
    assert_eq!(GameState::normalise_word("  BaNaNa  "), "banana");
    assert_eq!(GameState::normalise_word(""), "");
}
