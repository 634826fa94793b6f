use std::collections::VecDeque;

use dominion_library::card_manager::card_builder::build_village;
use dominion_library::game::game_errors::{
    decimal_string, CardNotFoundError, GameErrors, InvalidActionError, OutOfCardsError,
};
use dominion_library::game::player_middleware::PlayerMiddleware;
use dominion_library::player::player::Player;

#[test]
fn fresh_log_holds_the_opening_entry_unread() {
    let mut log = PlayerMiddleware::new();
    assert_eq!(log.get_log(), vec!["Game start!"]);
    assert_eq!(log.get_update_log(), vec!["Game start!"]);
    assert!(log.get_update_log().is_empty());
    assert_eq!(log.get_log(), vec!["Game start!"]);
}

#[test]
fn bought_cards_are_recorded_in_both_logs() {
    let mut log = PlayerMiddleware::new();
    let _ = log.get_update_log();
    log.bought_card_middleware(String::from("CPU"), String::from("Silver"));
    log.bought_card_middleware(String::from("Player"), String::from("Moat"));
    assert_eq!(log.get_update_log(), vec!["CPU bought Silver", "Player bought Moat"]);
    assert!(log.get_update_log().is_empty());
    assert_eq!(log.get_log(), vec!["Game start!", "CPU bought Silver", "Player bought Moat"]);
}

#[test]
fn played_cards_are_recorded_with_the_player() {
    let mut log = PlayerMiddleware::new();
    let mut player = Player::new(VecDeque::new());
    player.name = String::from("Ada");
    log.played_card_middleware(&player, &build_village());
    assert_eq!(log.get_log(), vec!["Game start!", "Ada played Village"]);
    assert_eq!(log.get_update_log(), vec!["Game start!", "Ada played Village"]);
}

#[test]
fn reading_the_full_log_does_not_drain_the_new_entries() {
    let mut log = PlayerMiddleware::new();
    let _ = log.get_log();
    let _ = log.get_log();
    assert_eq!(log.get_update_log().len(), 1);
}

#[test]
fn numbers_are_written_in_decimal() {
    assert_eq!(decimal_string(0), "0");
    assert_eq!(decimal_string(7), "7");
    assert_eq!(decimal_string(10), "10");
    assert_eq!(decimal_string(109), "109");
    assert_eq!(decimal_string(1234567890), "1234567890");
    assert_eq!(decimal_string(usize::MAX), usize::MAX.to_string());
}

#[test]
fn errors_say_what_went_wrong() {
    assert_eq!(CardNotFoundError { index: 12 }.to_string(), "Card at index 12 not found");
    assert_eq!(OutOfCardsError.to_string(), "No more cards in object.");
    assert_eq!(
        InvalidActionError { action_attempted: String::from("jumping the queue") }.to_string(),
        "Invalid action: jumping the queue"
    );
}

#[test]
fn each_error_becomes_its_variant() {
    assert!(matches!(GameErrors::from(OutOfCardsError), GameErrors::OutOfCardsError(_)));
    match GameErrors::from(CardNotFoundError { index: 4 }) {
        GameErrors::CardNotFoundError(error) => assert_eq!(error.index, 4),
        _ => panic!("the wrong variant"),
    }
    match GameErrors::from(InvalidActionError { action_attempted: String::from("x") }) {
        GameErrors::InvalidActionError(error) => assert_eq!(error.action_attempted, "x"),
        _ => panic!("the wrong variant"),
    }
}
