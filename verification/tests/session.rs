use dominion_library::app::{App, CurrentScreen, GameSection, WelcomeButton};
use dominion_library::card_manager::card::Card;
use dominion_library::game::board::CardSet;
use dominion_library::game::game_errors::GameErrors;
use dominion_library::game::game_manager::GameManager;
use dominion_library::player::phases::PlayerPhases;
use dominion_library::player::player::PlayerUIInterface;

fn empty_piles(game: &GameManager) -> usize {
    let data = game.get_pile_data();
    data.treasures
        .iter()
        .chain(data.victories.iter())
        .chain(data.kingdom_set.iter())
        .filter(|row| row.1 == 0)
        .count()
}

fn stock(game: &GameManager) -> usize {
    let data = game.get_pile_data();
    data.treasures
        .iter()
        .chain(data.victories.iter())
        .chain(data.kingdom_set.iter())
        .map(|row| row.1 as usize)
        .sum()
}

fn bought_by_opponent(game: &GameManager) -> usize {
    game.get_logs().iter().filter(|entry| entry.starts_with("CPU bought ")).count()
}

#[test]
fn new_session_deals_five_cards_and_starts_the_human_turn() {
    let game = GameManager::new();
    assert_eq!(game.get_hand().len(), 5);
    assert_eq!(game.get_phase(), PlayerPhases::Action);
    assert_eq!(game.get_actions(), 1);
    assert_eq!(game.get_buys(), 1);
    assert_eq!(game.get_buying_power(), 0);
    assert_eq!(game.get_victory_points(), 3);
    assert_eq!(game.get_logs(), vec!["Game start!"]);
    let player = game.get_player_character();
    assert_eq!(player.name, "Player");
    assert_eq!(player.deck.len(), 5);
    assert!(player.discard.is_empty());
    assert!(player.in_play.is_empty());
    let mut names: Vec<&str> = player
        .deck
        .iter()
        .chain(player.hand.iter())
        .map(|card| card.get_name().as_str())
        .collect();
    names.sort();
    assert_eq!(
        names,
        vec![
            "Copper", "Copper", "Copper", "Copper", "Copper", "Copper", "Copper", "Estate",
            "Estate", "Estate"
        ]
    );
}

#[test]
fn new_session_lays_out_the_board() {
    let data = GameManager::new().get_pile_data();
    assert_eq!(
        data.treasures,
        vec![
            (String::from("Copper Pile"), 46, 0),
            (String::from("Silver Pile"), 40, 3),
            (String::from("Gold Pile"), 30, 6),
        ]
    );
    assert_eq!(
        data.victories,
        vec![
            (String::from("Estate Pile"), 8, 2),
            (String::from("Duchy Pile"), 8, 5),
            (String::from("Province Pile"), 8, 8),
        ]
    );
    assert_eq!(
        data.kingdom_set,
        vec![
            (String::from("Moat Pile"), 10, 2),
            (String::from("Woodcutter Pile"), 10, 3),
            (String::from("Village Pile"), 10, 3),
            (String::from("Smithy pile"), 10, 4),
            (String::from("Market Pile"), 10, 5),
        ]
    );
}

#[test]
fn new_session_is_not_over() {
    let mut game = GameManager::new();
    assert!(game.check_ending().is_none());
}

#[test]
fn pile_descriptions_come_from_the_board() {
    let mut game = GameManager::new();
    assert!(game.get_pile_desc(3, CardSet::Kingdoms).unwrap().contains("+ 3 Cards"));
    match game.get_pile_desc(3, CardSet::Victories) {
        Err(GameErrors::CardNotFoundError(error)) => assert_eq!(error.index, 3),
        _ => panic!("a pile was described that is not there"),
    }
}

#[test]
fn human_plays_treasures_and_buys() {
    let mut game = GameManager::new();
    game.advance_ui_phase();
    assert_eq!(game.get_phase(), PlayerPhases::Buy);
    let coppers =
        game.get_hand().iter().filter(|card| card.get_name().as_str() == "Copper").count();
    assert!(game.can_play_treasures());
    game.play_all_treasures_ui();
    assert_eq!(game.get_buying_power() as usize, coppers);
    assert_eq!(game.get_hand().len(), 5 - coppers);
    assert!(game.buy_ui_card(0, CardSet::Kingdoms).is_none());
    assert_eq!(game.get_buying_power() as usize, coppers - 2);
    assert_eq!(game.get_buys(), 0);
    assert_eq!(game.get_pile_data().kingdom_set[0].1, 9);
    assert_eq!(game.get_logs(), vec!["Game start!", "Player bought Moat"]);
    assert_eq!(game.get_player_character().discard[0].get_name(), "Moat");
    match game.buy_ui_card(0, CardSet::Treasures) {
        Some(GameErrors::InvalidActionError(error)) => assert_eq!(
            error.action_attempted,
            "You are out of buys, or out of money. Wait until next turn!"
        ),
        _ => panic!("a card was bought without a buy"),
    }
    assert_eq!(game.get_pile_data().treasures[0].1, 46);
    game.end_turn();
    assert_eq!(game.get_phase(), PlayerPhases::Idle);
    assert_eq!(game.get_hand().len(), 5);
    assert_eq!(game.get_buying_power(), 0);
    assert_eq!(game.get_buys(), 1);
}

#[test]
fn human_cannot_play_a_treasure_in_the_action_phase() {
    let mut game = GameManager::new();
    let copper = game
        .get_hand()
        .iter()
        .position(|card| card.get_name().as_str() == "Copper")
        .unwrap();
    assert!(game.can_play_card(copper));
    match game.play_ui_card(copper) {
        Some(GameErrors::InvalidActionError(error)) => {
            assert_eq!(error.action_attempted, "You cannot play a that card at this time.")
        }
        _ => panic!("a treasure was played in the action phase"),
    }
    assert_eq!(game.get_hand().len(), 5);
    assert_eq!(game.get_buying_power(), 0);
    assert!(!game.can_play_card(5));
}

#[test]
fn commands_of_the_idle_phase_do_nothing() {
    let mut game = GameManager::new();
    game.end_turn();
    assert_eq!(game.get_phase(), PlayerPhases::Idle);
    let hand: Vec<String> = game.get_hand().iter().map(|c| c.get_name().clone()).collect();
    game.advance_ui_phase();
    assert_eq!(game.get_phase(), PlayerPhases::Idle);
    game.end_turn();
    let after: Vec<String> = game.get_hand().iter().map(|c| c.get_name().clone()).collect();
    assert_eq!(after, hand);
}

#[test]
fn advancing_from_the_buy_phase_ends_the_turn() {
    let mut game = GameManager::new();
    game.advance_ui_phase();
    game.advance_ui_phase();
    assert_eq!(game.get_phase(), PlayerPhases::Idle);
    assert_eq!(game.get_hand().len(), 5);
    assert_eq!(game.get_player_character().discard.len(), 5);
}

#[test]
fn opponent_buys_by_the_policy_and_hands_the_turn_back() {
    for _ in 0..20 {
        let mut game = GameManager::new();
        game.end_turn();
        game.player2_basic_ai();
        assert_eq!(game.get_phase(), PlayerPhases::Action);
        let data = game.get_pile_data();
        assert_eq!(data.victories[2].1, 8);
        assert_eq!(data.treasures[2].1, 30);
        let logs = game.get_logs();
        if data.treasures[1].1 == 39 {
            assert_eq!(logs, vec!["Game start!", "CPU bought Silver"]);
        } else {
            assert_eq!(data.treasures[1].1, 40);
            assert_eq!(logs, vec!["Game start!"]);
        }
        assert_eq!(stock(&game) + bought_by_opponent(&game), 190);
    }
}

#[test]
fn mutable_player_handle_changes_the_session() {
    let mut game = GameManager::new();
    game.get_player_mut_character().buy_power = 6;
    assert_eq!(game.get_buying_power(), 6);
    assert!(game.buy_ui_card(2, CardSet::Treasures).is_none());
    assert_eq!(game.get_buying_power(), 0);
    assert_eq!(game.get_pile_data().treasures[2].1, 29);
}

#[test]
fn game_is_reported_over_on_the_turn_the_province_pile_runs_out() {
    let mut app = App::new();
    app.game_nav_data.button_selected = 1;
    let mut turns = 0;
    while app.end_data.is_none() {
        assert!(turns < 5000, "the game did not end");
        let provinces = app.game.get_pile_data().victories[2].1;
        assert!(provinces > 0);
        assert!(empty_piles(&app.game) < 2);
        app.handle_player_button_press();
        turns += 1;
        let data = app.game.get_pile_data();
        let over = data.victories[2].1 == 0 || empty_piles(&app.game) >= 2;
        assert_eq!(app.end_data.is_some(), over);
        assert_eq!(stock(&app.game) + bought_by_opponent(&app.game), 190);
        if !over {
            assert_eq!(app.game.get_phase(), PlayerPhases::Action);
        }
    }
    assert!(turns >= 8);
    let scores = app.end_data.clone().unwrap();
    assert_eq!(scores.len(), 2);
    assert_eq!(scores[0], (String::from("Player "), 3));
    assert_eq!(scores[1].0, "CPU ");
    let provinces = 8 - app.game.get_pile_data().victories[2].1 as i32;
    assert_eq!(scores[1].1, 3 + 6 * provinces);
    assert!(app.game.check_ending().is_some());
}

#[test]
fn ending_the_turn_eight_times_lets_the_opponent_answer_each_time() {
    let mut app = App::new();
    app.game_nav_data.button_selected = 1;
    for turn in 1..=8 {
        app.handle_player_button_press();
        assert_eq!(app.game.get_victory_points(), 3);
        assert_eq!(app.game.get_hand().len(), 5);
        let provinces = app.game.get_pile_data().victories[2].1;
        assert_eq!(app.end_data.is_some(), provinces == 0 || empty_piles(&app.game) >= 2);
        assert!(bought_by_opponent(&app.game) <= turn);
    }
}

#[test]
fn fresh_application_shows_the_welcome_screen() {
    let app = App::new();
    assert_eq!(app.current_screen, CurrentScreen::Welcome);
    assert_eq!(app.welcome_data.selected_button, WelcomeButton::Play);
    assert!(app.prev_screen.is_none());
    assert!(app.end_data.is_none());
    assert!(app.update_items.first_render);
    assert!(!app.update_items.update_player_stats);
    assert!(!app.update_items.update_player_cards);
    assert!(!app.update_items.update_log);
    assert_eq!(app.game_nav_data.current_game_section, GameSection::PlayerCards);
    assert!(app.game_nav_data.prev_game_section.is_none());
    assert_eq!(app.game_nav_data.card_selected, 0);
    assert_eq!(app.game_nav_data.button_selected, 0);
    assert_eq!(app.game_nav_data.kingdom_row, 0);
    assert_eq!(app.game_nav_data.kingdom_column, 0);
    assert_eq!(app.game_nav_data.card_describe, "");
    assert!(app.game_nav_data.error_message.is_none());
    assert!(app.game_nav_data.selection_message.is_none());
}

#[test]
fn human_treasures_stay_in_the_hand_in_the_action_phase() {
    let mut game = GameManager::new();
    assert_eq!(game.get_phase(), PlayerPhases::Action);
    let hand: Vec<String> = game.get_hand().iter().map(|c| c.get_name().clone()).collect();
    assert!(game.can_play_treasures());
    game.play_all_treasures_ui();
    let after: Vec<String> = game.get_hand().iter().map(|c| c.get_name().clone()).collect();
    assert_eq!(after, hand);
    assert_eq!(game.get_buying_power(), 0);
    assert!(game.get_player_character().in_play.is_empty());
}

#[test]
fn opponent_log_names_what_left_the_piles() {
    let mut app = App::new();
    app.game_nav_data.button_selected = 1;
    for _ in 0..40 {
        if app.end_data.is_some() {
            break;
        }
        app.handle_player_button_press();
    }
    let logs = app.game.get_logs();
    let count = |entry: &str| logs.iter().filter(|line| line.as_str() == entry).count();
    let data = app.game.get_pile_data();
    assert_eq!(count("CPU bought Province"), 8 - data.victories[2].1 as usize);
    assert_eq!(count("CPU bought Gold"), 30 - data.treasures[2].1 as usize);
    assert_eq!(count("CPU bought Silver"), 40 - data.treasures[1].1 as usize);
    assert_eq!(
        logs.len(),
        1 + count("CPU bought Province") + count("CPU bought Gold") + count("CPU bought Silver")
    );
    assert_eq!(data.treasures[0].1, 46);
    assert_eq!(data.victories[0].1, 8);
    assert_eq!(data.victories[1].1, 8);
}
