use dominion_library::app::{
    App, CurrentScreen, GameNavData, GameSection, UpdateItems, WelcomeButton, WelcomeScreen,
};
use dominion_library::card_manager::card::Card;
use dominion_library::game::game_errors::{
    CardNotFoundError, GameErrors, InvalidActionError, OutOfCardsError,
};
use dominion_library::input::{
    accepts_key_event, handle_key_event, handle_kingdom_nav, handle_player_buttons,
    handle_playercards_nav, Key, KeyPress,
};
use dominion_library::player::phases::PlayerPhases;
use dominion_library::player::player::PlayerUIInterface;

fn press(code: Key) -> KeyPress {
    KeyPress { code, control: false, release: false }
}

fn playing() -> App {
    let mut app = App::new();
    app.current_screen = CurrentScreen::Playing;
    app
}

fn send(app: &mut App, code: Key) -> bool {
    let key = press(code);
    assert!(accepts_key_event(app, &key));
    handle_key_event(app, key)
}

#[test]
fn welcome_buttons_toggle() {
    let mut screen = WelcomeScreen::new();
    assert_eq!(screen.selected_button, WelcomeButton::Play);
    screen.toggle_selected_button();
    assert_eq!(screen.selected_button, WelcomeButton::Exit);
    screen.toggle_selected_button();
    assert_eq!(screen.selected_button, WelcomeButton::Play);
    let mut app = App::new();
    app.toggle_menu_button();
    assert_eq!(app.welcome_data.selected_button, WelcomeButton::Exit);
}

#[test]
fn update_items_start_with_the_first_render() {
    let items = UpdateItems::new();
    assert!(items.first_render);
    assert!(!items.update_player_stats);
    assert!(!items.update_player_cards);
    assert!(!items.update_log);
}

#[test]
fn player_buttons_toggle_between_zero_and_one() {
    let mut nav = GameNavData::new();
    nav.toggle_player_buttons();
    assert_eq!(nav.button_selected, 1);
    nav.toggle_player_buttons();
    assert_eq!(nav.button_selected, 0);
    nav.button_selected = 7;
    nav.toggle_player_buttons();
    assert_eq!(nav.button_selected, 7);
}

#[test]
fn at_or_go_top_moves_up_from_the_lower_button() {
    let mut nav = GameNavData::new();
    assert!(nav.at_or_go_top());
    assert_eq!(nav.button_selected, 0);
    nav.button_selected = 1;
    assert!(!nav.at_or_go_top());
    assert_eq!(nav.button_selected, 0);
    nav.button_selected = 9;
    assert!(!nav.at_or_go_top());
    assert_eq!(nav.button_selected, 9);
}

#[test]
fn closing_the_error_popup_goes_back_to_the_kept_section() {
    let mut nav = GameNavData::new();
    nav.current_game_section = GameSection::ErrorPopup;
    nav.prev_game_section = Some(GameSection::Kingdom);
    nav.card_selected = 3;
    nav.restore_before_error();
    assert_eq!(nav.current_game_section, GameSection::Kingdom);
    assert_eq!(nav.card_selected, 3);
    nav.current_game_section = GameSection::ErrorPopup;
    nav.prev_game_section = None;
    nav.restore_before_error();
    assert_eq!(nav.current_game_section, GameSection::PlayerCards);
    assert_eq!(nav.card_selected, 0);
}

#[test]
fn errors_are_taken_down_for_the_popup() {
    let mut app = playing();
    app.handle_error(GameErrors::CardNotFoundError(CardNotFoundError { index: 42 }));
    assert_eq!(app.game_nav_data.error_message.as_deref(), Some("Cannot find card at index: 42"));
    assert_eq!(app.game_nav_data.current_game_section, GameSection::PlayerCards);
    app.handle_error(GameErrors::InvalidActionError(InvalidActionError {
        action_attempted: String::from("too bold"),
    }));
    assert_eq!(app.game_nav_data.error_message.as_deref(), Some("too bold"));
    assert_eq!(app.game_nav_data.current_game_section, GameSection::PlayerCards);
    app.handle_error(GameErrors::OutOfCardsError(OutOfCardsError));
    assert_eq!(
        app.game_nav_data.error_message.as_deref(),
        Some("A known error occured. But we can't tell you what it is yet. Sorry :(")
    );
    assert_eq!(app.game_nav_data.current_game_section, GameSection::ErrorPopup);
}

#[test]
fn refused_play_opens_the_error_popup() {
    let mut app = playing();
    let copper = app
        .game
        .get_hand()
        .iter()
        .position(|card| card.get_name().as_str() == "Copper")
        .unwrap();
    app.play_as_player(copper as u8);
    assert_eq!(
        app.game_nav_data.error_message.as_deref(),
        Some("You cannot play a that card at this time.")
    );
    assert_eq!(app.game_nav_data.current_game_section, GameSection::ErrorPopup);
    assert_eq!(app.game.get_hand().len(), 5);
}

#[test]
fn accepted_play_leaves_the_popup_closed() {
    let mut app = playing();
    app.game.advance_ui_phase();
    let copper = app
        .game
        .get_hand()
        .iter()
        .position(|card| card.get_name().as_str() == "Copper")
        .unwrap();
    app.play_as_player(copper as u8);
    assert!(app.game_nav_data.error_message.is_none());
    assert_eq!(app.game_nav_data.current_game_section, GameSection::PlayerCards);
    assert_eq!(app.game.get_hand().len(), 4);
    assert_eq!(app.game.get_buying_power(), 1);
}

#[test]
fn upper_button_ends_the_action_phase_then_plays_the_treasures() {
    let mut app = playing();
    app.handle_player_button_press();
    assert_eq!(app.game.get_phase(), PlayerPhases::Buy);
    assert_eq!(app.game.get_hand().len(), 5);
    let coppers =
        app.game.get_hand().iter().filter(|card| card.get_name().as_str() == "Copper").count();
    app.handle_player_button_press();
    assert_eq!(app.game.get_phase(), PlayerPhases::Buy);
    assert_eq!(app.game.get_buying_power() as usize, coppers);
    app.game.end_turn();
    app.handle_player_button_press();
    assert_eq!(app.game.get_phase(), PlayerPhases::Idle);
    assert!(app.end_data.is_none());
}

#[test]
fn unknown_button_does_nothing() {
    let mut app = playing();
    app.game_nav_data.button_selected = 2;
    app.handle_player_button_press();
    assert_eq!(app.game.get_phase(), PlayerPhases::Action);
    assert_eq!(app.game.get_logs().len(), 1);
}

#[test]
fn results_are_shown_once_the_scores_are_there() {
    let mut app = playing();
    app.show_results();
    assert_eq!(app.current_screen, CurrentScreen::Playing);
    app.end_data = Some(vec![(String::from("Player "), 3), (String::from("CPU "), 9)]);
    app.show_results();
    assert_eq!(app.current_screen, CurrentScreen::Results);
}

#[test]
fn released_keys_are_ignored() {
    let mut app = App::new();
    let key = KeyPress { code: Key::Enter, control: false, release: true };
    assert!(accepts_key_event(&app, &key));
    assert!(!handle_key_event(&mut app, key));
    assert_eq!(app.current_screen, CurrentScreen::Welcome);
}

#[test]
fn control_c_ends_the_application_and_plain_c_does_not() {
    let mut app = App::new();
    assert!(handle_key_event(&mut app, KeyPress { code: Key::Char('c'), control: true, release: false }));
    assert!(!handle_key_event(&mut app, press(Key::Char('c'))));
    assert_eq!(app.current_screen, CurrentScreen::Welcome);
}

#[test]
fn welcome_screen_starts_the_game_or_asks_to_exit() {
    let mut app = App::new();
    assert!(!send(&mut app, Key::Down));
    assert_eq!(app.welcome_data.selected_button, WelcomeButton::Exit);
    assert!(!send(&mut app, Key::Up));
    assert_eq!(app.welcome_data.selected_button, WelcomeButton::Play);
    assert!(!send(&mut app, Key::Left));
    assert_eq!(app.current_screen, CurrentScreen::Welcome);
    assert!(!send(&mut app, Key::Enter));
    assert_eq!(app.current_screen, CurrentScreen::Playing);
    let mut other = App::new();
    send(&mut other, Key::Down);
    assert!(!send(&mut other, Key::Enter));
    assert_eq!(other.current_screen, CurrentScreen::Exiting);
    assert_eq!(other.prev_screen, Some(CurrentScreen::Welcome));
}

#[test]
fn exit_dialogue_ends_the_application_or_goes_back() {
    let mut app = playing();
    assert!(!send(&mut app, Key::Char('q')));
    assert_eq!(app.current_screen, CurrentScreen::Exiting);
    assert_eq!(app.prev_screen, Some(CurrentScreen::Playing));
    assert!(!send(&mut app, Key::Enter));
    assert_eq!(app.current_screen, CurrentScreen::Exiting);
    assert!(!send(&mut app, Key::Char('n')));
    assert_eq!(app.current_screen, CurrentScreen::Playing);
    assert!(app.prev_screen.is_none());
    assert!(!send(&mut app, Key::Char('q')));
    assert!(send(&mut app, Key::Char('y')));
    let mut lost = playing();
    lost.current_screen = CurrentScreen::Exiting;
    assert!(!send(&mut lost, Key::Char('n')));
    assert_eq!(lost.current_screen, CurrentScreen::Welcome);
}

#[test]
fn any_key_on_the_results_screen_ends_the_application() {
    let mut app = playing();
    app.current_screen = CurrentScreen::Results;
    assert!(send(&mut app, Key::Other));
    assert!(send(&mut app, Key::Enter));
}

#[test]
fn cursor_moves_along_the_hand_and_off_its_ends() {
    let mut app = playing();
    for expected in 1..=4 {
        send(&mut app, Key::Right);
        assert_eq!(app.game_nav_data.card_selected, expected);
        assert_eq!(app.game_nav_data.current_game_section, GameSection::PlayerCards);
    }
    send(&mut app, Key::Right);
    assert_eq!(app.game_nav_data.card_selected, 4);
    assert_eq!(app.game_nav_data.current_game_section, GameSection::PlayerButtons);
    send(&mut app, Key::Left);
    assert_eq!(app.game_nav_data.current_game_section, GameSection::PlayerCards);
    assert_eq!(app.game_nav_data.card_selected, 4);
    send(&mut app, Key::Left);
    assert_eq!(app.game_nav_data.card_selected, 3);
    app.game_nav_data.card_selected = 0;
    send(&mut app, Key::Left);
    assert_eq!(app.game_nav_data.current_game_section, GameSection::PlayerButtons);
    assert_eq!(app.game_nav_data.card_selected, 4);
    send(&mut app, Key::Right);
    assert_eq!(app.game_nav_data.current_game_section, GameSection::PlayerCards);
    assert_eq!(app.game_nav_data.card_selected, 0);
    send(&mut app, Key::Up);
    assert_eq!(app.game_nav_data.current_game_section, GameSection::Kingdom);
    assert_eq!((app.game_nav_data.kingdom_row, app.game_nav_data.kingdom_column), (0, 0));
}

#[test]
fn enter_on_the_hand_plays_the_card_and_moves_to_a_neighbour() {
    let mut app = playing();
    app.game.advance_ui_phase();
    let copper = app
        .game
        .get_hand()
        .iter()
        .position(|card| card.get_name().as_str() == "Copper")
        .unwrap();
    app.game_nav_data.card_selected = copper as u8;
    handle_playercards_nav(&mut app, Key::Enter);
    assert_eq!(app.game.get_hand().len(), 4);
    assert_eq!(app.game.get_buying_power(), 1);
    let expected = if copper == 0 { 1 } else { copper as u8 - 1 };
    assert_eq!(app.game_nav_data.card_selected, expected);
    assert_eq!(app.game_nav_data.current_game_section, GameSection::PlayerCards);
}

#[test]
fn enter_on_an_estate_opens_the_error_popup_and_enter_closes_it() {
    let mut app = playing();
    let estate = app.game.get_hand().iter().position(|card| card.get_name().as_str() == "Estate");
    let Some(estate) = estate else { return };
    app.game_nav_data.card_selected = estate as u8;
    send(&mut app, Key::Enter);
    assert_eq!(app.game_nav_data.current_game_section, GameSection::ErrorPopup);
    assert_eq!(
        app.game_nav_data.error_message.as_deref(),
        Some("You cannot play a that card at this time.")
    );
    send(&mut app, Key::Left);
    assert_eq!(app.game_nav_data.current_game_section, GameSection::ErrorPopup);
    send(&mut app, Key::Enter);
    assert_eq!(app.game_nav_data.current_game_section, GameSection::PlayerCards);
    assert_eq!(app.game_nav_data.card_selected, 0);
}

#[test]
fn question_mark_describes_the_card_and_any_key_closes_the_popup() {
    let mut app = playing();
    app.game_nav_data.card_selected = 2;
    let expected = app.game.get_hand()[2].get_description().clone();
    send(&mut app, Key::Char('?'));
    assert_eq!(app.game_nav_data.current_game_section, GameSection::DescriptionPopup);
    assert_eq!(app.game_nav_data.prev_game_section, Some(GameSection::PlayerCards));
    assert_eq!(app.game_nav_data.card_describe, expected);
    send(&mut app, Key::Other);
    assert_eq!(app.game_nav_data.current_game_section, GameSection::PlayerCards);
}

#[test]
fn keys_that_would_fail_are_not_accepted() {
    let mut app = playing();
    app.game_nav_data.card_selected = 5;
    assert!(!accepts_key_event(&app, &press(Key::Enter)));
    assert!(!accepts_key_event(&app, &press(Key::Char('?'))));
    assert!(accepts_key_event(&app, &press(Key::Char('x'))));
    app.game_nav_data.card_selected = 254;
    assert!(!accepts_key_event(&app, &press(Key::Right)));
    app.game_nav_data.card_selected = 253;
    assert!(accepts_key_event(&app, &press(Key::Right)));
    app.game_nav_data.current_game_section = GameSection::Kingdom;
    app.game_nav_data.kingdom_row = 255;
    assert!(!accepts_key_event(&app, &press(Key::Down)));
    assert!(accepts_key_event(&app, &press(Key::Up)));
    app.game_nav_data.kingdom_column = 255;
    assert!(!accepts_key_event(&app, &press(Key::Right)));
    assert!(accepts_key_event(&app, &press(Key::Left)));
    app.game_nav_data.current_game_section = GameSection::DescriptionPopup;
    app.game_nav_data.prev_game_section = None;
    assert!(!accepts_key_event(&app, &press(Key::Enter)));
    assert!(accepts_key_event(&app, &press(Key::Char('q'))));
    app.game_nav_data.current_game_section = GameSection::PlayerButtons;
    app.game.get_player_mut_character().hand.clear();
    assert!(accepts_key_event(&app, &press(Key::Left)));
    app.game_nav_data.current_game_section = GameSection::PlayerCards;
    app.game_nav_data.card_selected = 0;
    assert!(!accepts_key_event(&app, &press(Key::Left)));
}

#[test]
fn cursor_moves_among_the_piles() {
    let mut app = playing();
    app.game_nav_data.current_game_section = GameSection::Kingdom;
    let at = |app: &App| (app.game_nav_data.kingdom_row, app.game_nav_data.kingdom_column);
    send(&mut app, Key::Right);
    send(&mut app, Key::Right);
    assert_eq!(at(&app), (0, 2));
    send(&mut app, Key::Right);
    assert_eq!(at(&app), (0, 0));
    send(&mut app, Key::Left);
    assert_eq!(at(&app), (0, 2));
    send(&mut app, Key::Down);
    assert_eq!(at(&app), (1, 2));
    send(&mut app, Key::Down);
    assert_eq!(at(&app), (2, 2));
    send(&mut app, Key::Right);
    send(&mut app, Key::Right);
    assert_eq!(at(&app), (2, 4));
    send(&mut app, Key::Right);
    assert_eq!(at(&app), (2, 0));
    send(&mut app, Key::Left);
    assert_eq!(at(&app), (2, 4));
    send(&mut app, Key::Up);
    assert_eq!(at(&app), (1, 2));
    send(&mut app, Key::Down);
    send(&mut app, Key::Right);
    assert_eq!(at(&app), (2, 3));
    send(&mut app, Key::Down);
    assert_eq!(at(&app), (3, 0));
    send(&mut app, Key::Left);
    assert_eq!(at(&app), (3, 4));
    send(&mut app, Key::Right);
    assert_eq!(at(&app), (3, 0));
    send(&mut app, Key::Up);
    assert_eq!(at(&app), (2, 0));
    send(&mut app, Key::Down);
    send(&mut app, Key::Down);
    assert_eq!(app.game_nav_data.current_game_section, GameSection::PlayerButtons);
    app.game_nav_data.current_game_section = GameSection::Kingdom;
    app.game_nav_data.kingdom_row = 0;
    send(&mut app, Key::Up);
    assert_eq!(app.game_nav_data.current_game_section, GameSection::PlayerButtons);
}

#[test]
fn enter_among_the_piles_buys_the_card_under_the_cursor() {
    let mut app = playing();
    app.game_nav_data.current_game_section = GameSection::Kingdom;
    handle_kingdom_nav(&mut app, Key::Enter);
    assert!(app.game_nav_data.error_message.is_none());
    assert_eq!(app.game.get_pile_data().treasures[0].1, 45);
    assert_eq!(app.game.get_buys(), 0);
    handle_kingdom_nav(&mut app, Key::Enter);
    assert_eq!(
        app.game_nav_data.error_message.as_deref(),
        Some("You are out of buys, or out of money. Wait until next turn!")
    );
    assert_eq!(app.game_nav_data.current_game_section, GameSection::Kingdom);
    assert_eq!(app.game.get_pile_data().treasures[0].1, 45);
}

#[test]
fn enter_on_a_place_without_a_pile_names_the_index() {
    let mut app = playing();
    app.game_nav_data.current_game_section = GameSection::Kingdom;
    app.game_nav_data.kingdom_row = 1;
    app.game_nav_data.kingdom_column = 4;
    handle_kingdom_nav(&mut app, Key::Enter);
    assert_eq!(app.game_nav_data.error_message.as_deref(), Some("Cannot find card at index: 4"));
    app.game_nav_data.kingdom_row = 3;
    app.game_nav_data.kingdom_column = 11;
    handle_kingdom_nav(&mut app, Key::Enter);
    assert_eq!(app.game_nav_data.error_message.as_deref(), Some("Cannot find card at index: 6"));
}

#[test]
fn question_mark_among_the_piles_describes_the_pile() {
    let mut app = playing();
    app.game_nav_data.current_game_section = GameSection::Kingdom;
    app.game_nav_data.kingdom_row = 2;
    app.game_nav_data.kingdom_column = 3;
    send(&mut app, Key::Char('?'));
    assert_eq!(app.game_nav_data.current_game_section, GameSection::DescriptionPopup);
    assert_eq!(app.game_nav_data.prev_game_section, Some(GameSection::Kingdom));
    assert!(app.game_nav_data.card_describe.contains("Smithy"));
    send(&mut app, Key::Enter);
    assert_eq!(app.game_nav_data.current_game_section, GameSection::Kingdom);
    app.game_nav_data.kingdom_row = 0;
    send(&mut app, Key::Char('?'));
    assert_eq!(app.game_nav_data.error_message.as_deref(), Some("Cannot find card at index: 3"));
    assert_eq!(app.game_nav_data.current_game_section, GameSection::DescriptionPopup);
}

#[test]
fn player_buttons_move_the_cursor_and_press() {
    let mut app = playing();
    app.game_nav_data.current_game_section = GameSection::PlayerButtons;
    handle_player_buttons(&mut app, Key::Down);
    assert_eq!(app.game_nav_data.button_selected, 1);
    handle_player_buttons(&mut app, Key::Up);
    assert_eq!(app.game_nav_data.button_selected, 0);
    assert_eq!(app.game_nav_data.current_game_section, GameSection::PlayerButtons);
    handle_player_buttons(&mut app, Key::Enter);
    assert_eq!(app.game.get_phase(), PlayerPhases::Buy);
    handle_player_buttons(&mut app, Key::Down);
    handle_player_buttons(&mut app, Key::Enter);
    assert_eq!(app.game.get_phase(), PlayerPhases::Action);
    assert!(app.game.get_logs().len() <= 2);
    handle_player_buttons(&mut app, Key::Up);
    handle_player_buttons(&mut app, Key::Up);
    assert_eq!(app.game_nav_data.current_game_section, GameSection::Kingdom);
    app.game_nav_data.current_game_section = GameSection::PlayerButtons;
    app.game.get_player_mut_character().hand.clear();
    handle_player_buttons(&mut app, Key::Right);
    assert_eq!(app.game_nav_data.current_game_section, GameSection::PlayerButtons);
    handle_player_buttons(&mut app, Key::Left);
    assert_eq!(app.game_nav_data.current_game_section, GameSection::PlayerButtons);
}
