//! What the keys do: how a key press moves the cursor, opens and closes
//! popups, and gives the commands of the human player to the session.

use vstd::prelude::*;
use crate::app::{
    App,
    AppView,
    CurrentScreen,
    GameSection,
    NavView,
    WelcomeButton,
    WelcomeScreen,
    CARD_NOT_FOUND_PREFIX,
    UNNAMED_ERROR_MESSAGE,
};
use crate::card_manager::card::Card;
use crate::game::board::CardSet;
use crate::game::game_errors::decimal_text;
use crate::player::phases::PlayerPhases;
use crate::player::player::{BuyRefusal, PlayerUIInterface, CANNOT_BUY_MESSAGE};

verus! {

/// A key of the keyboard, as far as the application tells keys apart.
#[derive(Clone, Copy, PartialEq, Eq, Debug)]
pub enum Key {
    Up,
    Down,
    Left,
    Right,
    Enter,
    Char(char),
    Other,
}

/// One event of the keyboard.
#[derive(Clone, Copy, Debug)]
pub struct KeyPress {
    /// The key.
    pub code: Key,
    /// Whether the control key, and no other modifier, is held.
    pub control: bool,
    /// Whether the key was released, not pressed.
    pub release: bool,
}

/// The row of the treasure piles on the playing screen.
pub const TREASURE_ROW: u8 = 0;

/// The row of the victory piles on the playing screen.
pub const VICTORY_ROW: u8 = 1;

/// The last row of piles on the playing screen.
pub const LAST_ROW: u8 = 3;

/// The last place in a row of three piles.
pub const LAST_OF_THREE: u8 = 2;

/// The last place in a row of five piles.
pub const LAST_OF_FIVE: u8 = 4;

impl NavView {
    /// The navigation data with the cursor on the first pile of the first
    /// row.
    pub open spec fn in_kingdom(self) -> NavView {
        NavView {
            current_game_section: GameSection::Kingdom,
            kingdom_column: 0,
            kingdom_row: 0,
            ..self
        }
    }

    /// The last place of the row that the cursor is in: the rows of the
    /// treasure and the victory piles hold three piles, the others five.
    pub open spec fn last_column(self) -> u8 {
        if self.kingdom_row == TREASURE_ROW || self.kingdom_row == VICTORY_ROW {
            LAST_OF_THREE
        } else {
            LAST_OF_FIVE
        }
    }

    /// The cursor moved down among the piles: below the last row lie the
    /// player buttons, and the last row is entered at its first place.
    pub open spec fn kingdom_down(self) -> NavView {
        if self.kingdom_row == LAST_ROW {
            NavView { current_game_section: GameSection::PlayerButtons, ..self }
        } else if self.kingdom_row == 2 {
            NavView { kingdom_column: 0, kingdom_row: LAST_ROW, ..self }
        } else {
            NavView { kingdom_row: (self.kingdom_row + 1) as u8, ..self }
        }
    }

    /// The cursor moved right among the piles, from the last place of a row
    /// to its first.
    pub open spec fn kingdom_right(self) -> NavView {
        if self.kingdom_column == self.last_column() {
            NavView { kingdom_column: 0, ..self }
        } else {
            NavView { kingdom_column: (self.kingdom_column + 1) as u8, ..self }
        }
    }

    /// The cursor moved left among the piles, from the first place of a row
    /// to its last.
    pub open spec fn kingdom_left(self) -> NavView {
        if self.kingdom_column == 0 {
            NavView { kingdom_column: self.last_column(), ..self }
        } else {
            NavView { kingdom_column: (self.kingdom_column - 1) as u8, ..self }
        }
    }

    /// The cursor moved up among the piles: above the first row lie the
    /// player buttons, and the row of the victory piles is entered at its
    /// last place at most.
    pub open spec fn kingdom_up(self) -> NavView {
        if self.kingdom_row == 0 {
            NavView { current_game_section: GameSection::PlayerButtons, ..self }
        } else if self.kingdom_row == 2 {
            NavView {
                kingdom_row: VICTORY_ROW,
                kingdom_column: if self.kingdom_column > LAST_OF_THREE {
                    LAST_OF_THREE
                } else {
                    self.kingdom_column
                },
                ..self
            }
        } else {
            NavView { kingdom_row: (self.kingdom_row - 1) as u8, ..self }
        }
    }

    /// The zone of the pile that the cursor stands on.
    pub open spec fn selected_zone(self) -> CardSet {
        if self.kingdom_row == TREASURE_ROW {
            CardSet::Treasures
        } else if self.kingdom_row == VICTORY_ROW {
            CardSet::Victories
        } else {
            CardSet::Kingdoms
        }
    }

    /// The index in its zone of the pile that the cursor stands on.
    pub open spec fn selected_index(self) -> usize {
        if self.kingdom_row != TREASURE_ROW && self.kingdom_row != VICTORY_ROW
            && self.kingdom_column > 5 {
            (self.kingdom_column - 5) as usize
        } else {
            self.kingdom_column as usize
        }
    }

    /// The cursor moved after a play that left a hand of `hand_size` cards:
    /// to the player buttons when the hand is empty, else from the first
    /// card to the second and from any other card to the one before it.
    pub open spec fn after_play(self, hand_size: nat) -> NavView {
        if hand_size == 0 {
            NavView { current_game_section: GameSection::PlayerButtons, ..self }
        } else if self.card_selected == 0 {
            NavView { card_selected: 1, ..self }
        } else {
            NavView { card_selected: (self.card_selected - 1) as u8, ..self }
        }
    }

    /// The navigation data once the error popup has been given `message`
    /// without being opened.
    pub open spec fn with_message(self, message: Seq<char>) -> NavView {
        NavView { error_message: Some(message), ..self }
    }

    /// The navigation data after a buy from the pile at `index` that was
    /// refused for `refusal`, or was not refused.
    pub open spec fn after_buy(self, refusal: Option<BuyRefusal>, index: usize) -> NavView {
        match refusal {
            None => self,
            Some(BuyRefusal::NoPile) => self.with_message(
                CARD_NOT_FOUND_PREFIX@ + decimal_text(index as nat),
            ),
            Some(BuyRefusal::CannotPay) => self.with_message(CANNOT_BUY_MESSAGE@),
            Some(BuyRefusal::SoldOut) => self.with_popup(UNNAMED_ERROR_MESSAGE@),
        }
    }

    /// The navigation data with the description popup open over the section
    /// that the cursor is in.
    pub open spec fn describing(self) -> NavView {
        NavView {
            prev_game_section: Some(self.current_game_section),
            current_game_section: GameSection::DescriptionPopup,
            ..self
        }
    }
}

impl AppView {
    /// The application with the navigation data replaced.
    pub open spec fn with_nav(self, nav: NavView) -> AppView {
        AppView { game_nav_data: nav, ..self }
    }

    /// Whether the cursor may be moved among the piles by `code`: moving
    /// down or right must not run the row or the place over what a byte
    /// holds.
    pub open spec fn accepts_kingdom_key(self, code: Key) -> bool {
        let nav = self.game_nav_data;
        match code {
            Key::Down => nav.kingdom_row < u8::MAX,
            Key::Right => nav.kingdom_column < u8::MAX,
            _ => true,
        }
    }

    /// Whether `after` is the application once `code` has been pressed with
    /// the cursor among the piles.
    ///
    /// The arrows move the cursor, Enter buys a card from the pile under the
    /// cursor for the human player and takes a refusal down for the error
    /// popup, and the question mark opens the description of the pile.
    pub open spec fn kingdom_key(self, code: Key, after: AppView) -> bool {
        let nav = self.game_nav_data;
        let zone = nav.selected_zone();
        let index = nav.selected_index();
        match code {
            Key::Down => after == self.with_nav(nav.kingdom_down()),
            Key::Right => after == self.with_nav(nav.kingdom_right()),
            Key::Left => after == self.with_nav(nav.kingdom_left()),
            Key::Up => after == self.with_nav(nav.kingdom_up()),
            Key::Enter => {
                let refusal = self.game.player1.buy_refusal(self.game.board, index as int, zone);
                &&& after == (AppView {
                    game: after.game,
                    game_nav_data: nav.after_buy(refusal, index),
                    ..self
                })
                &&& self.game.human_buys(index as int, zone, after.game)
            },
            Key::Char(c) => if c == '?' {
                if self.game.board.has_pile(zone, index as int) {
                    after == self.with_nav(
                        NavView {
                            card_describe: self.game.board.piles(
                                zone,
                            )[index as int].card_creator.card().description,
                            ..nav.describing()
                        },
                    )
                } else {
                    after == self.with_nav(
                        nav.describing().with_message(
                            CARD_NOT_FOUND_PREFIX@ + decimal_text(index as nat),
                        ),
                    )
                }
            } else {
                after == self
            },
            _ => after == self,
        }
    }

    /// Whether `code` may be pressed with the cursor on the hand.
    ///
    /// Moving right must not run the selection over what a byte holds, and
    /// moving left from the first card needs a hand whose size, cut to a
    /// byte, is not zero. Enter needs a card under the cursor that the
    /// player's resources can take, and the question mark a card under the
    /// cursor.
    pub open spec fn accepts_hand_key(self, code: Key) -> bool {
        let nav = self.game_nav_data;
        let hand = self.game.player1.hand;
        match code {
            Key::Right => nav.card_selected + 2 <= u8::MAX,
            Key::Left => nav.card_selected == 0 ==> (hand.len() as u8) != 0,
            Key::Enter => nav.card_selected < hand.len() && self.game.player1.can_hold_play(
                nav.card_selected as int,
            ),
            Key::Char(c) => c == '?' ==> nav.card_selected < hand.len(),
            _ => true,
        }
    }

    /// Whether `after` is the application once `code` has been pressed with
    /// the cursor on the hand.
    ///
    /// Up goes to the piles. Right and left move along the hand and leave
    /// it for the player buttons at its ends. Enter plays the card under
    /// the cursor, opens the error popup on a refusal, and moves the cursor
    /// to a neighbour, or to the player buttons when the hand is empty. The
    /// question mark opens the description of the card.
    pub open spec fn hand_key(self, code: Key, after: AppView) -> bool {
        let nav = self.game_nav_data;
        let hand = self.game.player1.hand;
        match code {
            Key::Up => after == self.with_nav(nav.in_kingdom()),
            Key::Right => if hand.len() < nav.card_selected + 2 {
                after == self.with_nav(
                    NavView { current_game_section: GameSection::PlayerButtons, ..nav },
                )
            } else {
                after == self.with_nav(
                    NavView { card_selected: (nav.card_selected + 1) as u8, ..nav },
                )
            },
            Key::Left => if nav.card_selected == 0 {
                after == self.with_nav(
                    NavView {
                        current_game_section: GameSection::PlayerButtons,
                        card_selected: ((hand.len() as u8) - 1) as u8,
                        ..nav
                    },
                )
            } else {
                after == self.with_nav(
                    NavView { card_selected: (nav.card_selected - 1) as u8, ..nav },
                )
            },
            Key::Enter => {
                exists|played: AppView|
                    {
                        &&& #[trigger] self.card_played(nav.card_selected as int, played)
                        &&& after == played.with_nav(played.game_nav_data.after_play(
                            played.game.player1.hand.len(),
                        ))
                    }
            },
            Key::Char(c) => if c == '?' {
                after == self.with_nav(
                    NavView {
                        card_describe: hand[nav.card_selected as int]@.description,
                        ..nav.describing()
                    },
                )
            } else {
                after == self
            },
            _ => after == self,
        }
    }

    /// Whether `code` may be pressed with the cursor on the player buttons.
    ///
    /// Moving left needs a hand whose size, cut to a byte, is not zero,
    /// unless the hand is empty. Enter needs that the selected button may be
    /// pressed: where it plays the treasures, the buying power can take them.
    pub open spec fn accepts_button_key(self, code: Key) -> bool {
        let nav = self.game_nav_data;
        let player = self.game.player1;
        match code {
            Key::Left => player.hand.len() > 0 ==> (player.hand.len() as u8) != 0,
            Key::Enter => nav.button_selected == 0 && player.phase == PlayerPhases::Buy
                ==> player.can_play_treasures(),
            _ => true,
        }
    }

    /// Whether `after` is the application once `code` has been pressed with
    /// the cursor on the player buttons.
    ///
    /// Right and left go to the first and the last card of a hand that is
    /// not empty, down selects the other button, up goes to the upper button
    /// or from there to the piles, and Enter presses the selected button.
    pub open spec fn button_key(self, code: Key, after: AppView) -> bool {
        let nav = self.game_nav_data;
        let hand = self.game.player1.hand;
        match code {
            Key::Right => if hand.len() > 0 {
                after == self.with_nav(
                    NavView {
                        current_game_section: GameSection::PlayerCards,
                        card_selected: 0,
                        ..nav
                    },
                )
            } else {
                after == self
            },
            Key::Left => if hand.len() > 0 {
                after == self.with_nav(
                    NavView {
                        current_game_section: GameSection::PlayerCards,
                        card_selected: ((hand.len() as u8) - 1) as u8,
                        ..nav
                    },
                )
            } else {
                after == self
            },
            Key::Down => after == self.with_nav(nav.toggled()),
            Key::Up => if nav.button_selected == 0 {
                after == self.with_nav(nav.in_kingdom())
            } else {
                after == self.with_nav(nav.gone_top())
            },
            Key::Enter => self.button_pressed(after),
            _ => after == self,
        }
    }
}

/// Handles a key that is pressed with the cursor on the hand.
pub fn handle_playercards_nav(app: &mut App, code: Key)
    requires
        old(app).game.ready(),
        old(app)@.accepts_hand_key(code),
    ensures
        final(app).game.ready(),
        old(app)@.hand_key(code, final(app)@),
{
    match code {
        Key::Up => {
            app.game_nav_data.current_game_section = GameSection::Kingdom;
            app.game_nav_data.kingdom_column = 0;
            app.game_nav_data.kingdom_row = 0;
        },
        Key::Right => {
            if app.game.get_hand().len() < (app.game_nav_data.card_selected + 2) as usize {
                app.game_nav_data.current_game_section = GameSection::PlayerButtons;
            } else {
                app.game_nav_data.card_selected += 1;
            }
        },
        Key::Left => {
            if app.game_nav_data.card_selected == 0 {
                app.game_nav_data.current_game_section = GameSection::PlayerButtons;
                app.game_nav_data.card_selected = app.game.get_hand().len() as u8 - 1;
            } else {
                app.game_nav_data.card_selected -= 1;
            }
        },
        Key::Enter => {
            app.play_as_player(app.game_nav_data.card_selected);
            if app.game.get_hand().len() == 0 {
                app.game_nav_data.current_game_section = GameSection::PlayerButtons;
            } else {
                if app.game_nav_data.card_selected == 0 {
                    app.game_nav_data.card_selected = app.game_nav_data.card_selected + 1;
                } else {
                    app.game_nav_data.card_selected = app.game_nav_data.card_selected - 1;
                }
            }
        },
        Key::Char(c) => {
            if c == '?' {
                app.game_nav_data.prev_game_section = Some(
                    app.game_nav_data.current_game_section,
                );
                app.game_nav_data.current_game_section = GameSection::DescriptionPopup;
                let description = app.game.get_hand()[app.game_nav_data.card_selected as usize]
                    .get_description().clone();
                app.game_nav_data.card_describe = description;
            }
        },
        _ => {},
    }
}

/// Buys a card for the human player from the pile under the cursor, and takes
/// a refusal down for the error popup.
fn buy_selected_pile(app: &mut App)
    requires
        old(app).game.ready(),
    ensures
        final(app).game.ready(),
        old(app)@.kingdom_key(Key::Enter, final(app)@),
{
    let error;
    match app.game_nav_data.kingdom_row {
        0 => {
            error = app.game.buy_ui_card(
                app.game_nav_data.kingdom_column as usize,
                CardSet::Treasures,
            );
        },
        1 => {
            error = app.game.buy_ui_card(
                app.game_nav_data.kingdom_column as usize,
                CardSet::Victories,
            );
        },
        _ => {
            if app.game_nav_data.kingdom_column > 5 {
                error = app.game.buy_ui_card(
                    (app.game_nav_data.kingdom_column - 5) as usize,
                    CardSet::Kingdoms,
                );
            } else {
                error = app.game.buy_ui_card(
                    app.game_nav_data.kingdom_column as usize,
                    CardSet::Kingdoms,
                );
            }
        },
    }
    match error {
        Some(e) => {
            app.handle_error(e);
        },
        None => {},
    }
}

/// Opens the description popup on the pile under the cursor; where no pile
/// lies there, the error popup is given the index.
fn describe_selected_pile(app: &mut App)
    requires
        old(app).game.ready(),
    ensures
        final(app).game.ready(),
        old(app)@.kingdom_key(Key::Char('?'), final(app)@),
{
    app.game_nav_data.prev_game_section = Some(app.game_nav_data.current_game_section);
    app.game_nav_data.current_game_section = GameSection::DescriptionPopup;
    let error;
    match app.game_nav_data.kingdom_row {
        0 => {
            error = app.game.get_pile_desc(
                app.game_nav_data.kingdom_column as usize,
                CardSet::Treasures,
            );
        },
        1 => {
            error = app.game.get_pile_desc(
                app.game_nav_data.kingdom_column as usize,
                CardSet::Victories,
            );
        },
        _ => {
            if app.game_nav_data.kingdom_column > 5 {
                error = app.game.get_pile_desc(
                    (app.game_nav_data.kingdom_column - 5) as usize,
                    CardSet::Kingdoms,
                );
            } else {
                error = app.game.get_pile_desc(
                    app.game_nav_data.kingdom_column as usize,
                    CardSet::Kingdoms,
                );
            }
        },
    }
    match error {
        Ok(desc) => {
            app.game_nav_data.card_describe = desc;
        },
        Err(x) => {
            app.handle_error(x);
        },
    }
}

/// Handles a key that is pressed with the cursor among the piles.
pub fn handle_kingdom_nav(app: &mut App, code: Key)
    requires
        old(app).game.ready(),
        old(app)@.accepts_kingdom_key(code),
    ensures
        final(app).game.ready(),
        old(app)@.kingdom_key(code, final(app)@),
{
    match code {
        Key::Down => {
            if app.game_nav_data.kingdom_row == 3 {
                app.game_nav_data.current_game_section = GameSection::PlayerButtons;
            } else if app.game_nav_data.kingdom_row == 2 {
                if app.game_nav_data.kingdom_column != 0 {
                    app.game_nav_data.kingdom_column = 0
                }
                app.game_nav_data.kingdom_row += 1;
            } else {
                app.game_nav_data.kingdom_row += 1;
            }
        },
        Key::Right => {
            if app.game_nav_data.kingdom_row == 0 || app.game_nav_data.kingdom_row == 1 {
                if app.game_nav_data.kingdom_column == 2 {
                    app.game_nav_data.kingdom_column = 0;
                } else {
                    app.game_nav_data.kingdom_column += 1;
                }
            } else if app.game_nav_data.kingdom_row == 2 {
                if app.game_nav_data.kingdom_column == 4 {
                    app.game_nav_data.kingdom_column = 0;
                } else {
                    app.game_nav_data.kingdom_column += 1;
                }
            } else {
                if app.game_nav_data.kingdom_column == 4 {
                    app.game_nav_data.kingdom_column = 0;
                } else {
                    app.game_nav_data.kingdom_column += 1;
                }
            }
        },
        Key::Left => {
            if app.game_nav_data.kingdom_row == 0 || app.game_nav_data.kingdom_row == 1 {
                if app.game_nav_data.kingdom_column == 0 {
                    app.game_nav_data.kingdom_column = 2;
                } else {
                    app.game_nav_data.kingdom_column -= 1;
                }
            } else if app.game_nav_data.kingdom_row == 2 {
                if app.game_nav_data.kingdom_column == 0 {
                    app.game_nav_data.kingdom_column = 4;
                } else {
                    app.game_nav_data.kingdom_column -= 1;
                }
            } else {
                if app.game_nav_data.kingdom_column == 0 {
                    app.game_nav_data.kingdom_column = 4;
                } else {
                    app.game_nav_data.kingdom_column -= 1;
                }
            }
        },
        Key::Up => {
            if app.game_nav_data.kingdom_row == 0 {
                app.game_nav_data.current_game_section = GameSection::PlayerButtons;
            } else if app.game_nav_data.kingdom_row == 2 {
                app.game_nav_data.kingdom_row -= 1;
                if app.game_nav_data.kingdom_column > 2 {
                    app.game_nav_data.kingdom_column = 2;
                }
            } else {
                app.game_nav_data.kingdom_row -= 1;
            }
        },
        Key::Enter => {
            buy_selected_pile(app);
        },
        Key::Char(c) => {
            if c == '?' {
                describe_selected_pile(app);
            }
        },
        _ => {},
    }
}

/// Handles a key that is pressed with the cursor on the player buttons.
pub fn handle_player_buttons(app: &mut App, code: Key)
    requires
        old(app).game.ready(),
        old(app)@.accepts_button_key(code),
    ensures
        final(app).game.ready(),
        old(app)@.button_key(code, final(app)@),
{
    match code {
        Key::Right => {
            if app.game.get_hand().len() > 0 {
                app.game_nav_data.current_game_section = GameSection::PlayerCards;
                app.game_nav_data.card_selected = 0;
            }
        },
        Key::Left => {
            if app.game.get_hand().len() > 0 {
                app.game_nav_data.current_game_section = GameSection::PlayerCards;
                app.game_nav_data.card_selected = app.game.get_hand().len() as u8 - 1;
            }
        },
        Key::Down => {
            app.game_nav_data.toggle_player_buttons();
        },
        Key::Up => {
            let m = app.game_nav_data.at_or_go_top();
            if m {
                app.game_nav_data.current_game_section = GameSection::Kingdom;
                app.game_nav_data.kingdom_column = 0;
                app.game_nav_data.kingdom_row = 0;
            }
        },
        Key::Enter => {
            app.handle_player_button_press();
        },
        _ => {},
    }
}

impl AppView {
    /// The application with the exit dialogue open over the screen that was
    /// shown.
    pub open spec fn exit_asked(self) -> AppView {
        AppView {
            prev_screen: Some(self.current_screen),
            current_screen: CurrentScreen::Exiting,
            ..self
        }
    }

    /// The application once `code` has been pressed on the welcome screen:
    /// up and down select the other button, and Enter starts the game or
    /// opens the exit dialogue.
    pub open spec fn welcome_key(self, code: Key) -> AppView {
        match code {
            Key::Up | Key::Down => AppView {
                welcome_data: WelcomeScreen {
                    selected_button: self.welcome_data.selected_button.other(),
                },
                ..self
            },
            Key::Enter => match self.welcome_data.selected_button {
                WelcomeButton::Play => AppView { current_screen: CurrentScreen::Playing, ..self },
                WelcomeButton::Exit => AppView {
                    prev_screen: Some(CurrentScreen::Welcome),
                    current_screen: CurrentScreen::Exiting,
                    ..self
                },
            },
            _ => self,
        }
    }

    /// The application once the exit dialogue has been answered with no:
    /// the screen that was kept is shown again, or the welcome screen where
    /// none was kept.
    pub open spec fn exit_declined(self) -> AppView {
        match self.prev_screen {
            Some(screen) => AppView { current_screen: screen, prev_screen: None, ..self },
            None => AppView { current_screen: CurrentScreen::Welcome, ..self },
        }
    }

    /// Whether `code` may be pressed on the playing screen: the section
    /// that the cursor is in accepts it, and a description popup has a
    /// section to go back to.
    pub open spec fn accepts_playing_key(self, code: Key) -> bool {
        match self.game_nav_data.current_game_section {
            GameSection::PlayerCards => self.accepts_hand_key(code),
            GameSection::Kingdom => self.accepts_kingdom_key(code),
            GameSection::PlayerButtons => self.accepts_button_key(code),
            GameSection::DescriptionPopup => self.game_nav_data.prev_game_section is Some,
            _ => true,
        }
    }

    /// Whether `after` is the application once `code` has been pressed on
    /// the playing screen.
    ///
    /// The key goes to the section that the cursor is in. Enter closes the
    /// error popup, and any key closes the description popup.
    pub open spec fn playing_key(self, code: Key, after: AppView) -> bool {
        let nav = self.game_nav_data;
        match nav.current_game_section {
            GameSection::PlayerCards => self.hand_key(code, after),
            GameSection::Kingdom => self.kingdom_key(code, after),
            GameSection::PlayerButtons => self.button_key(code, after),
            GameSection::ErrorPopup => if code == Key::Enter {
                after == self.with_nav(nav.restored())
            } else {
                after == self
            },
            GameSection::DescriptionPopup => after == self.with_nav(
                NavView { current_game_section: nav.prev_game_section->Some_0, ..nav },
            ),
            GameSection::SelectPopup => after == self,
        }
    }

    /// The application that the screens see of a key that is pressed: the
    /// letter q opens the exit dialogue before anything else is done.
    pub open spec fn before_screens(self, key: KeyPress) -> AppView {
        if key.code == Key::Char('q') {
            self.exit_asked()
        } else {
            self
        }
    }

    /// Whether the event `key` may be handled.
    pub open spec fn accepts(self, key: KeyPress) -> bool {
        !key.release && !(key.code == Key::Char('c') && key.control) && self.before_screens(
            key,
        ).current_screen == CurrentScreen::Playing ==> self.before_screens(
            key,
        ).accepts_playing_key(key.code)
    }

    /// Whether `after` is the application once the event `key` has been
    /// handled, and `exit` tells whether the application is to end.
    ///
    /// A released key does nothing. The letter c with the control key ends
    /// the application. The letter q opens the exit dialogue. Any other key
    /// goes to the screen that is shown: on the results screen every key
    /// ends the application, and in the exit dialogue the letter y does.
    pub open spec fn key_event(self, key: KeyPress, after: AppView, exit: bool) -> bool {
        let seen = self.before_screens(key);
        if key.release {
            after == self && !exit
        } else if key.code == Key::Char('c') && key.control {
            after == self && exit
        } else {
            match seen.current_screen {
                CurrentScreen::Welcome => after == seen.welcome_key(key.code) && !exit,
                CurrentScreen::Results => after == seen && exit,
                CurrentScreen::Exiting => if key.code == Key::Char('y') {
                    after == seen && exit
                } else if key.code == Key::Char('n') {
                    after == seen.exit_declined() && !exit
                } else {
                    after == seen && !exit
                },
                CurrentScreen::Playing => seen.playing_key(key.code, after) && !exit,
            }
        }
    }
}

/// Tells whether the event `key` may be handled by `handle_key_event`.
pub fn accepts_key_event(app: &App, key: &KeyPress) -> (accepted: bool)
    ensures
        accepted == app@.accepts(*key),
{
    if key.release {
        return true;
    }
    let asks_exit = match key.code {
        Key::Char(c) => {
            if c == 'c' && key.control {
                return true;
            }
            c == 'q'
        },
        _ => false,
    };
    if asks_exit {
        return true;
    }
    match app.current_screen {
        CurrentScreen::Playing => {},
        _ => {
            return true;
        },
    }
    let nav = &app.game_nav_data;
    let hand_len: usize = app.game.get_hand().len();
    match nav.current_game_section {
        GameSection::PlayerCards => match key.code {
            Key::Right => nav.card_selected <= 253,
            Key::Left => nav.card_selected != 0 || hand_len as u8 != 0,
            Key::Enter => app.game.can_play_card(nav.card_selected as usize),
            Key::Char(c) => c != '?' || (nav.card_selected as usize) < hand_len,
            _ => true,
        },
        GameSection::Kingdom => match key.code {
            Key::Down => nav.kingdom_row < 255,
            Key::Right => nav.kingdom_column < 255,
            _ => true,
        },
        GameSection::PlayerButtons => match key.code {
            Key::Left => hand_len == 0 || hand_len as u8 != 0,
            Key::Enter => {
                if nav.button_selected == 0 && app.game.get_phase() == PlayerPhases::Buy {
                    app.game.can_play_treasures()
                } else {
                    true
                }
            },
            _ => true,
        },
        GameSection::DescriptionPopup => nav.prev_game_section.is_some(),
        _ => true,
    }
}

/// Handles one event of the keyboard, and tells whether the application is
/// to end.
pub fn handle_key_event(app: &mut App, key: KeyPress) -> (exit: bool)
    requires
        old(app).game.ready(),
        old(app)@.accepts(key),
    ensures
        final(app).game.ready(),
        old(app)@.key_event(key, final(app)@, exit),
{
    if key.release {
        return false;
    }
    match key.code {
        Key::Char(c) => {
            if c == 'c' {
                if key.control {
                    return true;
                }
            } else if c == 'q' {
                app.prev_screen = Some(app.current_screen);
                app.current_screen = CurrentScreen::Exiting;
            }
        },
        _ => {},
    }
    match app.current_screen {
        CurrentScreen::Welcome => match key.code {
            Key::Up => {
                app.toggle_menu_button();
            },
            Key::Down => {
                app.toggle_menu_button();
            },
            Key::Enter => match app.welcome_data.selected_button {
                WelcomeButton::Play => {
                    app.current_screen = CurrentScreen::Playing;
                },
                WelcomeButton::Exit => {
                    app.prev_screen = Some(CurrentScreen::Welcome);
                    app.current_screen = CurrentScreen::Exiting;
                },
            },
            _ => {},
        },
        CurrentScreen::Results => {
            return true;
        },
        CurrentScreen::Exiting => match key.code {
            Key::Char(c) => {
                if c == 'y' {
                    return true;
                } else if c == 'n' {
                    match app.prev_screen {
                        Some(x) => {
                            app.current_screen = x;
                            app.prev_screen = None;
                        },
                        None => {
                            app.current_screen = CurrentScreen::Welcome;
                        },
                    }
                }
            },
            _ => {},
        },
        CurrentScreen::Playing => {
            handle_playing_key(app, key.code);
        },
    }
    false
}

/// Handles a key that is pressed on the playing screen.
fn handle_playing_key(app: &mut App, code: Key)
    requires
        old(app).game.ready(),
        old(app)@.accepts_playing_key(code),
    ensures
        final(app).game.ready(),
        old(app)@.playing_key(code, final(app)@),
{
    match app.game_nav_data.current_game_section {
        GameSection::PlayerCards => handle_playercards_nav(app, code),
        GameSection::Kingdom => handle_kingdom_nav(app, code),
        GameSection::PlayerButtons => handle_player_buttons(app, code),
        GameSection::ErrorPopup => match code {
            Key::Enter => {
                app.game_nav_data.restore_before_error();
            },
            _ => {},
        },
        GameSection::DescriptionPopup => {
            app.game_nav_data.current_game_section = app.game_nav_data.prev_game_section.unwrap();
        },
        _ => {},
    }
}

} // verus!
