//! The state of the application around a session: which screen is shown,
//! where the cursor stands, what the last error said, and the session
//! itself.

use vstd::prelude::*;
use vstd::string::StringExecFns;
use crate::game::game_errors::{decimal_string, decimal_text, GameErrors};
use crate::game::game_manager::{scores_view, GameManager, GameView, SESSION_CARDS};
use crate::player::phases::PlayerPhases;
use crate::player::player::PlayerUIInterface;

verus! {

/// The screen that is shown.
#[derive(Clone, Copy, PartialEq, Eq, Debug, Structural)]
pub enum CurrentScreen {
    Welcome,
    Playing,
    Exiting,
    Results,
}

/// The buttons of the welcome screen.
#[derive(Clone, Copy, PartialEq, Eq, Debug, Structural)]
pub enum WelcomeButton {
    Play,
    Exit,
}

/// The part of the playing screen that the cursor is in.
#[derive(Clone, Copy, PartialEq, Eq, Debug, Structural)]
pub enum GameSection {
    PlayerCards,
    PlayerButtons,
    Kingdom,
    SelectPopup,
    ErrorPopup,
    DescriptionPopup,
}

/// Where the cursor stands on the playing screen, and the texts of the
/// popups.
pub struct GameNavData {
    /// The section that the cursor is in.
    pub current_game_section: GameSection,
    /// The section to go back to when a popup closes.
    pub prev_game_section: Option<GameSection>,
    /// The selected card of the hand.
    pub card_selected: u8,
    /// The selected button of the player: 0 ends the phase or plays the
    /// treasures, 1 ends the turn.
    pub button_selected: u8,
    /// The selected row of piles.
    pub kingdom_row: u8,
    /// The selected pile of the row.
    pub kingdom_column: u8,
    /// The description that the description popup shows.
    pub card_describe: String,
    /// The message that the error popup shows.
    pub error_message: Option<String>,
    /// The message of the selection popup.
    pub selection_message: Option<String>,
}

/// What the navigation data say, free of how the texts are stored.
pub struct NavView {
    pub current_game_section: GameSection,
    pub prev_game_section: Option<GameSection>,
    pub card_selected: u8,
    pub button_selected: u8,
    pub kingdom_row: u8,
    pub kingdom_column: u8,
    pub card_describe: Seq<char>,
    pub error_message: Option<Seq<char>>,
    pub selection_message: Option<Seq<char>>,
}

/// What an optional text says.
pub open spec fn text_view(text: Option<String>) -> Option<Seq<char>> {
    match text {
        Some(text) => Some(text@),
        None => None,
    }
}

impl View for GameNavData {
    type V = NavView;

    open spec fn view(&self) -> NavView {
        NavView {
            current_game_section: self.current_game_section,
            prev_game_section: self.prev_game_section,
            card_selected: self.card_selected,
            button_selected: self.button_selected,
            kingdom_row: self.kingdom_row,
            kingdom_column: self.kingdom_column,
            card_describe: self.card_describe@,
            error_message: text_view(self.error_message),
            selection_message: text_view(self.selection_message),
        }
    }
}

/// What the error popup says of a play that was refused for no known
/// reason.
pub const UNKNOWN_ERROR_MESSAGE: &'static str = "An unknown error occured.";

/// What the error popup says of an error that it has no words for.
pub const UNNAMED_ERROR_MESSAGE: &'static str =
    "A known error occured. But we can't tell you what it is yet. Sorry :(";

/// How the error popup introduces an index at which no pile lies.
pub const CARD_NOT_FOUND_PREFIX: &'static str = "Cannot find card at index: ";

impl NavView {
    /// The navigation data at the start: the cursor on the first card of
    /// the hand, no popup and no message.
    pub open spec fn fresh() -> NavView {
        NavView {
            current_game_section: GameSection::PlayerCards,
            prev_game_section: None,
            card_selected: 0,
            button_selected: 0,
            kingdom_row: 0,
            kingdom_column: 0,
            card_describe: Seq::empty(),
            error_message: None,
            selection_message: None,
        }
    }

    /// The navigation data once the error popup has been closed: the cursor
    /// is back in the section that was kept, or, where none was kept, on
    /// the first card of the hand.
    pub open spec fn restored(self) -> NavView {
        match self.prev_game_section {
            Some(section) => NavView { current_game_section: section, ..self },
            None => NavView {
                current_game_section: GameSection::PlayerCards,
                card_selected: 0,
                ..self
            },
        }
    }

    /// The navigation data with the other of the two player buttons
    /// selected.
    pub open spec fn toggled(self) -> NavView {
        if self.button_selected == 0 {
            NavView { button_selected: 1, ..self }
        } else if self.button_selected == 1 {
            NavView { button_selected: 0, ..self }
        } else {
            self
        }
    }

    /// The navigation data with the upper player button selected, if the
    /// lower one was.
    pub open spec fn gone_top(self) -> NavView {
        if self.button_selected == 1 {
            NavView { button_selected: 0, ..self }
        } else {
            self
        }
    }

    /// The navigation data once `error` has been taken down for the error
    /// popup. Only an error without words of its own opens the popup.
    pub open spec fn with_error(self, error: GameErrors) -> NavView {
        match error {
            GameErrors::CardNotFoundError(inner) => NavView {
                error_message: Some(CARD_NOT_FOUND_PREFIX@ + decimal_text(inner.index as nat)),
                ..self
            },
            GameErrors::InvalidActionError(inner) => NavView {
                error_message: Some(inner.action_attempted@),
                ..self
            },
            GameErrors::OutOfCardsError(_) => NavView {
                error_message: Some(UNNAMED_ERROR_MESSAGE@),
                current_game_section: GameSection::ErrorPopup,
                ..self
            },
        }
    }

    /// The navigation data with the error popup open on `message`.
    pub open spec fn with_popup(self, message: Seq<char>) -> NavView {
        NavView {
            error_message: Some(message),
            current_game_section: GameSection::ErrorPopup,
            ..self
        }
    }
}

impl GameNavData {
    /// Returns the navigation data of a fresh application.
    pub fn new() -> (nav: GameNavData)
        ensures
            nav@ == NavView::fresh(),
    {
        GameNavData {
            current_game_section: GameSection::PlayerCards,
            prev_game_section: None,
            card_selected: 0,
            button_selected: 0,
            kingdom_row: 0,
            kingdom_column: 0,
            error_message: None,
            selection_message: None,
            card_describe: String::new(),
        }
    }

    /// Closes the error popup: puts the cursor back in the section that was
    /// kept, or on the first card of the hand where none was kept.
    pub fn restore_before_error(&mut self)
        ensures
            final(self)@ == old(self)@.restored(),
    {
        match &self.prev_game_section {
            Some(x) => {
                self.current_game_section = *x;
            },
            None => {
                self.current_game_section = GameSection::PlayerCards;
                self.card_selected = 0;
            },
        }
    }

    /// Selects the other of the two player buttons.
    pub fn toggle_player_buttons(&mut self)
        ensures
            final(self)@ == old(self)@.toggled(),
    {
        match self.button_selected {
            0 => self.button_selected = 1,
            1 => self.button_selected = 0,
            _ => {},
        };
    }

    /// Tells whether the cursor stands on the upper player button, and
    /// moves it there from the lower one.
    pub fn at_or_go_top(&mut self) -> (at_top: bool)
        ensures
            at_top == (old(self)@.button_selected == 0),
            final(self)@ == old(self)@.gone_top(),
    {
        match self.button_selected {
            0 => {
                return true;
            },
            1 => {
                self.button_selected = 0;
                return false;
            },
            _ => {
                return false;
            },
        };
    }
}

/// The parts of the playing screen that are to be drawn anew.
pub struct UpdateItems {
    /// Nothing has been drawn yet.
    pub first_render: bool,
    /// The statistics of the player are to be drawn anew.
    pub update_player_stats: bool,
    /// The cards of the player are to be drawn anew.
    pub update_player_cards: bool,
    /// The log is to be drawn anew.
    pub update_log: bool,
}

impl UpdateItems {
    /// Returns the marks of a screen of which nothing has been drawn yet.
    pub fn new() -> (items: UpdateItems)
        ensures
            items == (UpdateItems {
                first_render: true,
                update_player_stats: false,
                update_player_cards: false,
                update_log: false,
            }),
    {
        UpdateItems {
            first_render: true,
            update_player_stats: false,
            update_player_cards: false,
            update_log: false,
        }
    }
}

/// The state of the welcome screen.
pub struct WelcomeScreen {
    pub selected_button: WelcomeButton,
}

impl WelcomeButton {
    /// The other button.
    pub open spec fn other(self) -> WelcomeButton {
        match self {
            WelcomeButton::Play => WelcomeButton::Exit,
            WelcomeButton::Exit => WelcomeButton::Play,
        }
    }
}

impl WelcomeScreen {
    /// Returns the welcome screen with the play button selected.
    pub fn new() -> (screen: WelcomeScreen)
        ensures
            screen.selected_button == WelcomeButton::Play,
    {
        WelcomeScreen { selected_button: WelcomeButton::Play }
    }

    /// Selects the other button.
    pub fn toggle_selected_button(&mut self)
        ensures
            final(self).selected_button == old(self).selected_button.other(),
    {
        match &self.selected_button {
            WelcomeButton::Play => self.selected_button = WelcomeButton::Exit,
            WelcomeButton::Exit => self.selected_button = WelcomeButton::Play,
        };
    }
}

/// Everything that the application holds.
pub struct App {
    pub game_nav_data: GameNavData,
    pub current_screen: CurrentScreen,
    pub welcome_data: WelcomeScreen,
    pub prev_screen: Option<CurrentScreen>,
    pub update_items: UpdateItems,
    pub game: GameManager,
    /// The final scores, once the game is over.
    pub end_data: Option<Vec<(String, i32)>>,
}

/// What the application holds, free of how it is stored.
pub struct AppView {
    pub game_nav_data: NavView,
    pub current_screen: CurrentScreen,
    pub welcome_data: WelcomeScreen,
    pub prev_screen: Option<CurrentScreen>,
    pub update_items: UpdateItems,
    pub game: GameView,
    pub end_data: Option<Seq<(Seq<char>, int)>>,
}

/// What optional final scores say.
pub open spec fn end_data_view(end_data: Option<Vec<(String, i32)>>) -> Option<
    Seq<(Seq<char>, int)>,
> {
    match end_data {
        Some(scores) => Some(scores_view(scores@)),
        None => None,
    }
}

impl View for App {
    type V = AppView;

    open spec fn view(&self) -> AppView {
        AppView {
            game_nav_data: self.game_nav_data@,
            current_screen: self.current_screen,
            welcome_data: self.welcome_data,
            prev_screen: self.prev_screen,
            update_items: self.update_items,
            game: self.game@,
            end_data: end_data_view(self.end_data),
        }
    }
}

impl AppView {
    /// Whether `after` is the application once the human player has ended
    /// the turn and the opponent has answered.
    ///
    /// The human player's turn ends first. If that leaves the game over,
    /// the final scores are kept and the opponent does not play. Else the
    /// opponent takes a turn, and the final scores are kept if the game is
    /// over then.
    pub open spec fn turn_handed_over(self, after: AppView) -> bool {
        &&& after == (AppView { game: after.game, end_data: after.end_data, ..self })
        &&& after.end_data == after.game.final_scores()
        &&& exists|ended: GameView|
            {
                &&& #[trigger] self.game.human_turn_ends(ended)
                &&& if ended.board.game_over() {
                    after.game == ended
                } else {
                    ended.opponent_turn(after.game)
                }
            }
    }
}

impl AppView {
    /// Whether `after` is the application once the card at `index` of the
    /// human player's hand has been played: the session has gone through
    /// the play, and a refusal has opened the error popup with what it says.
    pub open spec fn card_played(self, index: int, after: AppView) -> bool {
        &&& after == (AppView { game: after.game, game_nav_data: after.game_nav_data, ..self })
        &&& self.game.human_plays(index, after.game)
        &&& after.game_nav_data == match self.game.player1.play_refusal(index) {
            Some(attempted) => self.game_nav_data.with_popup(attempted),
            None => self.game_nav_data,
        }
    }

    /// Whether `after` is the application once the selected player button
    /// has been pressed.
    ///
    /// The upper button ends the action phase, or plays all treasures in
    /// the buy phase. The lower button ends the turn of the human player
    /// and lets the opponent answer. Any other selection does nothing.
    pub open spec fn button_pressed(self, after: AppView) -> bool {
        if self.game_nav_data.button_selected == 0 {
            &&& after == (AppView { game: after.game, ..self })
            &&& match self.game.player1.phase {
                PlayerPhases::Action => self.game.human_advances(after.game),
                PlayerPhases::Buy => after.game == self.game.with_human_treasures_played(),
                _ => after.game == self.game,
            }
        } else if self.game_nav_data.button_selected == 1 {
            self.turn_handed_over(after)
        } else {
            after == self
        }
    }
}

impl AppView {
    /// The application at its start around the session `game`: the welcome
    /// screen with the play button selected and no screen kept, the cursor
    /// of the playing screen on the first card of the hand, nothing drawn
    /// yet, and no scores.
    pub open spec fn fresh(game: GameView) -> AppView {
        AppView {
            game_nav_data: NavView::fresh(),
            current_screen: CurrentScreen::Welcome,
            welcome_data: WelcomeScreen { selected_button: WelcomeButton::Play },
            prev_screen: None,
            update_items: UpdateItems {
                first_render: true,
                update_player_stats: false,
                update_player_cards: false,
                update_log: false,
            },
            game,
            end_data: None,
        }
    }
}

impl App {
    /// Returns the application at its start: the welcome screen, a session
    /// that has just begun and is in order, and no scores.
    pub fn new() -> (app: App)
        ensures
            app@ == AppView::fresh(app@.game),
            app@.game.has_just_begun(),
            app@.game.card_count() == SESSION_CARDS,
            app.game.ready(),
    {
        App {
            game_nav_data: GameNavData::new(),
            current_screen: CurrentScreen::Welcome,
            welcome_data: WelcomeScreen::new(),
            prev_screen: None,
            update_items: UpdateItems::new(),
            game: GameManager::new(),
            end_data: None,
        }
    }

    /// Selects the other button of the welcome screen.
    pub fn toggle_menu_button(&mut self)
        ensures
            final(self)@ == (AppView {
                welcome_data: WelcomeScreen {
                    selected_button: old(self)@.welcome_data.selected_button.other(),
                },
                ..old(self)@
            }),
    {
        self.welcome_data.toggle_selected_button();
    }

    /// Plays the card at `index` of the human player's hand, and opens the
    /// error popup with what the refusal says if the play is refused.
    pub fn play_as_player(&mut self, index: u8)
        requires
            old(self).game.ready(),
            old(self).game.can_play(index as int),
        ensures
            final(self).game.ready(),
            old(self)@.card_played(index as int, final(self)@),
    {
        let error = self.game.play_ui_card(index as usize);
        match error {
            Some(x) => match x {
                GameErrors::InvalidActionError(err) => {
                    self.game_nav_data.error_message = Some(err.action_attempted);
                    self.game_nav_data.current_game_section = GameSection::ErrorPopup;
                },
                _ => {
                    self.game_nav_data.error_message = Some(
                        String::from_str(UNKNOWN_ERROR_MESSAGE),
                    );
                    self.game_nav_data.current_game_section = GameSection::ErrorPopup;
                },
            },
            _ => {},
        }
    }

    /// Takes `error` down for the error popup: an index without a pile with
    /// the index, a refused command with what was tried, and any other
    /// error with a general message, which also opens the popup.
    pub fn handle_error(&mut self, error: GameErrors)
        ensures
            final(self)@ == (AppView {
                game_nav_data: old(self)@.game_nav_data.with_error(error),
                ..old(self)@
            }),
    {
        match error {
            GameErrors::CardNotFoundError(err) => {
                self.game_nav_data.error_message = Some(
                    String::from_str(CARD_NOT_FOUND_PREFIX).concat(
                        decimal_string(err.index).as_str(),
                    ),
                );
            },
            GameErrors::InvalidActionError(err) => {
                self.game_nav_data.error_message = Some(err.action_attempted);
            },
            _ => {
                self.game_nav_data.error_message = Some(String::from_str(UNNAMED_ERROR_MESSAGE));
                self.game_nav_data.current_game_section = GameSection::ErrorPopup;
            },
        }
    }

    /// Shows the results screen once the final scores are there; without
    /// them nothing changes.
    pub fn show_results(&mut self)
        ensures
            final(self)@ == if old(self)@.end_data is Some {
                AppView { current_screen: CurrentScreen::Results, ..old(self)@ }
            } else {
                old(self)@
            },
    {
        if self.end_data.is_some() {
            self.current_screen = CurrentScreen::Results;
        }
    }

    /// Whether the selected player button may be pressed: the session is in
    /// order, and where the press plays the treasures, the buying power can
    /// take them.
    pub open spec fn can_press_player_button(&self) -> bool {
        &&& self.game.ready()
        &&& self@.game_nav_data.button_selected == 0 && self@.game.player1.phase
            == PlayerPhases::Buy ==> self.game.can_play_all_treasures()
    }

    /// Presses the selected player button.
    ///
    /// The upper button ends the action phase, or plays all treasures in
    /// the buy phase. The lower button ends the turn of the human player
    /// and lets the opponent answer, unless the game is over by then; the
    /// final scores are kept as soon as the game is over.
    pub fn handle_player_button_press(&mut self)
        requires
            old(self).can_press_player_button(),
        ensures
            final(self).game.ready(),
            final(self)@.game.card_count() == old(self)@.game.card_count(),
            old(self)@.button_pressed(final(self)@),
    {
        match self.game_nav_data.button_selected {
            0 => {
                match self.game.get_phase() {
                    PlayerPhases::Action => {
                        self.game.advance_ui_phase();
                    },
                    PlayerPhases::Buy => {
                        self.game.play_all_treasures_ui();
                    },
                    _ => {},
                }
            },
            1 => {
                self.game.end_turn();
                self.end_data = self.game.check_ending();
                if self.end_data.is_some() {
                    return ;
                }
                self.game.player2_basic_ai();
                self.end_data = self.game.check_ending();
            },
            _ => {},
        };
    }
}

} // verus!
