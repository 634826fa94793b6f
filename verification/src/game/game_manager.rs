//! The session: two players, the board they share and the log of what they
//! do.
//!
//! The session hands the commands of the human player on to the first
//! player, plays the turns of the second player by a fixed policy, and
//! tells when the game is over.

use vstd::prelude::*;
use vstd::string::StringExecFns;
use crate::card_manager::card::{CardProperties, CardView};
use crate::card_manager::card_builder::{
    gold_card,
    in_catalog,
    lemma_catalog_bounds,
    province_card,
    silver_card,
    CardCreator,
};
use crate::card_manager::card_properties::CardTypes;
use crate::card_manager::card_structures::Pile;
use crate::game::board::{stock, Board, BoardView, CardSet, PlayerInterface, PROVINCE_INDEX};
use crate::game::game_errors::GameErrors;
use crate::game::pile_builder::{
    build_default_player_deck,
    build_market_pile,
    build_moat_pile,
    build_smithy_pile,
    build_treasure_piles,
    build_victory_piles,
    build_village_pile,
    build_woodcutter_pile,
    default_deck,
    pile_is,
    views_of,
    STARTING_COPPERS,
};
use crate::game::player_middleware::{bought_message, LogView, PlayerMiddleware};
use crate::player::phases::PlayerPhases;
use crate::player::player::{
    is_played_treasure,
    lemma_advances_keeps_cards,
    lemma_board_after_draw,
    lemma_card_count,
    lemma_cleans_up_keeps_cards,
    lemma_draws,
    lemma_draws_from_deck,
    lemma_gains_one_card,
    lemma_plays_keeps_cards,
    lemma_treasures_played_keeps_cards,
    score_of,
    treasure_total,
    BuyRefusal,
    Player,
    PlayerUIInterface,
    PlayerView,
    CANNOT_BUY_MESSAGE,
    HAND_SIZE,
};

verus! {

/// A game between a human player and an opponent who follows a fixed
/// policy.
pub struct GameManager {
    player1: Player,
    player2: Player,
    board: Board,
    player_middleware: PlayerMiddleware,
}

/// What a session holds: the human player, the opponent, the board and the
/// log.
pub struct GameView {
    pub player1: PlayerView,
    pub player2: PlayerView,
    pub board: BoardView,
    pub log: LogView,
}

impl View for GameManager {
    type V = GameView;

    closed spec fn view(&self) -> GameView {
        GameView {
            player1: self.player1@,
            player2: self.player2@,
            board: self.board@,
            log: self.player_middleware@,
        }
    }
}

/// The number of cards in a session: the two starting decks and the stock
/// of the eleven piles.
pub const SESSION_CARDS: usize = 210;

/// The highest score that a card of the catalog adds.
pub const HIGHEST_SCORE: usize = 6;

/// The highest value that a treasure of the catalog grants.
pub const HIGHEST_TREASURE: usize = 3;

/// Whether every card that `player` holds is a card of the catalog.
pub open spec fn holds_catalog_cards(player: PlayerView) -> bool {
    forall|card: CardProperties| #[trigger] player.cards().count(card) > 0 ==> in_catalog(card@)
}

/// Whether `player` holds what a player starts a session with: a hand and a
/// deck of five cards each, which together are the cards of a starting deck,
/// nothing else, and the resources of a fresh turn.
pub open spec fn is_starting_player(player: PlayerView, name: Seq<char>, phase: PlayerPhases) -> bool {
    &&& player.name == name
    &&& player.phase == phase
    &&& player.buy_power == 0
    &&& player.actions_remaining == 1
    &&& player.buys == 1
    &&& player.discard.len() == 0
    &&& player.in_play.len() == 0
    &&& player.hand.len() == HAND_SIZE
    &&& player.deck.len() == HAND_SIZE
    &&& exists|dealt: Seq<CardProperties>|
        #[trigger] views_of(dealt) == default_deck() && (player.hand + player.deck).to_multiset()
            == dealt.to_multiset()
}

/// Whether `board` is the board that a session starts with.
pub open spec fn is_starting_board(board: BoardView) -> bool {
    &&& board.victory_cards.len() == 3
    &&& pile_is(board.victory_cards[0], "Estate Pile"@, 8, CardCreator::Estate)
    &&& pile_is(board.victory_cards[1], "Duchy Pile"@, 8, CardCreator::Duchy)
    &&& pile_is(board.victory_cards[2], "Province Pile"@, 8, CardCreator::Province)
    &&& board.treasure_cards.len() == 3
    &&& pile_is(board.treasure_cards[0], "Copper Pile"@, 46, CardCreator::Copper)
    &&& pile_is(board.treasure_cards[1], "Silver Pile"@, 40, CardCreator::Silver)
    &&& pile_is(board.treasure_cards[2], "Gold Pile"@, 30, CardCreator::Gold)
    &&& board.kingdom_set.len() == 5
    &&& pile_is(board.kingdom_set[0], "Moat Pile"@, 10, CardCreator::Moat)
    &&& pile_is(board.kingdom_set[1], "Woodcutter Pile"@, 10, CardCreator::Woodcutter)
    &&& pile_is(board.kingdom_set[2], "Village Pile"@, 10, CardCreator::Village)
    &&& pile_is(board.kingdom_set[3], "Smithy pile"@, 10, CardCreator::Smithy)
    &&& pile_is(board.kingdom_set[4], "Market Pile"@, 10, CardCreator::Market)
    &&& board.trash.len() == 0
}

/// Whether `pile` has the given name and constructor, whatever its stock.
pub open spec fn pile_holds(pile: Pile, name: Seq<char>, creator: CardCreator) -> bool {
    pile.pile_name@ == name && pile.card_creator == creator
}

/// Whether `board` has the piles of a session in their places, whatever is
/// left in them: the three victory piles, the three treasure piles and the
/// five kingdom piles, and an empty trash.
pub open spec fn has_session_layout(board: BoardView) -> bool {
    &&& board.victory_cards.len() == 3
    &&& pile_holds(board.victory_cards[0], "Estate Pile"@, CardCreator::Estate)
    &&& pile_holds(board.victory_cards[1], "Duchy Pile"@, CardCreator::Duchy)
    &&& pile_holds(board.victory_cards[2], "Province Pile"@, CardCreator::Province)
    &&& board.treasure_cards.len() == 3
    &&& pile_holds(board.treasure_cards[0], "Copper Pile"@, CardCreator::Copper)
    &&& pile_holds(board.treasure_cards[1], "Silver Pile"@, CardCreator::Silver)
    &&& pile_holds(board.treasure_cards[2], "Gold Pile"@, CardCreator::Gold)
    &&& board.kingdom_set.len() == 5
    &&& pile_holds(board.kingdom_set[0], "Moat Pile"@, CardCreator::Moat)
    &&& pile_holds(board.kingdom_set[1], "Woodcutter Pile"@, CardCreator::Woodcutter)
    &&& pile_holds(board.kingdom_set[2], "Village Pile"@, CardCreator::Village)
    &&& pile_holds(board.kingdom_set[3], "Smithy pile"@, CardCreator::Smithy)
    &&& pile_holds(board.kingdom_set[4], "Market Pile"@, CardCreator::Market)
    &&& board.trash.len() == 0
}

/// The name of the human player.
pub const PLAYER_NAME: &'static str = "Player";

/// The name of the opponent.
pub const OPPONENT_NAME: &'static str = "CPU";

impl GameView {
    /// Whether the session is one that has just begun: the board is laid
    /// out with its eleven piles, each player has been dealt a hand out of
    /// a shuffled starting deck, the human player called "Player" is in the
    /// action phase, the opponent called "CPU" waits, and the log holds its
    /// opening entry.
    pub open spec fn has_just_begun(self) -> bool {
        &&& is_starting_board(self.board)
        &&& is_starting_player(self.player1, PLAYER_NAME@, PlayerPhases::Action)
        &&& is_starting_player(self.player2, OPPONENT_NAME@, PlayerPhases::Idle)
        &&& self.log == LogView::fresh()
    }

    /// The number of cards in the session: those that the two players hold,
    /// those left in the piles and those in the trash.
    pub open spec fn card_count(self) -> nat {
        self.player1.card_count() + self.player2.card_count() + self.board.card_count()
    }

    /// Whether the opponent waits for a turn: in the idle phase, with a hand
    /// of at most five cards, no card in play and the resources of a fresh
    /// turn.
    pub open spec fn opponent_rests(self) -> bool {
        &&& self.player2.phase == PlayerPhases::Idle
        &&& self.player2.hand.len() <= HAND_SIZE
        &&& self.player2.in_play.len() == 0
        &&& self.player2.buy_power == 0
        &&& self.player2.actions_remaining == 1
        &&& self.player2.buys == 1
    }

    /// What holds of a session between any two commands: the board has its
    /// eleven piles in their places, the players are called "Player" and
    /// "CPU", the session holds as many cards as it began with, all of them
    /// cards of the catalog, the human player rests in the idle, the action
    /// or the buy phase, and the opponent waits for a turn.
    pub open spec fn wf(self) -> bool {
        &&& has_session_layout(self.board)
        &&& self.player1.name == PLAYER_NAME@
        &&& self.player2.name == OPPONENT_NAME@
        &&& self.card_count() == SESSION_CARDS
        &&& holds_catalog_cards(self.player1)
        &&& holds_catalog_cards(self.player2)
        &&& self.player1.phase.is_resting()
        &&& self.opponent_rests()
    }
}

/// Cards of the catalog score between nothing and six points each.
pub proof fn lemma_score_bounds(cards: Seq<CardProperties>)
    requires
        forall|i: int| 0 <= i < cards.len() ==> in_catalog(#[trigger] cards[i]@),
    ensures
        0 <= score_of(cards) <= HIGHEST_SCORE * cards.len(),
    decreases cards.len(),
{
    if cards.len() > 0 {
        lemma_score_bounds(cards.drop_last());
        lemma_catalog_bounds(cards.last()@);
    }
}

/// The treasures that a player in `phase` plays among cards of the catalog
/// grant between nothing and three coins each.
pub proof fn lemma_treasure_bounds(cards: Seq<CardProperties>, phase: PlayerPhases)
    requires
        forall|i: int| 0 <= i < cards.len() ==> in_catalog(#[trigger] cards[i]@),
    ensures
        0 <= treasure_total(cards, phase) <= HIGHEST_TREASURE * cards.len(),
        forall|i: int|
            0 <= i < cards.len() && is_played_treasure((#[trigger] cards[i])@, phase) ==> 0
                <= cards[i]@.relevant_value(),
    decreases cards.len(),
{
    if cards.len() > 0 {
        lemma_treasure_bounds(cards.drop_last(), phase);
        lemma_catalog_bounds(cards.last()@);
        assert forall|i: int|
            0 <= i < cards.len() && is_played_treasure(
                (#[trigger] cards[i])@,
                phase,
            ) implies 0 <= cards[i]@.relevant_value() by {
            lemma_catalog_bounds(cards[i]@);
        }
    }
}

/// A player who holds only cards of the catalog holds only such cards in
/// each zone.
pub proof fn lemma_zones_hold_catalog_cards(player: PlayerView)
    requires
        holds_catalog_cards(player),
    ensures
        forall|i: int| 0 <= i < player.deck.len() ==> in_catalog(#[trigger] player.deck[i]@),
        forall|i: int| 0 <= i < player.discard.len() ==> in_catalog(#[trigger] player.discard[i]@),
        forall|i: int| 0 <= i < player.hand.len() ==> in_catalog(#[trigger] player.hand[i]@),
        forall|i: int| 0 <= i < player.in_play.len() ==> in_catalog(#[trigger] player.in_play[i]@),
{
    broadcast use vstd::seq_lib::group_to_multiset_ensures;

    assert forall|i: int| 0 <= i < player.deck.len() implies in_catalog(
        #[trigger] player.deck[i]@,
    ) by {
        assert(player.deck.contains(player.deck[i]));
        assert(player.cards().count(player.deck[i]) > 0);
    }
    assert forall|i: int| 0 <= i < player.discard.len() implies in_catalog(
        #[trigger] player.discard[i]@,
    ) by {
        assert(player.discard.contains(player.discard[i]));
        assert(player.cards().count(player.discard[i]) > 0);
    }
    assert forall|i: int| 0 <= i < player.hand.len() implies in_catalog(
        #[trigger] player.hand[i]@,
    ) by {
        assert(player.hand.contains(player.hand[i]));
        assert(player.cards().count(player.hand[i]) > 0);
    }
    assert forall|i: int| 0 <= i < player.in_play.len() implies in_catalog(
        #[trigger] player.in_play[i]@,
    ) by {
        assert(player.in_play.contains(player.in_play[i]));
        assert(player.cards().count(player.in_play[i]) > 0);
    }
}

/// In a session the points of each player lie between nothing and six
/// times the number of cards in the session.
pub proof fn lemma_session_scores(game: GameView)
    requires
        game.wf(),
    ensures
        0 <= game.player1.victory_points() <= HIGHEST_SCORE * SESSION_CARDS,
        0 <= game.player2.victory_points() <= HIGHEST_SCORE * SESSION_CARDS,
{
    lemma_zones_hold_catalog_cards(game.player1);
    lemma_zones_hold_catalog_cards(game.player2);
    lemma_score_bounds(game.player1.deck);
    lemma_score_bounds(game.player1.hand);
    lemma_score_bounds(game.player1.discard);
    lemma_score_bounds(game.player2.deck);
    lemma_score_bounds(game.player2.hand);
    lemma_score_bounds(game.player2.discard);
}

/// A pile put behind other piles adds its cards to their stock.
pub proof fn lemma_stock_push(piles: Seq<Pile>, pile: Pile)
    ensures
        stock(piles.push(pile)) == stock(piles) + pile.cards_left,
{
    assert(piles.push(pile).drop_last() =~= piles);
}

/// The board that a session starts with holds 190 cards.
pub proof fn lemma_starting_board_count(board: BoardView)
    requires
        is_starting_board(board),
    ensures
        board.card_count() == 190,
{
    let v = board.victory_cards;
    let t = board.treasure_cards;
    let k = board.kingdom_set;
    let none = Seq::<Pile>::empty();
    assert(stock(none) == 0);
    assert(v =~= none.push(v[0]).push(v[1]).push(v[2]));
    lemma_stock_push(none, v[0]);
    lemma_stock_push(none.push(v[0]), v[1]);
    lemma_stock_push(none.push(v[0]).push(v[1]), v[2]);
    assert(t =~= none.push(t[0]).push(t[1]).push(t[2]));
    lemma_stock_push(none, t[0]);
    lemma_stock_push(none.push(t[0]), t[1]);
    lemma_stock_push(none.push(t[0]).push(t[1]), t[2]);
    assert(k =~= none.push(k[0]).push(k[1]).push(k[2]).push(k[3]).push(k[4]));
    lemma_stock_push(none, k[0]);
    lemma_stock_push(none.push(k[0]), k[1]);
    lemma_stock_push(none.push(k[0]).push(k[1]), k[2]);
    lemma_stock_push(none.push(k[0]).push(k[1]).push(k[2]), k[3]);
    lemma_stock_push(none.push(k[0]).push(k[1]).push(k[2]).push(k[3]), k[4]);
}

/// A player who holds what a session starts with holds ten cards, all of
/// them cards of the catalog.
pub proof fn lemma_starting_player(player: PlayerView, name: Seq<char>, phase: PlayerPhases)
    requires
        is_starting_player(player, name, phase),
    ensures
        player.card_count() == 2 * HAND_SIZE,
        holds_catalog_cards(player),
{
    broadcast use vstd::seq_lib::group_to_multiset_ensures;

    let dealt = choose|dealt: Seq<CardProperties>|
        #[trigger] views_of(dealt) == default_deck() && (player.hand + player.deck).to_multiset()
            == dealt.to_multiset();
    vstd::seq_lib::lemma_multiset_commutative(player.hand, player.deck);
    assert(player.discard =~= Seq::empty());
    assert(player.in_play =~= Seq::empty());
    assert(Seq::<CardProperties>::empty().to_multiset() =~= vstd::multiset::Multiset::empty());
    assert(player.cards() =~= dealt.to_multiset());
    assert forall|card: CardProperties| #[trigger] player.cards().count(card) > 0 implies in_catalog(
        card@,
    ) by {
        assert(dealt.contains(card));
        let i = choose|i: int| 0 <= i < dealt.len() && dealt[i] == card;
        assert(views_of(dealt)[i] == card@);
        assert(views_of(dealt).len() == dealt.len());
        assert(default_deck()[i] == card@);
        if i < STARTING_COPPERS {
            assert(card@ == CardCreator::Copper.card());
        } else {
            assert(card@ == CardCreator::Estate.card());
        }
    }
}

impl GameManager {
    /// Starts a session.
    ///
    /// The board holds the three victory piles, the three treasure piles and
    /// five kingdom piles. Each player has shuffled a starting deck and
    /// drawn five cards of it. The human player, called "Player", is in the
    /// action phase; the opponent, called "CPU", waits.
    pub fn new() -> (game: GameManager)
        ensures
            game@.wf(),
            game@.card_count() == SESSION_CARDS,
            is_starting_board(game@.board),
            is_starting_player(game@.player1, PLAYER_NAME@, PlayerPhases::Action),
            is_starting_player(game@.player2, OPPONENT_NAME@, PlayerPhases::Idle),
            game@.log == LogView::fresh(),
    {
        let mut board = Board {
            victory_cards: build_victory_piles(),
            treasure_cards: build_treasure_piles(),
            kingdom_set: Vec::new(),
            trash: Vec::new(),
        };
        board.kingdom_set.push(build_moat_pile());
        board.kingdom_set.push(build_woodcutter_pile());
        board.kingdom_set.push(build_village_pile());
        board.kingdom_set.push(build_smithy_pile());
        board.kingdom_set.push(build_market_pile());
        let middle = PlayerMiddleware::new();
        let mut player1 = GameManager::seat_player(String::from_str(PLAYER_NAME));
        let player2 = GameManager::seat_player(String::from_str(OPPONENT_NAME));
        player1.phase = PlayerPhases::Action;
        let gm = GameManager {
            player1: player1,
            player2: player2,
            board: board,
            player_middleware: middle,
        };
        proof {
            lemma_starting_board_count(gm@.board);
            lemma_starting_player(gm@.player1, PLAYER_NAME@, PlayerPhases::Action);
            lemma_starting_player(gm@.player2, OPPONENT_NAME@, PlayerPhases::Idle);
        }
        gm
    }

    /// Returns a player called `name` who has shuffled a starting deck and
    /// drawn the first hand.
    fn seat_player(name: String) -> (player: Player)
        ensures
            is_starting_player(player@, name@, PlayerPhases::Idle),
    {
        let mut player = Player::new(build_default_player_deck());
        let ghost dealt = player@.deck;
        player.name = name;
        player.shuffle_deck();
        let ghost shuffled = player@;
        player.cleanup_and_draw();
        proof {
            vstd::seq_lib::to_multiset_len(shuffled.deck);
            vstd::seq_lib::to_multiset_len(dealt);
            assert(views_of(dealt).len() == dealt.len());
            assert(shuffled.hand =~= Seq::empty());
            assert(shuffled.in_play =~= Seq::empty());
            assert(shuffled.discard =~= Seq::empty());
            let tidied = shuffled.tidied();
            assert(tidied.discard =~= Seq::empty());
            lemma_draws_from_deck(tidied.zones(), player@.zones(), HAND_SIZE as nat);
            assert(player@.hand + player@.deck =~= shuffled.deck) by {
                assert(player@.hand =~= shuffled.deck.take(HAND_SIZE as int));
            }
            assert(views_of(dealt) == default_deck());
        }
        player
    }
}

/// What a display shows of each pile of the board: its name, the number of
/// cards left and the price of a card.
pub struct PileData {
    pub treasures: Vec<(String, u8, i32)>,
    pub victories: Vec<(String, u8, i32)>,
    pub kingdom_set: Vec<(String, u8, i32)>,
}

/// What a display shows of `pile`.
pub open spec fn pile_row(pile: Pile) -> (Seq<char>, u8, int) {
    (pile.pile_name@, pile.cards_left, pile.card_creator.card().cost)
}

/// What the rows of `rows` say, in their order.
pub open spec fn rows_view(rows: Seq<(String, u8, i32)>) -> Seq<(Seq<char>, u8, int)> {
    Seq::new(rows.len(), |i: int| (rows[i].0@, rows[i].1, rows[i].2 as int))
}

/// What a display shows of the piles of `piles`, in their order.
pub open spec fn pile_rows(piles: Seq<Pile>) -> Seq<(Seq<char>, u8, int)> {
    Seq::new(piles.len(), |i: int| pile_row(piles[i]))
}

/// The name under which the human player is scored.
pub const PLAYER_SCORE_NAME: &'static str = "Player ";

/// The name under which the opponent is scored.
pub const OPPONENT_SCORE_NAME: &'static str = "CPU ";

/// The place of the Silver pile among the treasure piles.
pub const SILVER_INDEX: usize = 1;

/// The place of the Gold pile among the treasure piles.
pub const GOLD_INDEX: usize = 2;

/// What the opponent buys with `buying_power` coins: a card of the last
/// victory pile with eight or more, of the last treasure pile with six or
/// more, of the second treasure pile with three or more, and nothing with
/// less.
pub open spec fn opponent_choice(buying_power: u8) -> Option<(CardSet, int)> {
    if buying_power >= 8 {
        Some((CardSet::Victories, PROVINCE_INDEX as int))
    } else if buying_power >= 6 {
        Some((CardSet::Treasures, GOLD_INDEX as int))
    } else if buying_power >= 3 {
        Some((CardSet::Treasures, SILVER_INDEX as int))
    } else {
        None
    }
}

impl GameView {
    /// The opponent at the moment of buying: in the buy phase, with all
    /// treasures of the hand played.
    pub open spec fn opponent_ready_to_buy(self) -> PlayerView {
        (PlayerView { phase: PlayerPhases::Buy, ..self.player2 }).with_treasures_played()
    }

    /// Whether the opponent's turn brings a card in: whether the policy
    /// picks a pile and the buy from it is not refused.
    pub open spec fn opponent_buys(self) -> bool {
        let buyer = self.opponent_ready_to_buy();
        opponent_choice(buyer.buy_power) matches Some((zone, index)) && buyer.buy_refusal(
            self.board,
            index,
            zone,
        ) is None
    }

    /// Whether `after` is the session once the opponent has taken a turn.
    ///
    /// The opponent goes to the buy phase, plays all treasures, buys what
    /// the policy picks if the buy is not refused, and cleans up. Then the
    /// human player advances by one phase.
    pub open spec fn opponent_turn(self, after: GameView) -> bool {
        let buyer = self.opponent_ready_to_buy();
        &&& self.player1.advances_into(after.player1)
        &&& if self.opponent_buys() {
            let (zone, index) = opponent_choice(buyer.buy_power)->Some_0;
            let card = self.board.piles(zone)[index].card_creator.card();
            &&& after.board == self.board.after_draw(zone, index)
            &&& after.log == self.log.with_entry(bought_message(buyer.name, card.name))
            &&& exists|paid: PlayerView| #[trigger]
                buyer.gains(paid, card) && paid.cleans_up_into(after.player2)
        } else {
            &&& after.board == self.board
            &&& after.log == self.log
            &&& buyer.cleans_up_into(after.player2)
        }
    }

    /// Whether `after` is the session once the human player has tried to
    /// buy a card from the pile at `index` of `zone`: a refused buy changes
    /// nothing; a buy that succeeds takes the card off the pile, lets the
    /// player pay for it and gain it, and is recorded in the log.
    pub open spec fn human_buys(self, index: int, zone: CardSet, after: GameView) -> bool {
        if self.player1.buy_refusal(self.board, index, zone) is Some {
            after == self
        } else {
            let card = self.board.piles(zone)[index].card_creator.card();
            &&& after.player2 == self.player2
            &&& after.board == self.board.after_draw(zone, index)
            &&& after.log == self.log.with_entry(bought_message(self.player1.name, card.name))
            &&& self.player1.gains(after.player1, card)
        }
    }

    /// Whether `after` is the session once the human player has played the
    /// card at `index` of the hand, or has been refused the play.
    pub open spec fn human_plays(self, index: int, after: GameView) -> bool {
        &&& 0 <= index < self.player1.hand.len()
        &&& after == (GameView { player1: after.player1, ..self })
        &&& self.player1.plays(index, after.player1)
    }

    /// Whether `after` is the session once the human player has asked for
    /// the next phase: a player in the action or the buy phase advances, and
    /// a player in another phase is as before.
    pub open spec fn human_advances(self, after: GameView) -> bool {
        &&& after == (GameView { player1: after.player1, ..self })
        &&& if self.player1.phase == PlayerPhases::Action || self.player1.phase
            == PlayerPhases::Buy {
            self.player1.advances_into(after.player1)
        } else {
            after.player1 == self.player1
        }
    }

    /// The session once the human player has played all treasures of the
    /// hand.
    pub open spec fn with_human_treasures_played(self) -> GameView {
        GameView { player1: self.player1.with_treasures_played(), ..self }
    }

    /// Whether `after` is the session once the human player has ended the
    /// turn: a player in the action or the buy phase has cleaned up and
    /// drawn the new hand, a player in another phase is as before, and
    /// nothing else has changed.
    pub open spec fn human_turn_ends(self, after: GameView) -> bool {
        &&& after == (GameView { player1: after.player1, ..self })
        &&& if self.player1.phase == PlayerPhases::Action || self.player1.phase
            == PlayerPhases::Buy {
            self.player1.cleans_up_into(after.player1)
        } else {
            after.player1 == self.player1
        }
    }

    /// The final scores, the human player's first, if the game is over.
    pub open spec fn final_scores(self) -> Option<Seq<(Seq<char>, int)>> {
        if self.board.game_over() {
            Some(
                seq![
                    (PLAYER_SCORE_NAME@, self.player1.victory_points()),
                    (OPPONENT_SCORE_NAME@, self.player2.victory_points()),
                ],
            )
        } else {
            None
        }
    }
}

/// What the scores of `scores` say, in their order.
pub open spec fn scores_view(scores: Seq<(String, i32)>) -> Seq<(Seq<char>, int)> {
    Seq::new(scores.len(), |i: int| (scores[i].0@, scores[i].1 as int))
}

/// A player who holds only cards of the catalog still does so after gaining
/// another one, and the cards that the player holds become one more.
pub proof fn lemma_gain_keeps_catalog(before: PlayerView, after: PlayerView, card: CardProperties)
    requires
        holds_catalog_cards(before),
        in_catalog(card@),
        after.cards() == before.cards().insert(card),
    ensures
        holds_catalog_cards(after),
        after.card_count() == before.card_count() + 1,
{
    broadcast use vstd::multiset::group_multiset_axioms;

    lemma_card_count(before);
    lemma_card_count(after);
    assert forall|other: CardProperties| #[trigger] after.cards().count(other) > 0 implies in_catalog(
        other@,
    ) by {
        if other != card {
            assert(before.cards().count(other) > 0);
        }
    }
}

/// Ending a turn leaves a player in the idle phase with a hand of at most
/// five cards, no card in play and the resources of a fresh turn.
pub proof fn lemma_cleaned_up(before: PlayerView, after: PlayerView)
    requires
        before.cleans_up_into(after),
    ensures
        after.phase == PlayerPhases::Idle,
        after.hand.len() <= HAND_SIZE,
        after.in_play.len() == 0,
        after.buy_power == 0,
        after.actions_remaining == 1,
        after.buys == 1,
        after.name == before.name,
{
    lemma_draws(before.tidied().zones(), after.zones(), HAND_SIZE as nat);
}

impl GameManager {
    /// Returns the rows that a display shows for `piles`.
    fn rows_of(piles: &Vec<Pile>) -> (rows: Vec<(String, u8, i32)>)
        ensures
            rows_view(rows@) == pile_rows(piles@),
    {
        let mut rows: Vec<(String, u8, i32)> = Vec::new();
        let mut pile: usize = 0;
        while pile < piles.len()
            invariant
                pile <= piles@.len(),
                rows@.len() == pile,
                forall|i: int|
                    0 <= i < pile ==> (rows@[i].0@, rows@[i].1, rows@[i].2 as int) == pile_row(
                        #[trigger] piles@[i],
                    ),
            decreases piles@.len() - pile,
        {
            rows.push(
                (
                    piles[pile].get_pile_name(),
                    piles[pile].get_cards_left(),
                    piles[pile].get_card_price(),
                ),
            );
            pile += 1;
        }
        assert(rows_view(rows@) =~= pile_rows(piles@));
        rows
    }

    /// Returns the name, the stock and the price of every pile of the
    /// board, zone by zone.
    pub fn get_pile_data(&self) -> (data: PileData)
        ensures
            rows_view(data.treasures@) == pile_rows(self@.board.treasure_cards),
            rows_view(data.victories@) == pile_rows(self@.board.victory_cards),
            rows_view(data.kingdom_set@) == pile_rows(self@.board.kingdom_set),
    {
        let kingdom_data = GameManager::rows_of(&self.board.kingdom_set);
        let victory_data = GameManager::rows_of(&self.board.victory_cards);
        let treasure_data = GameManager::rows_of(&self.board.treasure_cards);
        PileData { treasures: treasure_data, victories: victory_data, kingdom_set: kingdom_data }
    }

    /// Returns the human player for changing; what the caller makes of the
    /// player is what the session holds afterwards. The session stays in
    /// order if the caller leaves the player with the same name and the same
    /// cards, in a phase to rest in.
    pub fn get_player_mut_character(&mut self) -> (player: &mut Player)
        ensures
            player@ == old(self)@.player1,
            final(self)@ == (GameView { player1: final(player)@, ..old(self)@ }),
            old(self)@.wf() && final(player)@.phase.is_resting() && final(player)@.name
                == player@.name && final(player)@.cards() == player@.cards()
                ==> final(self)@.wf(),
    {
        let player = &mut self.player1;
        proof {
            lemma_card_count(player@);
            lemma_card_count(final(player)@);
        }
        player
    }

    /// Returns the human player for reading.
    pub fn get_player_character(&self) -> (player: &Player)
        ensures
            player@ == self@.player1,
    {
        &self.player1
    }

    /// Returns every entry of the log, oldest first.
    pub fn get_logs(&self) -> (entries: Vec<String>)
        ensures
            entries.deep_view() == self@.log.game_log,
    {
        self.player_middleware.get_log()
    }

    /// Plays a turn of the opponent and hands the turn back to the human
    /// player.
    ///
    /// The opponent goes to the buy phase, plays all treasures of the hand
    /// and buys by a fixed policy: a Province with eight or more coins,
    /// else a Gold with six or more, else a Silver with three or more, else
    /// nothing. A buy that the board refuses is given up. The opponent then
    /// cleans up, and the human player advances by one phase.
    pub fn player2_basic_ai(&mut self)
        requires
            old(self)@.wf(),
        ensures
            final(self)@.wf(),
            old(self)@.opponent_turn(final(self)@),
            final(self)@.card_count() == old(self)@.card_count(),
    {
        while self.player2.phase != PlayerPhases::Buy
            invariant
                self.player2@ == (PlayerView { phase: self.player2.phase, ..old(self)@.player2 }),
                self.player2.phase.is_resting(),
                self.player1@ == old(self)@.player1,
                self.board@ == old(self)@.board,
                self.player_middleware@ == old(self)@.log,
            decreases
                    (if self.player2.phase == PlayerPhases::Idle {
                        2int
                    } else if self.player2.phase == PlayerPhases::Action {
                        1int
                    } else {
                        0int
                    }),
        {
            self.player2.advance_phase();
        }
        proof {
            assert(self.player2@.cards() == old(self)@.player2.cards());
            assert(holds_catalog_cards(self.player2@));
            lemma_zones_hold_catalog_cards(self.player2@);
            lemma_treasure_bounds(self.player2@.hand, PlayerPhases::Buy);
        }
        self.player2.play_treasures();
        let ghost buyer = self.player2@;
        assert(buyer == old(self)@.opponent_ready_to_buy());
        assert(holds_catalog_cards(buyer));
        if self.player2.get_buying_power() >= 8 {
            self.player2.buy_card(
                &mut self.board,
                &mut self.player_middleware,
                PROVINCE_INDEX,
                CardSet::Victories,
            );
        } else if self.player2.get_buying_power() >= 6 {
            self.player2.buy_card(
                &mut self.board,
                &mut self.player_middleware,
                GOLD_INDEX,
                CardSet::Treasures,
            );
        } else if self.player2.get_buying_power() >= 3 {
            self.player2.buy_card(
                &mut self.board,
                &mut self.player_middleware,
                SILVER_INDEX,
                CardSet::Treasures,
            );
        }
        let ghost paid = self.player2@;
        proof {
            if old(self)@.opponent_buys() {
                let (zone, index) = opponent_choice(buyer.buy_power)->Some_0;
                let pile = old(self)@.board.piles(zone)[index];
                assert(in_catalog(pile.card_creator.card()));
                lemma_gain_keeps_catalog(buyer, paid, paid.discard.first());
            }
            assert(holds_catalog_cards(paid));
            assert(paid.card_count() + self.board@.card_count() == buyer.card_count() + old(
                self,
            )@.board.card_count());
        }
        self.player2.cleanup_and_draw();
        self.player1.advance_phase();
        proof {
            lemma_cleaned_up(paid, self.player2@);
        }
    }

    /// Tells whether the human player may play the card at `index` of the
    /// hand.
    pub fn can_play_card(&self, index: usize) -> (fits: bool)
        ensures
            fits == self.can_play(index as int),
    {
        self.player1.can_play_card(index)
    }

    /// Tells whether the human player may play all treasures of the hand.
    pub fn can_play_treasures(&self) -> (fits: bool)
        ensures
            fits == self.can_play_all_treasures(),
    {
        self.player1.can_play_treasures()
    }

    /// Tells whether the game is over, and if so with what scores: the
    /// human player's first, then the opponent's.
    pub fn check_ending(&mut self) -> (scores: Option<Vec<(String, i32)>>)
        requires
            old(self)@.wf(),
        ensures
            final(self)@ == old(self)@,
            scores is Some <==> old(self)@.board.game_over(),
            match scores {
                Some(list) => Some(scores_view(list@)) == old(self)@.final_scores(),
                None => old(self)@.final_scores() is None,
            },
    {
        proof {
            lemma_session_scores(self@);
        }
        if self.board.check_ending() == true {
            let p1_vp = self.player1.get_victory_points();
            let p2_vp = self.player2.get_victory_points();
            let list = vec![
                (String::from_str(PLAYER_SCORE_NAME), p1_vp),
                (String::from_str(OPPONENT_SCORE_NAME), p2_vp),
            ];
            assert(scores_view(list@) =~= old(self)@.final_scores()->Some_0);
            Some(list)
        } else {
            None
        }
    }

    /// Returns the text that describes the cards in the pile at `index` of
    /// zone `card_set`, or the error that no pile lies there.
    pub fn get_pile_desc(&mut self, index: usize, card_set: CardSet) -> (description: Result<
        String,
        GameErrors,
    >)
        ensures
            final(self)@ == old(self)@,
            old(self)@.board.has_pile(card_set, index as int) ==> description is Ok
                && description->Ok_0@ == old(self)@.board.piles(
                card_set,
            )[index as int].card_creator.card().description,
            !old(self)@.board.has_pile(card_set, index as int) ==> description is Err
                && description->Err_0.is_card_not_found(index),
    {
        self.board.get_pile_desc(index, card_set)
    }
}

impl PlayerUIInterface for GameManager {
    /// The session takes commands while it is in order.
    open spec fn ready(&self) -> bool {
        self@.wf()
    }

    /// A card can be played that lies in the human player's hand, if the
    /// player's resources can take what it adds.
    open spec fn can_play(&self, index: int) -> bool {
        0 <= index < self@.player1.hand.len() && self@.player1.can_hold_play(index)
    }

    /// The treasures can be played if the human player's buying power can
    /// take them.
    open spec fn can_play_all_treasures(&self) -> bool {
        self@.player1.can_play_treasures()
    }

    /// Plays the card at `index` of the human player's hand.
    fn play_ui_card(&mut self, index: usize) -> (refused: Option<GameErrors>)
        ensures
            old(self)@.human_plays(index as int, final(self)@),
            match old(self)@.player1.play_refusal(index as int) {
                Some(attempted) => refused is Some && refused->Some_0.is_invalid_action(attempted),
                None => refused is None,
            },
            final(self)@.card_count() == old(self)@.card_count(),
    {
        let ghost before = self.player1@;
        let refused = self.player1.play_card(index);
        proof {
            lemma_play_keeps_phase(before, index as int, self.player1@);
        }
        refused
    }

    /// Buys a card for the human player from the pile at `index` of zone
    /// `set`. A refused buy changes nothing.
    fn buy_ui_card(&mut self, index: usize, set: CardSet) -> (refused: Option<GameErrors>)
        ensures
            match old(self)@.player1.buy_refusal(old(self)@.board, index as int, set) {
                Some(BuyRefusal::NoPile) => refused is Some && refused->Some_0.is_card_not_found(
                    index,
                ),
                Some(BuyRefusal::CannotPay) => refused is Some
                    && refused->Some_0.is_invalid_action(CANNOT_BUY_MESSAGE@),
                Some(BuyRefusal::SoldOut) => refused is Some && refused->Some_0.is_out_of_cards(),
                None => refused is None,
            },
            old(self)@.human_buys(index as int, set, final(self)@),
            final(self)@.card_count() == old(self)@.card_count(),
    {
        let ghost before = self.player1@;
        let refused = self.player1.buy_card(
            &mut self.board,
            &mut self.player_middleware,
            index,
            set,
        );
        proof {
            if refused is None {
                let pile = old(self)@.board.piles(set)[index as int];
                assert(in_catalog(pile.card_creator.card()));
                lemma_gain_keeps_catalog(before, self.player1@, self.player1@.discard.first());
            }
        }
        refused
    }

    /// Moves the human player on to the next phase, if the player is in the
    /// action or the buy phase; in any other phase nothing happens.
    fn advance_ui_phase(&mut self)
        ensures
            old(self)@.human_advances(final(self)@),
            final(self)@.card_count() == old(self)@.card_count(),
    {
        if self.player1.phase == PlayerPhases::Action || self.player1.phase == PlayerPhases::Buy {
            self.player1.advance_phase();
        }
    }

    /// Ends the turn of the human player, if the player is in the action or
    /// the buy phase; in any other phase nothing happens.
    fn end_turn(&mut self)
        ensures
            old(self)@.human_turn_ends(final(self)@),
            final(self)@.card_count() == old(self)@.card_count(),
    {
        if self.player1.phase == PlayerPhases::Action || self.player1.phase == PlayerPhases::Buy {
            self.player1.end_turn();
            proof {
                lemma_cleaned_up(old(self)@.player1, self.player1@);
            }
        }
    }

    /// Returns the hand of the human player.
    fn get_hand(&self) -> (hand: &Vec<CardProperties>)
        ensures
            hand@ == self@.player1.hand,
    {
        self.player1.get_hand()
    }

    /// Returns the number of actions that the human player has left.
    fn get_actions(&self) -> (actions: u8)
        ensures
            actions == self@.player1.actions_remaining,
    {
        self.player1.get_actions()
    }

    /// Returns the buying power of the human player.
    fn get_buying_power(&self) -> (buying_power: u8)
        ensures
            buying_power == self@.player1.buy_power,
    {
        self.player1.get_buying_power()
    }

    /// Returns the points of the human player.
    fn get_victory_points(&self) -> (points: i32)
        ensures
            points == self@.player1.victory_points(),
    {
        proof {
            lemma_session_scores(self@);
        }
        self.player1.get_victory_points()
    }

    /// Returns the number of buys that the human player has left.
    fn get_buys(&self) -> (buys: u8)
        ensures
            buys == self@.player1.buys,
    {
        self.player1.get_buys()
    }

    /// Returns the phase that the human player is in.
    fn get_phase(&self) -> (phase: PlayerPhases)
        ensures
            phase == self@.player1.phase,
    {
        self.player1.get_phase()
    }

    /// Plays every treasure of the human player's hand.
    fn play_all_treasures_ui(&mut self)
        ensures
            final(self)@ == old(self)@.with_human_treasures_played(),
            final(self)@.card_count() == old(self)@.card_count(),
    {
        self.player1.play_treasures()
    }
}

/// A command that moves a session on: one of the commands of the human
/// player, or a turn of the opponent.
pub enum Command {
    /// The human player plays the card at the index of the hand.
    PlayCard(usize),
    /// The human player buys from the pile at the index of the zone.
    BuyCard(usize, CardSet),
    /// The human player asks for the next phase.
    AdvancePhase,
    /// The human player plays all treasures of the hand.
    PlayAllTreasures,
    /// The human player ends the turn.
    EndTurn,
    /// The opponent takes a turn.
    OpponentTurn,
}

impl GameView {
    /// Whether `after` is the session once `command` has been carried out.
    pub open spec fn step(self, command: Command, after: GameView) -> bool {
        match command {
            Command::PlayCard(index) => self.human_plays(index as int, after),
            Command::BuyCard(index, zone) => self.human_buys(index as int, zone, after),
            Command::AdvancePhase => self.human_advances(after),
            Command::PlayAllTreasures => after == self.with_human_treasures_played(),
            Command::EndTurn => self.human_turn_ends(after),
            Command::OpponentTurn => self.opponent_turn(after),
        }
    }

    /// Whether `after` is the session once the commands of `commands` have
    /// been carried out one after the other.
    pub open spec fn run(self, commands: Seq<Command>, after: GameView) -> bool
        decreases commands.len(),
    {
        if commands.len() == 0 {
            after == self
        } else {
            exists|before_last: GameView|
                self.run(commands.drop_last(), before_last) && #[trigger] before_last.step(
                    commands.last(),
                    after,
                )
        }
    }
}

/// No command makes or loses a card: after it the players and the board
/// hold as many cards together as before.
pub proof fn lemma_step_keeps_card_count(before: GameView, command: Command, after: GameView)
    requires
        before.step(command, after),
    ensures
        after.card_count() == before.card_count(),
{
    match command {
        Command::PlayCard(index) => {
            lemma_plays_keeps_cards(before.player1, index as int, after.player1);
        },
        Command::BuyCard(index, zone) => {
            lemma_human_buys_keeps_card_count(before, index as int, zone, after);
        },
        Command::AdvancePhase => {
            if before.player1.phase == PlayerPhases::Action || before.player1.phase
                == PlayerPhases::Buy {
                lemma_advances_keeps_cards(before.player1, after.player1);
            }
        },
        Command::PlayAllTreasures => {
            lemma_treasures_played_keeps_cards(before.player1);
        },
        Command::EndTurn => {
            if before.player1.phase == PlayerPhases::Action || before.player1.phase
                == PlayerPhases::Buy {
                lemma_cleans_up_keeps_cards(before.player1, after.player1);
            }
        },
        Command::OpponentTurn => {
            lemma_opponent_turn_keeps_card_count(before, after);
        },
    }
}

/// A buy of the human player, refused or not, keeps the number of cards in
/// the session: the card that leaves the pile is the card that the player
/// gains.
pub proof fn lemma_human_buys_keeps_card_count(
    before: GameView,
    index: int,
    zone: CardSet,
    after: GameView,
)
    requires
        before.human_buys(index, zone, after),
    ensures
        after.card_count() == before.card_count(),
{
    if before.player1.buy_refusal(before.board, index, zone) is None {
        let card = before.board.piles(zone)[index].card_creator.card();
        lemma_gains_one_card(before.player1, after.player1, card);
        lemma_board_after_draw(before.board, zone, index);
    }
}

/// A turn of the opponent keeps the number of cards in the session.
pub proof fn lemma_opponent_turn_keeps_card_count(before: GameView, after: GameView)
    requires
        before.opponent_turn(after),
    ensures
        after.card_count() == before.card_count(),
{
    let waiting = PlayerView { phase: PlayerPhases::Buy, ..before.player2 };
    let buyer = before.opponent_ready_to_buy();
    lemma_treasures_played_keeps_cards(waiting);
    lemma_advances_keeps_cards(before.player1, after.player1);
    if before.opponent_buys() {
        let (zone, index) = opponent_choice(buyer.buy_power)->Some_0;
        let card = before.board.piles(zone)[index].card_creator.card();
        let paid = choose|paid: PlayerView| #[trigger]
            buyer.gains(paid, card) && paid.cleans_up_into(after.player2);
        lemma_gains_one_card(buyer, paid, card);
        lemma_cleans_up_keeps_cards(paid, after.player2);
        lemma_board_after_draw(before.board, zone, index);
    } else {
        lemma_cleans_up_keeps_cards(buyer, after.player2);
    }
}

/// Whether the turn of the opponent that leads from `before` to `after` has
/// brought in one card that says `card` from the pile at `index` of `zone`:
/// that pile has one card less and no other pile has changed, the log has
/// gained `entry`, and the opponent holds one such card more.
pub open spec fn opponent_gained(
    before: GameView,
    after: GameView,
    zone: CardSet,
    index: int,
    card: CardView,
    entry: Seq<char>,
) -> bool {
    &&& after.board == before.board.after_draw(zone, index)
    &&& after.board.piles(zone)[index].cards_left == before.board.piles(zone)[index].cards_left
        - 1
    &&& forall|other_zone: CardSet, other: int|
        before.board.has_pile(other_zone, other) && (other_zone != zone || other != index)
            ==> #[trigger] after.board.piles(other_zone)[other] == before.board.piles(
            other_zone,
        )[other]
    &&& after.log == before.log.with_entry(entry)
    &&& exists|bought: CardProperties|
        bought@ == card && after.player2.cards() == #[trigger] before.player2.cards().insert(
            bought,
        )
}

/// Whether the turn of the opponent that leads from `before` to `after` has
/// brought nothing in: the board, the log and the cards of the opponent are
/// as before.
pub open spec fn opponent_gained_nothing(before: GameView, after: GameView) -> bool {
    &&& after.board == before.board
    &&& after.log == before.log
    &&& after.player2.cards() == before.player2.cards()
}

/// The policy of the opponent, in a session that is in order: with eight
/// coins or more in the hand the opponent buys a Province, with six or seven
/// a Gold, with three to five a Silver, each if its pile has a card left, and
/// the log says so under the name "CPU"; in every other case the opponent
/// buys nothing.
pub proof fn lemma_opponent_buys_by_policy(before: GameView, after: GameView)
    requires
        before.wf(),
        before.opponent_turn(after),
    ensures
        ({
            let coins = treasure_total(before.player2.hand, PlayerPhases::Buy);
            let provinces = before.board.victory_cards[PROVINCE_INDEX as int].cards_left;
            let golds = before.board.treasure_cards[GOLD_INDEX as int].cards_left;
            let silvers = before.board.treasure_cards[SILVER_INDEX as int].cards_left;
            if coins >= 8 && provinces > 0 {
                opponent_gained(
                    before,
                    after,
                    CardSet::Victories,
                    PROVINCE_INDEX as int,
                    province_card(),
                    "CPU bought Province"@,
                )
            } else if 6 <= coins < 8 && golds > 0 {
                opponent_gained(
                    before,
                    after,
                    CardSet::Treasures,
                    GOLD_INDEX as int,
                    gold_card(),
                    "CPU bought Gold"@,
                )
            } else if 3 <= coins < 6 && silvers > 0 {
                opponent_gained(
                    before,
                    after,
                    CardSet::Treasures,
                    SILVER_INDEX as int,
                    silver_card(),
                    "CPU bought Silver"@,
                )
            } else {
                opponent_gained_nothing(before, after)
            }
        }),
{
    let waiting = PlayerView { phase: PlayerPhases::Buy, ..before.player2 };
    let buyer = before.opponent_ready_to_buy();
    assert(waiting.cards() == before.player2.cards());
    lemma_zones_hold_catalog_cards(before.player2);
    lemma_treasure_bounds(before.player2.hand, PlayerPhases::Buy);
    lemma_treasures_played_keeps_cards(waiting);
    reveal_strlit("CPU");
    reveal_strlit(" bought ");
    reveal_strlit("Province");
    reveal_strlit("Gold");
    reveal_strlit("Silver");
    reveal_strlit("CPU bought Province");
    reveal_strlit("CPU bought Gold");
    reveal_strlit("CPU bought Silver");
    assert(bought_message("CPU"@, "Province"@) =~= "CPU bought Province"@);
    assert(bought_message("CPU"@, "Gold"@) =~= "CPU bought Gold"@);
    assert(bought_message("CPU"@, "Silver"@) =~= "CPU bought Silver"@);
    if before.opponent_buys() {
        let (zone, index) = opponent_choice(buyer.buy_power)->Some_0;
        let card = before.board.piles(zone)[index].card_creator.card();
        let paid = choose|paid: PlayerView| #[trigger]
            buyer.gains(paid, card) && paid.cleans_up_into(after.player2);
        lemma_gains_one_card(buyer, paid, card);
        lemma_cleans_up_keeps_cards(paid, after.player2);
        let bought = paid.discard.first();
        assert(bought@ == card && after.player2.cards() == before.player2.cards().insert(bought));
    } else {
        lemma_cleans_up_keeps_cards(buyer, after.player2);
    }
}

/// Conservation: whatever commands are carried out in whatever order, the
/// cards that the two players hold, those left in the piles and those in
/// the trash are as many together as before. No card comes into being but
/// by leaving a pile, and none is lost.
pub proof fn lemma_conservation(before: GameView, commands: Seq<Command>, after: GameView)
    requires
        before.run(commands, after),
    ensures
        after.card_count() == before.card_count(),
    decreases commands.len(),
{
    if commands.len() > 0 {
        let before_last = choose|before_last: GameView|
            before.run(commands.drop_last(), before_last) && #[trigger] before_last.step(
                commands.last(),
                after,
            );
        lemma_conservation(before, commands.drop_last(), before_last);
        lemma_step_keeps_card_count(before_last, commands.last(), after);
    }
}

/// A session that is in order is in order after any command.
pub proof fn lemma_step_keeps_order(before: GameView, command: Command, after: GameView)
    requires
        before.wf(),
        before.step(command, after),
    ensures
        after.wf(),
{
    lemma_step_keeps_card_count(before, command, after);
    match command {
        Command::PlayCard(index) => {
            lemma_plays_keeps_cards(before.player1, index as int, after.player1);
            lemma_play_keeps_phase(before.player1, index as int, after.player1);
        },
        Command::BuyCard(index, zone) => {
            if before.player1.buy_refusal(before.board, index as int, zone) is None {
                let pile = before.board.piles(zone)[index as int];
                assert(in_catalog(pile.card_creator.card()));
                lemma_gains_one_card(before.player1, after.player1, pile.card_creator.card());
                lemma_gain_keeps_catalog(
                    before.player1,
                    after.player1,
                    after.player1.discard.first(),
                );
            }
        },
        Command::AdvancePhase => {
            if before.player1.phase == PlayerPhases::Action || before.player1.phase
                == PlayerPhases::Buy {
                lemma_advances_keeps_cards(before.player1, after.player1);
            }
        },
        Command::PlayAllTreasures => {
            lemma_treasures_played_keeps_cards(before.player1);
        },
        Command::EndTurn => {
            if before.player1.phase == PlayerPhases::Action || before.player1.phase
                == PlayerPhases::Buy {
                lemma_cleans_up_keeps_cards(before.player1, after.player1);
                lemma_cleaned_up(before.player1, after.player1);
            }
        },
        Command::OpponentTurn => {
            let waiting = PlayerView { phase: PlayerPhases::Buy, ..before.player2 };
            let buyer = before.opponent_ready_to_buy();
            assert(waiting.cards() == before.player2.cards());
            lemma_treasures_played_keeps_cards(waiting);
            lemma_advances_keeps_cards(before.player1, after.player1);
            if before.opponent_buys() {
                let (zone, index) = opponent_choice(buyer.buy_power)->Some_0;
                let card = before.board.piles(zone)[index].card_creator.card();
                let paid = choose|paid: PlayerView| #[trigger]
                    buyer.gains(paid, card) && paid.cleans_up_into(after.player2);
                assert(in_catalog(card));
                lemma_gains_one_card(buyer, paid, card);
                lemma_gain_keeps_catalog(buyer, paid, paid.discard.first());
                lemma_cleans_up_keeps_cards(paid, after.player2);
                lemma_cleaned_up(paid, after.player2);
            } else {
                lemma_cleans_up_keeps_cards(buyer, after.player2);
                lemma_cleaned_up(buyer, after.player2);
            }
        },
    }
}

/// A session that is in order stays in order whatever commands are carried
/// out: it keeps its 210 cards, all of them cards of the catalog, the human
/// player rests in the idle, the action or the buy phase between commands,
/// and the opponent waits in the idle phase with a fresh hand.
pub proof fn lemma_session_stays_in_order(
    before: GameView,
    commands: Seq<Command>,
    after: GameView,
)
    requires
        before.wf(),
        before.run(commands, after),
    ensures
        after.wf(),
    decreases commands.len(),
{
    if commands.len() > 0 {
        let before_last = choose|before_last: GameView|
            before.run(commands.drop_last(), before_last) && #[trigger] before_last.step(
                commands.last(),
                after,
            );
        lemma_session_stays_in_order(before, commands.drop_last(), before_last);
        lemma_step_keeps_order(before_last, commands.last(), after);
    }
}

/// Playing a card leaves the player in the phase that the player was in.
pub proof fn lemma_play_keeps_phase(before: PlayerView, index: int, after: PlayerView)
    requires
        before.plays(index, after),
    ensures
        after.phase == before.phase,
        after.name == before.name,
{
}

} // verus!
