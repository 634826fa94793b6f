//! A player: the four zones that hold the player's cards, the resources of
//! the turn, and the rules for drawing, playing and buying.

use vstd::prelude::*;
use vstd::multiset::Multiset;
use vstd::string::StringExecFns;
use std::collections::VecDeque;
use rand::seq::SliceRandom;
use rand::thread_rng;
use crate::card_manager::card::{Card, CardProperties, CardView};
use crate::card_manager::card_builder::{in_catalog, lemma_catalog_bounds};
use crate::card_manager::card_properties::CardTypes;
use crate::game::board::{lemma_stock_after_draw, Board, BoardView, CardSet, PlayerInterface};
use crate::game::game_errors::{GameErrors, InvalidActionError};
use crate::game::player_middleware::{bought_message, PlayerMiddleware};
use crate::player::phases::PlayerPhases;

verus! {

/// One participant of the game.
///
/// A card lies in exactly one of the four zones at a time. The front of
/// `deck` is the card that is drawn next, `discard` collects the cards that
/// come back into the deck at the next reshuffle, `hand` holds the cards
/// that can be played, and `in_play` those played in this turn.
pub struct Player {
    pub name: String,
    pub deck: VecDeque<CardProperties>,
    pub discard: VecDeque<CardProperties>,
    pub hand: Vec<CardProperties>,
    pub in_play: Vec<CardProperties>,
    pub phase: PlayerPhases,
    pub buy_power: u8,
    pub actions_remaining: u8,
    pub buys: u8,
}

/// What a player holds, free of how the zones are stored.
pub struct PlayerView {
    pub name: Seq<char>,
    pub deck: Seq<CardProperties>,
    pub discard: Seq<CardProperties>,
    pub hand: Seq<CardProperties>,
    pub in_play: Seq<CardProperties>,
    pub phase: PlayerPhases,
    pub buy_power: u8,
    pub actions_remaining: u8,
    pub buys: u8,
}

impl View for Player {
    type V = PlayerView;

    open spec fn view(&self) -> PlayerView {
        PlayerView {
            name: self.name@,
            deck: self.deck@,
            discard: self.discard@,
            hand: self.hand@,
            in_play: self.in_play@,
            phase: self.phase,
            buy_power: self.buy_power,
            actions_remaining: self.actions_remaining,
            buys: self.buys,
        }
    }
}

/// The number of cards that a hand is filled up to at the end of a turn.
pub const HAND_SIZE: u8 = 5;

/// The three zones that drawing moves cards between.
pub struct Zones {
    pub deck: Seq<CardProperties>,
    pub discard: Seq<CardProperties>,
    pub hand: Seq<CardProperties>,
}

impl Zones {
    /// All cards of the three zones, each as often as it lies there.
    pub open spec fn cards(self) -> Multiset<CardProperties> {
        self.deck.to_multiset().add(self.discard.to_multiset()).add(self.hand.to_multiset())
    }

    /// The number of cards that can still be drawn before both the deck and
    /// the discard are used up.
    pub open spec fn drawable(self) -> nat {
        self.deck.len() + self.discard.len()
    }

    /// Whether `after` is what the zones are once the discard has gone
    /// behind the deck in some order: the deck keeps its cards in front,
    /// every card of the discard follows exactly once, and the discard is
    /// empty.
    pub open spec fn reshuffles_into(self, after: Zones) -> bool {
        &&& after.hand == self.hand
        &&& after.discard == Seq::<CardProperties>::empty()
        &&& after.deck.len() == self.deck.len() + self.discard.len()
        &&& after.deck.take(self.deck.len() as int) == self.deck
        &&& after.deck.skip(self.deck.len() as int).to_multiset() == self.discard.to_multiset()
    }

    /// Whether `after` is what the zones are once one card has been drawn.
    ///
    /// The card comes off the front of the deck and goes to the end of the
    /// hand. Where the deck is empty the discard is reshuffled into it
    /// first, so that the drawn card and the new deck are the cards of the
    /// old discard; where both are empty nothing is drawn and nothing
    /// changes.
    pub open spec fn draws_one(self, after: Zones) -> bool {
        if self.deck.len() > 0 {
            after == (Zones {
                deck: self.deck.drop_first(),
                discard: self.discard,
                hand: self.hand.push(self.deck.first()),
            })
        } else if self.discard.len() > 0 {
            &&& after.discard == Seq::<CardProperties>::empty()
            &&& after.hand.len() == self.hand.len() + 1
            &&& after.hand.drop_last() == self.hand
            &&& (seq![after.hand.last()] + after.deck).to_multiset() == self.discard.to_multiset()
        } else {
            after == self
        }
    }

    /// Whether `after` is what the zones are once `count` cards have been
    /// drawn one after the other.
    pub open spec fn draws(self, after: Zones, count: nat) -> bool
        decreases count,
    {
        if count == 0 {
            after == self
        } else {
            exists|before_last: Zones|
                self.draws(before_last, (count - 1) as nat) && #[trigger] before_last.draws_one(
                    after,
                )
        }
    }
}

/// Drawing one card moves it from the deck or the discard to the end of the
/// hand: no card is lost or made, and the cards that were in the hand stay
/// in front in their order. After a draw from an empty deck the discard is
/// empty, and its cards are the drawn card and the new deck.
pub proof fn lemma_draws_one(before: Zones, after: Zones)
    requires
        before.draws_one(after),
    ensures
        after.cards() == before.cards(),
        before.drawable() > 0 ==> after.drawable() == before.drawable() - 1 && after.hand.len()
            == before.hand.len() + 1,
        before.drawable() == 0 ==> after == before,
        after.hand.take(before.hand.len() as int) == before.hand,
        before.deck.len() == 0 ==> after.discard.len() == 0,
        before.deck.len() == 0 && before.discard.len() > 0 ==> after.deck.to_multiset().insert(
            after.hand.last(),
        ) == before.discard.to_multiset(),
{
    broadcast use vstd::seq_lib::group_to_multiset_ensures;

    if before.deck.len() > 0 {
        assert(before.deck =~= seq![before.deck.first()] + before.deck.drop_first());
        vstd::seq_lib::lemma_multiset_commutative(
            seq![before.deck.first()],
            before.deck.drop_first(),
        );
        assert(seq![before.deck.first()] =~= Seq::empty().push(before.deck.first()));
        assert(after.cards() =~= before.cards());
        assert(after.hand.take(before.hand.len() as int) =~= before.hand);
    } else if before.discard.len() > 0 {
        let drawn = after.hand.last();
        assert(after.hand =~= before.hand.push(drawn));
        vstd::seq_lib::lemma_multiset_commutative(seq![drawn], after.deck);
        assert(seq![drawn] =~= Seq::empty().push(drawn));
        assert(Seq::<CardProperties>::empty().to_multiset() =~= Multiset::empty());
        assert(before.deck =~= Seq::empty());
        vstd::seq_lib::to_multiset_len(seq![drawn] + after.deck);
        vstd::seq_lib::to_multiset_len(before.discard);
        assert(after.cards() =~= before.cards());
        assert(after.hand.take(before.hand.len() as int) =~= before.hand);
        assert(after.deck.to_multiset().insert(drawn) =~= before.discard.to_multiset());
    } else {
        assert(after.hand.take(before.hand.len() as int) =~= before.hand);
    }
}

/// Drawing `count` cards moves as many cards to the end of the hand as can
/// be drawn, at most `count`: no card is lost or made, and the cards that
/// were in the hand stay in front in their order.
pub proof fn lemma_draws(before: Zones, after: Zones, count: nat)
    requires
        before.draws(after, count),
    ensures
        after.cards() == before.cards(),
        after.hand.len() == before.hand.len() + if count <= before.drawable() {
            count
        } else {
            before.drawable()
        },
        after.drawable() + after.hand.len() == before.drawable() + before.hand.len(),
        after.hand.take(before.hand.len() as int) == before.hand,
    decreases count,
{
    if count == 0 {
        assert(after.hand.take(before.hand.len() as int) =~= before.hand);
    } else {
        let before_last = choose|before_last: Zones|
            before.draws(before_last, (count - 1) as nat) && #[trigger] before_last.draws_one(
                after,
            );
        lemma_draws(before, before_last, (count - 1) as nat);
        lemma_draws_one(before_last, after);
        assert(after.hand.take(before.hand.len() as int) =~= before_last.hand.take(
            before.hand.len() as int,
        )) by {
            assert(after.hand.take(before_last.hand.len() as int).take(before.hand.len() as int)
                =~= after.hand.take(before.hand.len() as int));
        }
    }
}

/// Drawing no more cards than the deck holds takes them off the front of
/// the deck in their order and leaves the discard alone.
pub proof fn lemma_draws_from_deck(before: Zones, after: Zones, count: nat)
    requires
        before.draws(after, count),
        count <= before.deck.len(),
    ensures
        after.deck == before.deck.skip(count as int),
        after.hand == before.hand + before.deck.take(count as int),
        after.discard == before.discard,
    decreases count,
{
    if count == 0 {
        assert(after.deck =~= before.deck.skip(0));
        assert(after.hand =~= before.hand + before.deck.take(0));
    } else {
        let before_last = choose|before_last: Zones|
            before.draws(before_last, (count - 1) as nat) && #[trigger] before_last.draws_one(
                after,
            );
        lemma_draws_from_deck(before, before_last, (count - 1) as nat);
        assert(after.deck =~= before.deck.skip(count as int));
        assert(after.hand =~= before.hand + before.deck.take(count as int));
    }
}

/// Whether a card that says `card` is a treasure that a player in `phase`
/// plays: it is tagged as a treasure and is played in that phase.
pub open spec fn is_played_treasure(card: CardView, phase: PlayerPhases) -> bool {
    card.has_type(CardTypes::Treasure) && card.played_during == phase
}

/// The cards of `cards` that a player in `phase` plays as treasures, in
/// their order.
pub open spec fn treasures_in(cards: Seq<CardProperties>, phase: PlayerPhases) -> Seq<
    CardProperties,
>
    decreases cards.len(),
{
    if cards.len() == 0 {
        Seq::empty()
    } else if is_played_treasure(cards.last()@, phase) {
        treasures_in(cards.drop_last(), phase).push(cards.last())
    } else {
        treasures_in(cards.drop_last(), phase)
    }
}

/// The cards of `cards` that a player in `phase` does not play as
/// treasures, in their order: the cards that are no treasures, and the
/// treasures that are played in another phase.
pub open spec fn others_in(cards: Seq<CardProperties>, phase: PlayerPhases) -> Seq<CardProperties>
    decreases cards.len(),
{
    if cards.len() == 0 {
        Seq::empty()
    } else if is_played_treasure(cards.last()@, phase) {
        others_in(cards.drop_last(), phase)
    } else {
        others_in(cards.drop_last(), phase).push(cards.last())
    }
}

/// The buying power that the treasures which a player in `phase` plays
/// among `cards` grant together.
pub open spec fn treasure_total(cards: Seq<CardProperties>, phase: PlayerPhases) -> int
    decreases cards.len(),
{
    if cards.len() == 0 {
        0
    } else if is_played_treasure(cards.last()@, phase) {
        treasure_total(cards.drop_last(), phase) + cards.last()@.relevant_value()
    } else {
        treasure_total(cards.drop_last(), phase)
    }
}

/// The points that the victory cards among `cards` score together.
pub open spec fn score_of(cards: Seq<CardProperties>) -> int
    decreases cards.len(),
{
    if cards.len() == 0 {
        0
    } else {
        score_of(cards.drop_last()) + cards.last()@.score()
    }
}

/// What a refused play of a card in the wrong phase says was tried.
pub const WRONG_PHASE_MESSAGE: &'static str = "You cannot play a that card at this time.";

/// What a refused play of an action without actions left says was tried.
pub const NO_ACTIONS_MESSAGE: &'static str = "Attempted to play card without actions.";

/// What a refused buy without the buys or the buying power says was tried.
pub const CANNOT_BUY_MESSAGE: &'static str =
    "You are out of buys, or out of money. Wait until next turn!";

/// The reasons for which a buy is refused.
pub enum BuyRefusal {
    /// No pile lies at the index.
    NoPile,
    /// The player has too little buying power, or no buy left.
    CannotPay,
    /// The pile has no card left.
    SoldOut,
}

impl PlayerView {
    /// The deck, the discard and the hand of the player.
    pub open spec fn zones(self) -> Zones {
        Zones { deck: self.deck, discard: self.discard, hand: self.hand }
    }

    /// The player with the deck, the discard and the hand replaced.
    pub open spec fn with_zones(self, zones: Zones) -> PlayerView {
        PlayerView { deck: zones.deck, discard: zones.discard, hand: zones.hand, ..self }
    }

    /// All cards of the player, each as often as the player holds it.
    pub open spec fn cards(self) -> Multiset<CardProperties> {
        self.zones().cards().add(self.in_play.to_multiset())
    }

    /// The number of cards in the four zones together.
    pub open spec fn card_count(self) -> nat {
        self.deck.len() + self.discard.len() + self.hand.len() + self.in_play.len()
    }

    /// Whether `after` is the player once `count` cards have been drawn:
    /// the deck, the discard and the hand have gone through `count` draws
    /// and nothing else has changed.
    pub open spec fn draws(self, after: PlayerView, count: nat) -> bool {
        after == self.with_zones(after.zones()) && self.zones().draws(after.zones(), count)
    }

    /// The player at the end of a turn, before the new hand is drawn: the
    /// cards in play and in the hand lie on the discard, and the resources
    /// are those of a fresh turn.
    pub open spec fn tidied(self) -> PlayerView {
        PlayerView {
            discard: self.in_play + self.hand + self.discard,
            hand: Seq::empty(),
            in_play: Seq::empty(),
            phase: PlayerPhases::Idle,
            buy_power: 0,
            actions_remaining: 1,
            buys: 1,
            ..self
        }
    }

    /// Whether `after` is the player once the turn has been cleaned up and
    /// the new hand drawn.
    pub open spec fn cleans_up_into(self, after: PlayerView) -> bool {
        self.tidied().draws(after, HAND_SIZE as nat)
    }

    /// Whether the resources can take what playing the card at `index` of
    /// the hand adds to them.
    pub open spec fn can_hold_play(self, index: int) -> bool {
        let card = self.hand[index]@;
        let action = card.action_properties;
        if card.played_during != self.phase {
            true
        } else if card.has_type(CardTypes::Treasure) {
            0 <= card.relevant_value() && self.buy_power + card.relevant_value() <= u8::MAX
        } else if card.has_type(CardTypes::Action) && self.actions_remaining > 0 {
            &&& self.actions_remaining + action.added_actions <= u8::MAX
            &&& self.buys + action.added_buys <= u8::MAX
            &&& self.buy_power + action.temp_coin <= u8::MAX
        } else {
            true
        }
    }

    /// Whether playing the card at `index` of the hand is refused, and with
    /// what account of the attempt.
    ///
    /// A card is refused outside the phase in which it is played, and an
    /// action that is not a treasure is refused when no action is left.
    pub open spec fn play_refusal(self, index: int) -> Option<Seq<char>> {
        let card = self.hand[index]@;
        if card.played_during != self.phase {
            Some(WRONG_PHASE_MESSAGE@)
        } else if !card.has_type(CardTypes::Treasure) && card.has_type(CardTypes::Action)
            && self.actions_remaining == 0 {
            Some(NO_ACTIONS_MESSAGE@)
        } else {
            None
        }
    }

    /// Whether `after` is the player once the card at `index` of the hand
    /// has been played.
    ///
    /// A play in the wrong phase changes nothing. A play of an action
    /// without an action left puts the card back at the end of the hand. A
    /// play that succeeds moves the card to the cards in play; a treasure
    /// adds its value to the buying power; an action that is no treasure
    /// uses up one action, adds its actions, buys and coins, and draws its
    /// cards.
    pub open spec fn plays(self, index: int, after: PlayerView) -> bool {
        let card = self.hand[index];
        let action = card@.action_properties;
        if card@.played_during != self.phase {
            after == self
        } else if card@.has_type(CardTypes::Treasure) {
            after == (PlayerView {
                hand: self.hand.remove(index),
                in_play: self.in_play.push(card),
                buy_power: (self.buy_power + card@.relevant_value()) as u8,
                ..self
            })
        } else if card@.has_type(CardTypes::Action) {
            if self.actions_remaining == 0 {
                after == (PlayerView { hand: self.hand.remove(index).push(card), ..self })
            } else {
                (PlayerView {
                    hand: self.hand.remove(index),
                    actions_remaining: (self.actions_remaining + action.added_actions - 1) as u8,
                    buys: (self.buys + action.added_buys) as u8,
                    buy_power: (self.buy_power + action.temp_coin) as u8,
                    in_play: self.in_play.push(card),
                    ..self
                }).draws(after, action.added_cards as nat)
            }
        } else {
            after == (PlayerView {
                hand: self.hand.remove(index),
                in_play: self.in_play.push(card),
                ..self
            })
        }
    }

    /// The player once the treasures of the hand have been played: those
    /// that are played in the phase that the player is in lie with the cards
    /// in play, in the order in which they lay in the hand, and their values
    /// are added to the buying power. Every other card stays in the hand,
    /// also a treasure that is played in another phase.
    pub open spec fn with_treasures_played(self) -> PlayerView {
        PlayerView {
            hand: others_in(self.hand, self.phase),
            in_play: self.in_play + treasures_in(self.hand, self.phase),
            buy_power: (self.buy_power + treasure_total(self.hand, self.phase)) as u8,
            ..self
        }
    }

    /// Whether the buying power can take the treasures of the hand: none of
    /// those that are played in the phase that the player is in grants a
    /// negative value, and their total fits beside the buying power.
    pub open spec fn can_play_treasures(self) -> bool {
        &&& forall|i: int|
            0 <= i < self.hand.len() && is_played_treasure(
                (#[trigger] self.hand[i])@,
                self.phase,
            ) ==> self.hand[i]@.relevant_value() >= 0
        &&& self.buy_power + treasure_total(self.hand, self.phase) <= u8::MAX
    }

    /// The points of the player: those of the victory cards in the deck,
    /// the hand and the discard. Cards in play are not counted.
    pub open spec fn victory_points(self) -> int {
        score_of(self.deck) + score_of(self.hand) + score_of(self.discard)
    }

    /// Whether `after` is the player once a card that says `card` has been
    /// bought: one buy and the price of the card are used up, and the card
    /// lies in front of the discard.
    pub open spec fn gains(self, after: PlayerView, card: CardView) -> bool {
        &&& after == (PlayerView {
            buys: (self.buys - 1) as u8,
            buy_power: (self.buy_power - card.cost) as u8,
            discard: after.discard,
            ..self
        })
        &&& after.discard.len() == self.discard.len() + 1
        &&& after.discard.drop_first() == self.discard
        &&& after.discard.first()@ == card
    }

    /// Why a buy from the pile at `index` of `zone` is refused, if it is.
    ///
    /// The reasons are tested in this order: no pile lies there; the player
    /// has less buying power than the card costs, or no buy left; the pile
    /// has no card left.
    pub open spec fn buy_refusal(self, board: BoardView, index: int, zone: CardSet) -> Option<
        BuyRefusal,
    > {
        if !board.has_pile(zone, index) {
            Some(BuyRefusal::NoPile)
        } else if self.buy_power < board.piles(zone)[index].card_creator.card().cost || self.buys
            == 0 {
            Some(BuyRefusal::CannotPay)
        } else if board.piles(zone)[index].cards_left == 0 {
            Some(BuyRefusal::SoldOut)
        } else {
            None
        }
    }

    /// Whether `after` is the player once the phase has been advanced.
    ///
    /// The idle phase gives way to the action phase and that to the buy
    /// phase; advancing out of the buy phase cleans the turn up, draws the
    /// new hand and rests in the idle phase.
    pub open spec fn advances_into(self, after: PlayerView) -> bool {
        if self.phase == PlayerPhases::Buy {
            self.cleans_up_into(after)
        } else {
            after == (PlayerView { phase: self.phase.next(), ..self })
        }
    }
}

/// Puts the cards of `cards` in an order drawn at random.
///
/// Calls `shuffle` of `rand::seq::SliceRandom` on the contiguous slice of
/// the queue, with the generator of `rand::thread_rng`. The contract is
/// believed, not proved: the shuffle only swaps elements of the slice, so
/// whatever the order that comes out, each card is in the queue as often as
/// before. The generator is seeded by the operating system when a thread
/// first uses it, and the call fails only where the system cannot seed it.
#[verifier::external_body]
fn shuffle_cards(cards: &mut VecDeque<CardProperties>)
    ensures
        final(cards)@.to_multiset() == old(cards)@.to_multiset(),
{
    cards.make_contiguous().shuffle(&mut thread_rng());
}

impl Player {
    /// Returns a player who holds `deck` and nothing else, waits in the
    /// idle phase and has the resources of a fresh turn.
    pub fn new(deck: VecDeque<CardProperties>) -> (player: Player)
        ensures
            player@ == (PlayerView {
                name: "No name supplied."@,
                deck: deck@,
                discard: Seq::empty(),
                hand: Seq::empty(),
                in_play: Seq::empty(),
                phase: PlayerPhases::Idle,
                buy_power: 0,
                actions_remaining: 1,
                buys: 1,
            }),
    {
        Player {
            name: String::from_str("No name supplied."),
            deck: deck,
            discard: VecDeque::new(),
            hand: Vec::new(),
            in_play: Vec::new(),
            phase: PlayerPhases::Idle,
            buy_power: 0,
            actions_remaining: 1,
            buys: 1,
        }
    }

    /// Ends the turn: moves the hand and the cards in play to the discard,
    /// draws a new hand of five cards, as far as the player has cards to
    /// draw, and gives the player the resources of a fresh turn in the idle
    /// phase.
    pub fn cleanup_and_draw(&mut self)
        ensures
            old(self)@.cleans_up_into(final(self)@),
            final(self)@.cards() == old(self)@.cards(),
            final(self)@.card_count() == old(self)@.card_count(),
            final(self)@.hand.len() == if old(self)@.card_count() < HAND_SIZE {
                old(self)@.card_count()
            } else {
                HAND_SIZE as nat
            },
    {
        self.phase = PlayerPhases::Idle;
        while self.hand.len() > 0
            invariant
                self.hand@.len() <= old(self)@.hand.len(),
                self.hand@ == old(self)@.hand.take(self.hand@.len() as int),
                self.discard@ == old(self)@.hand.skip(self.hand@.len() as int) + old(
                    self,
                )@.discard,
                self@ == (PlayerView {
                    hand: self.hand@,
                    discard: self.discard@,
                    phase: PlayerPhases::Idle,
                    ..old(self)@
                }),
            decreases self.hand@.len(),
        {
            let card = self.hand.pop().unwrap();
            self.discard.push_front(card);
            assert(self.hand@ =~= old(self)@.hand.take(self.hand@.len() as int));
            assert(self.discard@ =~= old(self)@.hand.skip(self.hand@.len() as int) + old(
                self,
            )@.discard);
        }
        let ghost hand_down = self.discard@;
        assert(hand_down =~= old(self)@.hand + old(self)@.discard);
        assert(self.hand@ =~= Seq::empty());
        assert(self.in_play@ =~= old(self)@.in_play.take(self.in_play@.len() as int));
        assert(self.discard@ =~= old(self)@.in_play.skip(self.in_play@.len() as int) + hand_down);
        while self.in_play.len() > 0
            invariant
                self.in_play@.len() <= old(self)@.in_play.len(),
                self.in_play@ == old(self)@.in_play.take(self.in_play@.len() as int),
                self.discard@ == old(self)@.in_play.skip(self.in_play@.len() as int) + hand_down,
                self@ == (PlayerView {
                    hand: Seq::empty(),
                    in_play: self.in_play@,
                    discard: self.discard@,
                    phase: PlayerPhases::Idle,
                    ..old(self)@
                }),
            decreases self.in_play@.len(),
        {
            let card = self.in_play.pop().unwrap();
            self.discard.push_front(card);
            assert(self.in_play@ =~= old(self)@.in_play.take(self.in_play@.len() as int));
            assert(self.discard@ =~= old(self)@.in_play.skip(self.in_play@.len() as int)
                + hand_down);
        }
        assert(self.discard@ =~= old(self)@.in_play + old(self)@.hand + old(self)@.discard);
        assert(self.hand@ =~= Seq::empty());
        assert(self.in_play@ =~= Seq::empty());
        let ghost down = self@;
        let mut drawn: u8 = 0;
        while drawn < HAND_SIZE
            invariant
                drawn <= HAND_SIZE,
                down.draws(self@, drawn as nat),
            decreases HAND_SIZE - drawn,
        {
            let ghost before = self@;
            self.draw_card();
            drawn += 1;
            assert(down.zones().draws(self@.zones(), drawn as nat)) by {
                assert(before.zones().draws_one(self@.zones()));
            }
        }
        self.buy_power = 0;
        self.actions_remaining = 1;
        self.phase = PlayerPhases::Idle;
        self.buys = 1;
        proof {
            let tidied = old(self)@.tidied();
            assert(tidied.zones() == down.zones());
            lemma_draws(tidied.zones(), self@.zones(), HAND_SIZE as nat);
            lemma_tidied_keeps_cards(old(self)@);
        }
    }

    /// Plays the card at `hand_index` of the hand.
    ///
    /// The play is refused, and nothing changes, unless the card is played
    /// in the phase that the player is in. A treasure then moves to the
    /// cards in play and adds its value to the buying power. An action
    /// moves there too, uses up one action, adds its actions, buys and
    /// coins and draws its cards; without an action left it is refused and
    /// goes back to the end of the hand. Any other card just moves to the
    /// cards in play.
    pub fn play_card(&mut self, hand_index: usize) -> (refused: Option<GameErrors>)
        requires
            hand_index < old(self)@.hand.len(),
            old(self)@.can_hold_play(hand_index as int),
        ensures
            old(self)@.plays(hand_index as int, final(self)@),
            match old(self)@.play_refusal(hand_index as int) {
                Some(attempted) => refused is Some && refused->Some_0.is_invalid_action(attempted),
                None => refused is None,
            },
            final(self)@.cards() == old(self)@.cards(),
            final(self)@.card_count() == old(self)@.card_count(),
    {
        let playable = *self.hand[hand_index].get_playing_phase() == self.phase;
        if playable {
            let card = self.hand.remove(hand_index);
            let ghost taken = self@;
            proof {
                lemma_remove_keeps_cards(old(self)@.hand, hand_index as int);
            }
            if card.has_type(CardTypes::Treasure) {
                self.buy_power += card.get_relevant_value() as u8;
            } else if card.has_type(CardTypes::Action) {
                if self.actions_remaining >= 1 {
                    let props = card.get_action_properties();
                    self.actions_remaining += props.added_actions;
                    self.buys += props.added_buys;
                    self.buy_power += props.temp_coin;
                    let ghost ready = self@;
                    let mut drawn: u8 = 0;
                    while drawn < props.added_cards
                        invariant
                            drawn <= props.added_cards,
                            ready.draws(self@, drawn as nat),
                        decreases props.added_cards - drawn,
                    {
                        let ghost before = self@;
                        self.draw_card();
                        drawn += 1;
                        assert(ready.zones().draws(self@.zones(), drawn as nat)) by {
                            assert(before.zones().draws_one(self@.zones()));
                        }
                    }
                    self.actions_remaining -= 1;
                    proof {
                        lemma_draws(ready.zones(), self@.zones(), props.added_cards as nat);
                    }
                } else {
                    self.hand.push(card);
                    proof {
                        broadcast use vstd::seq_lib::group_to_multiset_ensures;

                        assert(self@.cards() =~= old(self)@.cards());
                    }
                    return Some(
                        GameErrors::InvalidActionError(
                            InvalidActionError {
                                action_attempted: String::from_str(NO_ACTIONS_MESSAGE),
                            },
                        ),
                    );
                }
            }
            self.in_play.push(card);
            proof {
                broadcast use vstd::seq_lib::group_to_multiset_ensures;

                assert(self@.cards() =~= old(self)@.cards());
            }
            None
        } else {
            Some(
                GameErrors::InvalidActionError(
                    InvalidActionError { action_attempted: String::from_str(WRONG_PHASE_MESSAGE) },
                ),
            )
        }
    }

    /// Buys a card from the pile at `pile_index` of zone `c` of the board.
    ///
    /// The buy is refused where no pile lies there, where the player has no
    /// buy left or less buying power than the card costs, and where the pile
    /// has no card left. A refused buy changes nothing: neither the player
    /// nor the board nor the log. A buy that succeeds uses up one buy and as
    /// much buying power as the card costs, puts the card on the discard,
    /// and records the buy in the log.
    pub fn buy_card(
        &mut self,
        board: &mut Board,
        log: &mut PlayerMiddleware,
        pile_index: usize,
        c: CardSet,
    ) -> (refused: Option<GameErrors>)
        ensures
            match old(self)@.buy_refusal(old(board)@, pile_index as int, c) {
                Some(BuyRefusal::NoPile) => refused is Some && refused->Some_0.is_card_not_found(
                    pile_index,
                ),
                Some(BuyRefusal::CannotPay) => refused is Some
                    && refused->Some_0.is_invalid_action(CANNOT_BUY_MESSAGE@),
                Some(BuyRefusal::SoldOut) => refused is Some && refused->Some_0.is_out_of_cards(),
                None => refused is None,
            },
            refused is Some ==> final(self)@ == old(self)@ && final(board)@ == old(board)@
                && final(log)@ == old(log)@,
            refused is None ==> {
                let pile = old(board)@.piles(c)[pile_index as int];
                &&& final(board)@ == old(board)@.after_draw(c, pile_index as int)
                &&& final(log)@ == old(log)@.with_entry(
                    bought_message(old(self)@.name, pile.card_creator.card().name),
                )
                &&& old(self)@.gains(final(self)@, pile.card_creator.card())
                &&& final(self)@.cards() == old(self)@.cards().insert(final(self)@.discard.first())
                &&& final(self)@.card_count() + final(board)@.card_count() == old(
                    self,
                )@.card_count() + old(board)@.card_count()
            },
    {
        let price = board.get_card_price(pile_index, c);
        let cost: i32 = match price {
            Ok(x) => {
                if (self.buy_power as i32) < x || self.buys == 0 {
                    return Some(
                        GameErrors::InvalidActionError(
                            InvalidActionError {
                                action_attempted: String::from_str(CANNOT_BUY_MESSAGE),
                            },
                        ),
                    );
                }
                x
            },
            Err(error) => {
                return Some(error);
            },
        };
        let result = board.buy_card(pile_index, c);
        match result {
            Ok(x) => {
                proof {
                    let pile = old(board)@.piles(c)[pile_index as int];
                    assert(in_catalog(pile.card_creator.card()));
                    lemma_catalog_bounds(pile.card_creator.card());
                    lemma_board_after_draw(old(board)@, c, pile_index as int);
                }
                self.buys -= 1;
                self.buy_power -= cost as u8;
                log.bought_card_middleware(self.name.clone(), x.get_name().clone());
                self.discard.push_front(x);
                proof {
                    broadcast use vstd::seq_lib::group_to_multiset_ensures;

                    assert(self.discard@.drop_first() =~= old(self)@.discard);
                    vstd::seq_lib::lemma_multiset_commutative(seq![x], old(self)@.discard);
                    assert(seq![x] =~= Seq::empty().push(x));
                    assert(self@.cards() =~= old(self)@.cards().insert(x));
                }
                None
            },
            Err(error) => Some(error),
        }
    }

    /// Shuffles the discard and puts its cards behind those of the deck.
    fn shuffle_and_prepend_discard(&mut self)
        ensures
            old(self)@.zones().reshuffles_into(final(self)@.zones()),
            final(self)@ == old(self)@.with_zones(final(self)@.zones()),
    {
        shuffle_cards(&mut self.discard);
        let ghost shuffled = self.discard@;
        let ghost deck = self.deck@;
        proof {
            vstd::seq_lib::to_multiset_len(shuffled);
            vstd::seq_lib::to_multiset_len(old(self)@.discard);
        }
        while self.discard.len() > 0
            invariant
                self.discard@.len() <= shuffled.len(),
                self.discard@ == shuffled.skip(shuffled.len() - self.discard@.len()),
                self.deck@ == deck + shuffled.take(shuffled.len() - self.discard@.len()),
                self@ == (PlayerView { deck: self.deck@, discard: self.discard@, ..old(self)@ }),
            decreases self.discard@.len(),
        {
            let ghost moved = shuffled.len() - self.discard@.len();
            let card = self.discard.pop_front().unwrap();
            self.deck.push_back(card);
            assert(self.discard@ =~= shuffled.skip(moved + 1));
            assert(self.deck@ =~= deck + shuffled.take(moved + 1));
        }
        proof {
            assert(self.deck@ =~= deck + shuffled);
            assert(self.deck@.take(deck.len() as int) =~= deck);
            assert(self.deck@.skip(deck.len() as int) =~= shuffled);
            assert(self.discard@ =~= Seq::empty());
        }
    }

    /// Draws one card into the hand.
    ///
    /// The card comes off the front of the deck. Where the deck is empty
    /// the discard is shuffled and becomes the deck first. Where the player
    /// has no card left to draw, nothing happens: that is no error.
    pub fn draw_card(&mut self)
        ensures
            old(self)@.zones().draws_one(final(self)@.zones()),
            final(self)@ == old(self)@.with_zones(final(self)@.zones()),
            final(self)@.cards() == old(self)@.cards(),
            final(self)@.card_count() == old(self)@.card_count(),
    {
        let option_card = self.deck.pop_front();
        match option_card {
            Some(card) => {
                self.hand.push(card);
                assert(self.deck@ =~= old(self)@.deck.drop_first());
            },
            None => {
                self.shuffle_and_prepend_discard();
                let ghost reshuffled = self@;
                if self.deck.len() != 0 {
                    let guarantee_card = self.deck.pop_front().unwrap();
                    self.hand.push(guarantee_card);
                    proof {
                        assert(self.hand@.drop_last() =~= old(self)@.hand);
                        assert(seq![self.hand@.last()] + self.deck@ =~= reshuffled.deck);
                        assert(reshuffled.deck.skip(0) =~= reshuffled.deck);
                    }
                } else {
                    assert(self.deck@ =~= old(self)@.deck);
                    assert(self.discard@ =~= old(self)@.discard);
                }
            },
        }
        proof {
            lemma_draws_one(old(self)@.zones(), self@.zones());
        }
    }

    /// Tells whether `play_card` may be called with `hand_index`: whether a
    /// card lies there and the resources can take what playing it adds.
    pub fn can_play_card(&self, hand_index: usize) -> (fits: bool)
        ensures
            fits == (hand_index < self@.hand.len() && self@.can_hold_play(hand_index as int)),
    {
        if hand_index >= self.hand.len() {
            return false;
        }
        let card = &self.hand[hand_index];
        if *card.get_playing_phase() != self.phase {
            true
        } else if card.has_type(CardTypes::Treasure) {
            let value: i32 = card.get_relevant_value();
            let room: i32 = 255 - self.buy_power as i32;
            0 <= value && value <= room
        } else if card.has_type(CardTypes::Action) && self.actions_remaining > 0 {
            let props = card.get_action_properties();
            props.added_actions <= 255 - self.actions_remaining && props.added_buys <= 255
                - self.buys && props.temp_coin <= 255 - self.buy_power
        } else {
            true
        }
    }

    /// Tells whether `play_treasures` may be called: whether none of the
    /// treasures that are played in the phase that the player is in grants a
    /// negative value, and the buying power can take their total.
    pub fn can_play_treasures(&self) -> (fits: bool)
        ensures
            fits == self@.can_play_treasures(),
    {
        let mut room: i32 = 255 - self.buy_power as i32;
        let mut i: usize = 0;
        while i < self.hand.len()
            invariant
                i <= self.hand@.len(),
                0 <= room,
                room == 255 - self.buy_power - treasure_total(
                    self.hand@.take(i as int),
                    self.phase,
                ),
                forall|j: int|
                    0 <= j < i && is_played_treasure((#[trigger] self.hand@[j])@, self.phase)
                        ==> self.hand@[j]@.relevant_value() >= 0,
            decreases self.hand@.len() - i,
        {
            let card = &self.hand[i];
            proof {
                assert(self.hand@.take(i + 1).drop_last() =~= self.hand@.take(i as int));
            }
            if card.has_type(CardTypes::Treasure) && *card.get_playing_phase() == self.phase {
                let value: i32 = card.get_relevant_value();
                if value < 0 {
                    return false;
                }
                if value > room {
                    proof {
                        if self@.can_play_treasures() {
                            lemma_treasure_total_of_prefix(self.hand@, self.phase, i + 1);
                        }
                    }
                    return false;
                }
                room -= value;
            }
            i += 1;
        }
        proof {
            assert(self.hand@.take(i as int) =~= self.hand@);
        }
        true
    }

    /// Plays the treasures of the hand, from the first card to the last.
    ///
    /// Every treasure is tried. One that is played in the phase that the
    /// player is in moves to the cards in play and adds its value to the
    /// buying power. One that is played in another phase is refused and
    /// stays where it is, as every card does that is no treasure; outside
    /// the buy phase the treasures of the catalog all stay, and nothing
    /// changes.
    pub fn play_treasures(&mut self)
        requires
            old(self)@.can_play_treasures(),
        ensures
            final(self)@ == old(self)@.with_treasures_played(),
            final(self)@.cards() == old(self)@.cards(),
            final(self)@.card_count() == old(self)@.card_count(),
    {
        let mut i: usize = 0;
        let ghost hand = old(self)@.hand;
        let ghost phase = old(self)@.phase;
        let ghost seen: int = 0;
        proof {
            assert(hand.take(0) =~= Seq::empty());
            assert(self.hand@ =~= others_in(hand.take(0), phase) + hand.skip(0));
            assert(self.in_play@ =~= old(self)@.in_play + treasures_in(hand.take(0), phase));
        }
        while i < self.hand.len()
            invariant
                0 <= seen <= hand.len(),
                hand == old(self)@.hand,
                phase == old(self)@.phase,
                old(self)@.can_play_treasures(),
                i == others_in(hand.take(seen), phase).len(),
                self.hand@ == others_in(hand.take(seen), phase) + hand.skip(seen),
                self.in_play@ == old(self)@.in_play + treasures_in(hand.take(seen), phase),
                self.buy_power == old(self)@.buy_power + treasure_total(hand.take(seen), phase),
                self@ == (PlayerView {
                    hand: self.hand@,
                    in_play: self.in_play@,
                    buy_power: self.buy_power,
                    ..old(self)@
                }),
                self@.cards() == old(self)@.cards(),
                self@.card_count() == old(self)@.card_count(),
            decreases hand.len() - seen,
        {
            proof {
                assert(seen < hand.len());
                lemma_treasure_step(hand, phase, seen);
                lemma_treasure_total_of_prefix(hand, phase, seen + 1);
            }
            if self.hand[i].has_type(CardTypes::Treasure) {
                let refused = self.play_card(i);
                if refused.is_some() {
                    i += 1;
                }
            } else {
                i += 1;
            }
            proof {
                seen = seen + 1;
            }
        }
        proof {
            assert(hand.skip(seen) =~= Seq::empty());
            assert(hand.take(seen) =~= hand);
            assert(self.hand@ =~= others_in(hand, phase));
        }
    }

    /// Puts the deck in an order drawn at random; the deck keeps its cards.
    pub fn shuffle_deck(&mut self)
        ensures
            final(self)@ == (PlayerView { deck: final(self)@.deck, ..old(self)@ }),
            final(self)@.deck.to_multiset() == old(self)@.deck.to_multiset(),
            final(self)@.cards() == old(self)@.cards(),
            final(self)@.card_count() == old(self)@.card_count(),
    {
        shuffle_cards(&mut self.deck);
        proof {
            vstd::seq_lib::to_multiset_len(self@.deck);
            vstd::seq_lib::to_multiset_len(old(self)@.deck);
        }
    }

    /// Moves the player on to the next phase.
    ///
    /// The idle phase gives way to the action phase and that to the buy
    /// phase. Advancing out of the buy phase ends the turn: the player
    /// cleans up, draws the new hand and rests in the idle phase.
    pub fn advance_phase(&mut self)
        ensures
            old(self)@.advances_into(final(self)@),
            final(self)@.phase == old(self)@.phase.next(),
            final(self)@.cards() == old(self)@.cards(),
            final(self)@.card_count() == old(self)@.card_count(),
    {
        match self.phase {
            PlayerPhases::Idle => {
                self.phase = PlayerPhases::Action;
            },
            PlayerPhases::Action => {
                self.phase = PlayerPhases::Buy;
            },
            PlayerPhases::Buy => {
                self.phase = PlayerPhases::Cleanup;
                proof {
                    assert(self@.tidied() == old(self)@.tidied());
                    assert(self@.cards() == old(self)@.cards());
                }
                self.cleanup_and_draw();
            },
            PlayerPhases::Cleanup => {
                self.phase = PlayerPhases::Idle;
            },
            _ => {},
        }
    }

    /// Returns what `card` adds to a score.
    fn card_score(card: &CardProperties) -> (score: i32)
        ensures
            score == card@.score(),
    {
        if card.has_type(CardTypes::Victory) {
            card.get_relevant_value()
        } else {
            0
        }
    }

    /// Counts the points of the player: those of the victory cards in the
    /// deck, the hand and the discard. Cards in play are not counted.
    pub fn count_victory_points(&self) -> (points: i32)
        requires
            i32::MIN <= self@.victory_points() <= i32::MAX,
        ensures
            points == self@.victory_points(),
    {
        let mut vp: i128 = 0;
        let mut i: usize = 0;
        while i < self.deck.len()
            invariant
                i <= self.deck@.len(),
                vp == score_of(self.deck@.take(i as int)),
                -(i as int) * 0x8000_0000 <= vp <= (i as int) * 0x8000_0000,
            decreases self.deck@.len() - i,
        {
            assert(self.deck@.take(i + 1).drop_last() =~= self.deck@.take(i as int));
            vp += Player::card_score(&self.deck[i]) as i128;
            i += 1;
        }
        assert(self.deck@.take(i as int) =~= self.deck@);
        let ghost in_deck: int = vp as int;
        let mut j: usize = 0;
        while j < self.hand.len()
            invariant
                j <= self.hand@.len(),
                vp == in_deck + score_of(self.hand@.take(j as int)),
                -(usize::MAX as int) * 0x8000_0000 <= in_deck <= (usize::MAX as int) * 0x8000_0000,
                -(j as int) * 0x8000_0000 <= vp - in_deck <= (j as int) * 0x8000_0000,
            decreases self.hand@.len() - j,
        {
            assert(self.hand@.take(j + 1).drop_last() =~= self.hand@.take(j as int));
            vp += Player::card_score(&self.hand[j]) as i128;
            j += 1;
        }
        assert(self.hand@.take(j as int) =~= self.hand@);
        let ghost in_hand: int = vp as int;
        let mut k: usize = 0;
        while k < self.discard.len()
            invariant
                k <= self.discard@.len(),
                vp == in_hand + score_of(self.discard@.take(k as int)),
                -2 * (usize::MAX as int) * 0x8000_0000 <= in_hand <= 2 * (usize::MAX as int)
                    * 0x8000_0000,
                -(k as int) * 0x8000_0000 <= vp - in_hand <= (k as int) * 0x8000_0000,
            decreases self.discard@.len() - k,
        {
            assert(self.discard@.take(k + 1).drop_last() =~= self.discard@.take(k as int));
            vp += Player::card_score(&self.discard[k]) as i128;
            k += 1;
        }
        assert(self.discard@.take(k as int) =~= self.discard@);
        vp as i32
    }

    /// Returns the cards in the hand, in their order.
    pub fn get_hand(&self) -> (hand: &Vec<CardProperties>)
        ensures
            hand@ == self@.hand,
    {
        &self.hand
    }

    /// Returns the number of actions left in this turn.
    pub fn get_actions(&self) -> (actions: u8)
        ensures
            actions == self@.actions_remaining,
    {
        self.actions_remaining
    }

    /// Returns the buying power gathered in this turn and not yet spent.
    pub fn get_buying_power(&self) -> (buying_power: u8)
        ensures
            buying_power == self@.buy_power,
    {
        self.buy_power
    }

    /// Returns the points of the player, as `count_victory_points` does.
    pub fn get_victory_points(&self) -> (points: i32)
        requires
            i32::MIN <= self@.victory_points() <= i32::MAX,
        ensures
            points == self@.victory_points(),
    {
        self.count_victory_points()
    }

    /// Returns the number of buys left in this turn.
    pub fn get_buys(&self) -> (buys: u8)
        ensures
            buys == self@.buys,
    {
        self.buys
    }

    /// Returns the phase that the player is in.
    pub fn get_phase(&self) -> (phase: PlayerPhases)
        ensures
            phase == self@.phase,
    {
        self.phase
    }

    /// Ends the turn, as `cleanup_and_draw` does.
    pub fn end_turn(&mut self)
        ensures
            old(self)@.cleans_up_into(final(self)@),
            final(self)@.cards() == old(self)@.cards(),
            final(self)@.card_count() == old(self)@.card_count(),
    {
        self.cleanup_and_draw();
    }
}

/// The number of cards in the four zones is the size of the multiset of the
/// player's cards.
pub proof fn lemma_card_count(player: PlayerView)
    ensures
        player.cards().len() == player.card_count(),
{
    broadcast use vstd::multiset::group_multiset_axioms;

    vstd::seq_lib::to_multiset_len(player.deck);
    vstd::seq_lib::to_multiset_len(player.discard);
    vstd::seq_lib::to_multiset_len(player.hand);
    vstd::seq_lib::to_multiset_len(player.in_play);
}

/// Taking one card off a pile lowers the number of cards on the board by
/// one.
pub proof fn lemma_board_after_draw(board: BoardView, zone: CardSet, index: int)
    requires
        board.has_pile(zone, index),
        board.piles(zone)[index].cards_left > 0,
    ensures
        board.after_draw(zone, index).card_count() == board.card_count() - 1,
{
    lemma_stock_after_draw(board.piles(zone), index);
}

/// The commands and questions of the human player, as a display needs them.
///
/// An implementor says when it is ready for commands and which plays its
/// resources can hold; the commands ask for that and keep it ready.
pub trait PlayerUIInterface {
    /// Whether the commands may be given.
    spec fn ready(&self) -> bool;

    /// Whether a card lies at `index` of the hand and the resources can take
    /// what playing it adds.
    spec fn can_play(&self, index: int) -> bool;

    /// Whether the buying power can take the treasures of the hand.
    spec fn can_play_all_treasures(&self) -> bool;

    fn play_ui_card(&mut self, index: usize) -> (refused: Option<GameErrors>)
        requires
            old(self).ready(),
            old(self).can_play(index as int),
        ensures
            final(self).ready(),
    ;

    fn buy_ui_card(&mut self, index: usize, set: CardSet) -> (refused: Option<GameErrors>)
        requires
            old(self).ready(),
        ensures
            final(self).ready(),
    ;

    fn advance_ui_phase(&mut self)
        requires
            old(self).ready(),
        ensures
            final(self).ready(),
    ;

    fn get_hand(&self) -> &Vec<CardProperties>;

    fn get_actions(&self) -> u8;

    fn get_buying_power(&self) -> u8;

    fn get_victory_points(&self) -> i32
        requires
            self.ready(),
    ;

    fn get_buys(&self) -> u8;

    fn end_turn(&mut self)
        requires
            old(self).ready(),
        ensures
            final(self).ready(),
    ;

    fn get_phase(&self) -> PlayerPhases;

    fn play_all_treasures_ui(&mut self)
        requires
            old(self).ready(),
            old(self).can_play_all_treasures(),
        ensures
            final(self).ready(),
    ;
}

/// Moving the hand and the cards in play to the discard keeps every card.
pub proof fn lemma_tidied_keeps_cards(player: PlayerView)
    ensures
        player.tidied().cards() == player.cards(),
        player.tidied().card_count() == player.card_count(),
{
    broadcast use vstd::seq_lib::group_to_multiset_ensures;

    vstd::seq_lib::lemma_multiset_commutative(player.in_play, player.hand);
    vstd::seq_lib::lemma_multiset_commutative(player.in_play + player.hand, player.discard);
    assert(Seq::<CardProperties>::empty().to_multiset() =~= Multiset::empty());
    assert(player.tidied().cards() =~= player.cards());
}

/// A sequence holds the cards that are left when one is removed, and the
/// removed card.
pub proof fn lemma_remove_keeps_cards(cards: Seq<CardProperties>, index: int)
    requires
        0 <= index < cards.len(),
    ensures
        cards.remove(index).to_multiset().insert(cards[index]) == cards.to_multiset(),
{
    broadcast use vstd::seq_lib::group_to_multiset_ensures;

    assert(cards.to_multiset().count(cards[index]) > 0) by {
        assert(cards.contains(cards[index]));
    }
    assert(cards.remove(index).to_multiset().insert(cards[index]) =~= cards.to_multiset());
}

/// The cards of a hand that are played as treasures and those that are not
/// are, together, the cards of the hand.
pub proof fn lemma_split_keeps_cards(cards: Seq<CardProperties>, phase: PlayerPhases)
    ensures
        others_in(cards, phase).to_multiset().add(treasures_in(cards, phase).to_multiset())
            == cards.to_multiset(),
    decreases cards.len(),
{
    broadcast use vstd::seq_lib::group_to_multiset_ensures;

    if cards.len() == 0 {
        assert(others_in(cards, phase).to_multiset().add(
            treasures_in(cards, phase).to_multiset(),
        ) =~= cards.to_multiset());
    } else {
        lemma_split_keeps_cards(cards.drop_last(), phase);
        assert(cards =~= cards.drop_last().push(cards.last()));
        assert(others_in(cards, phase).to_multiset().add(
            treasures_in(cards, phase).to_multiset(),
        ) =~= cards.drop_last().to_multiset().insert(cards.last()));
    }
}

/// Playing the treasures of the hand keeps every card of the player.
pub proof fn lemma_treasures_played_keeps_cards(player: PlayerView)
    ensures
        player.with_treasures_played().cards() == player.cards(),
        player.with_treasures_played().card_count() == player.card_count(),
{
    lemma_split_keeps_cards(player.hand, player.phase);
    vstd::seq_lib::lemma_multiset_commutative(
        player.in_play,
        treasures_in(player.hand, player.phase),
    );
    assert(player.with_treasures_played().cards() =~= player.cards());
    lemma_card_count(player);
    lemma_card_count(player.with_treasures_played());
}

/// A hand without a treasure that is played in the phase that the player is
/// in is left as it is when the treasures are played: so is every hand of
/// cards whose treasures are played in the buy phase, outside the buy phase.
pub proof fn lemma_no_treasure_to_play(player: PlayerView)
    requires
        forall|i: int|
            0 <= i < player.hand.len() ==> !is_played_treasure(
                (#[trigger] player.hand[i])@,
                player.phase,
            ),
    ensures
        player.with_treasures_played() == player,
        player.can_play_treasures(),
{
    lemma_nothing_played(player.hand, player.phase);
    assert(player.in_play + Seq::<CardProperties>::empty() =~= player.in_play);
}

/// Cards of which a player in `phase` plays none as a treasure all stay,
/// and grant nothing.
pub proof fn lemma_nothing_played(cards: Seq<CardProperties>, phase: PlayerPhases)
    requires
        forall|i: int| 0 <= i < cards.len() ==> !is_played_treasure((#[trigger] cards[i])@, phase),
    ensures
        others_in(cards, phase) == cards,
        treasures_in(cards, phase) == Seq::<CardProperties>::empty(),
        treasure_total(cards, phase) == 0,
    decreases cards.len(),
{
    if cards.len() > 0 {
        lemma_nothing_played(cards.drop_last(), phase);
        assert(cards.drop_last().push(cards.last()) =~= cards);
    } else {
        assert(others_in(cards, phase) =~= cards);
    }
}

/// Playing a card, whether the play is refused or not, keeps every card of
/// the player.
pub proof fn lemma_plays_keeps_cards(before: PlayerView, index: int, after: PlayerView)
    requires
        0 <= index < before.hand.len(),
        before.plays(index, after),
    ensures
        after.cards() == before.cards(),
        after.card_count() == before.card_count(),
{
    broadcast use vstd::seq_lib::group_to_multiset_ensures;

    let card = before.hand[index];
    let action = card@.action_properties;
    lemma_remove_keeps_cards(before.hand, index);
    if card@.played_during != before.phase {
    } else if !card@.has_type(CardTypes::Treasure) && card@.has_type(CardTypes::Action) {
        if before.actions_remaining == 0 {
            assert(after.cards() =~= before.cards());
        } else {
            let ready = PlayerView {
                hand: before.hand.remove(index),
                actions_remaining: (before.actions_remaining + action.added_actions - 1) as u8,
                buys: (before.buys + action.added_buys) as u8,
                buy_power: (before.buy_power + action.temp_coin) as u8,
                in_play: before.in_play.push(card),
                ..before
            };
            assert(ready.cards() =~= before.cards());
            lemma_draws(ready.zones(), after.zones(), action.added_cards as nat);
        }
    } else {
        assert(after.cards() =~= before.cards());
    }
    lemma_card_count(before);
    lemma_card_count(after);
}

/// Ending a turn keeps every card of the player.
pub proof fn lemma_cleans_up_keeps_cards(before: PlayerView, after: PlayerView)
    requires
        before.cleans_up_into(after),
    ensures
        after.cards() == before.cards(),
        after.card_count() == before.card_count(),
{
    lemma_tidied_keeps_cards(before);
    lemma_draws(before.tidied().zones(), after.zones(), HAND_SIZE as nat);
    lemma_card_count(before);
    lemma_card_count(after);
}

/// Advancing the phase keeps every card of the player.
pub proof fn lemma_advances_keeps_cards(before: PlayerView, after: PlayerView)
    requires
        before.advances_into(after),
    ensures
        after.cards() == before.cards(),
        after.card_count() == before.card_count(),
        after.phase == before.phase.next(),
        after.name == before.name,
{
    if before.phase == PlayerPhases::Buy {
        lemma_cleans_up_keeps_cards(before, after);
        lemma_draws(before.tidied().zones(), after.zones(), HAND_SIZE as nat);
    }
}

/// A bought card is one card more for the player, and no other card
/// changes.
pub proof fn lemma_gains_one_card(before: PlayerView, after: PlayerView, card: CardView)
    requires
        before.gains(after, card),
    ensures
        after.cards() == before.cards().insert(after.discard.first()),
        after.card_count() == before.card_count() + 1,
{
    broadcast use vstd::seq_lib::group_to_multiset_ensures;

    let bought = after.discard.first();
    assert(after.discard =~= seq![bought] + before.discard);
    vstd::seq_lib::lemma_multiset_commutative(seq![bought], before.discard);
    assert(seq![bought] =~= Seq::empty().push(bought));
    assert(after.cards() =~= before.cards().insert(bought));
}

/// How the played treasures and the other cards of a prefix grow when the
/// prefix takes in the card at `seen`, and what that means for a hand that
/// holds the other cards of the prefix in front of the cards from `seen` on.
pub proof fn lemma_treasure_step(hand: Seq<CardProperties>, phase: PlayerPhases, seen: int)
    requires
        0 <= seen < hand.len(),
    ensures
        (others_in(hand.take(seen), phase) + hand.skip(seen))[others_in(
            hand.take(seen),
            phase,
        ).len() as int] == hand[seen],
        is_played_treasure(hand[seen]@, phase) ==> {
            &&& others_in(hand.take(seen + 1), phase) == others_in(hand.take(seen), phase)
            &&& treasures_in(hand.take(seen + 1), phase) == treasures_in(
                hand.take(seen),
                phase,
            ).push(hand[seen])
            &&& treasure_total(hand.take(seen + 1), phase) == treasure_total(
                hand.take(seen),
                phase,
            ) + hand[seen]@.relevant_value()
            &&& (others_in(hand.take(seen), phase) + hand.skip(seen)).remove(
                others_in(hand.take(seen), phase).len() as int,
            ) == others_in(hand.take(seen + 1), phase) + hand.skip(seen + 1)
        },
        !is_played_treasure(hand[seen]@, phase) ==> {
            &&& others_in(hand.take(seen + 1), phase) == others_in(hand.take(seen), phase).push(
                hand[seen],
            )
            &&& treasures_in(hand.take(seen + 1), phase) == treasures_in(hand.take(seen), phase)
            &&& treasure_total(hand.take(seen + 1), phase) == treasure_total(
                hand.take(seen),
                phase,
            )
            &&& others_in(hand.take(seen), phase) + hand.skip(seen) == others_in(
                hand.take(seen + 1),
                phase,
            ) + hand.skip(seen + 1)
        },
        forall|rest: Seq<CardProperties>|
            (rest + treasures_in(hand.take(seen), phase)).push(hand[seen]) == rest + treasures_in(
                hand.take(seen),
                phase,
            ).push(hand[seen]),
{
    let kept = others_in(hand.take(seen), phase);
    assert(hand.take(seen + 1).drop_last() =~= hand.take(seen));
    assert(hand.take(seen + 1).last() == hand[seen]);
    assert((kept + hand.skip(seen)).remove(kept.len() as int) =~= kept + hand.skip(seen + 1));
    assert(kept + hand.skip(seen) =~= kept.push(hand[seen]) + hand.skip(seen + 1));
    assert forall|rest: Seq<CardProperties>|
        (rest + treasures_in(hand.take(seen), phase)).push(hand[seen]) == rest + treasures_in(
            hand.take(seen),
            phase,
        ).push(hand[seen]) by {
        assert((rest + treasures_in(hand.take(seen), phase)).push(hand[seen]) =~= rest
            + treasures_in(hand.take(seen), phase).push(hand[seen]));
    }
}

/// The played treasures of a prefix grant no more than all played treasures
/// together, if none of them grants a negative value.
pub proof fn lemma_treasure_total_of_prefix(
    cards: Seq<CardProperties>,
    phase: PlayerPhases,
    len: int,
)
    requires
        0 <= len <= cards.len(),
        forall|i: int|
            0 <= i < cards.len() && is_played_treasure((#[trigger] cards[i])@, phase)
                ==> cards[i]@.relevant_value() >= 0,
    ensures
        0 <= treasure_total(cards.take(len), phase) <= treasure_total(cards, phase),
    decreases cards.len() - len,
{
    if len == cards.len() {
        assert(cards.take(len) =~= cards);
        lemma_treasure_total_sign(cards, phase);
    } else {
        lemma_treasure_total_of_prefix(cards, phase, len + 1);
        assert(cards.take(len + 1).drop_last() =~= cards.take(len));
        assert(cards.take(len + 1).last() == cards[len]);
        lemma_treasure_total_sign(cards.take(len), phase);
    }
}

/// Played treasures that grant no negative value grant no negative total.
pub proof fn lemma_treasure_total_sign(cards: Seq<CardProperties>, phase: PlayerPhases)
    requires
        forall|i: int|
            0 <= i < cards.len() && is_played_treasure((#[trigger] cards[i])@, phase)
                ==> cards[i]@.relevant_value() >= 0,
    ensures
        0 <= treasure_total(cards, phase),
    decreases cards.len(),
{
    if cards.len() > 0 {
        lemma_treasure_total_sign(cards.drop_last(), phase);
    }
}

} // verus!
