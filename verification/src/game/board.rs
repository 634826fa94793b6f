//! The shared supply of the game: the piles that both players buy from.

use vstd::prelude::*;
use crate::card_manager::card::CardProperties;
use crate::card_manager::card_structures::Pile;
use crate::game::game_errors::{CardNotFoundError, GameErrors};

verus! {

/// Names one of the three zones of the board.
#[derive(Clone, Copy, PartialEq, Eq, Debug, Structural)]
pub enum CardSet {
    Victories,
    Treasures,
    Kingdoms,
}

/// The place of the province pile among the victory piles.
pub const PROVINCE_INDEX: usize = 2;

/// The supply: the victory, treasure and kingdom piles, each zone in a
/// fixed order, and the trash.
pub struct Board {
    pub victory_cards: Vec<Pile>,
    pub treasure_cards: Vec<Pile>,
    pub kingdom_set: Vec<Pile>,
    pub trash: Vec<CardProperties>,
}

/// What a board holds, free of how its lists are stored.
pub struct BoardView {
    pub victory_cards: Seq<Pile>,
    pub treasure_cards: Seq<Pile>,
    pub kingdom_set: Seq<Pile>,
    pub trash: Seq<CardProperties>,
}

/// The number of piles in `piles` that have no card left.
pub open spec fn empty_piles(piles: Seq<Pile>) -> nat
    decreases piles.len(),
{
    if piles.len() == 0 {
        0
    } else {
        empty_piles(piles.drop_last()) + if piles.last().cards_left == 0 {
            1nat
        } else {
            0nat
        }
    }
}

/// The number of cards left in all of `piles` together.
pub open spec fn stock(piles: Seq<Pile>) -> nat
    decreases piles.len(),
{
    if piles.len() == 0 {
        0
    } else {
        stock(piles.drop_last()) + piles.last().cards_left as nat
    }
}

impl BoardView {
    /// The piles of one zone.
    pub open spec fn piles(self, zone: CardSet) -> Seq<Pile> {
        match zone {
            CardSet::Victories => self.victory_cards,
            CardSet::Treasures => self.treasure_cards,
            CardSet::Kingdoms => self.kingdom_set,
        }
    }

    /// The board with the piles of one zone replaced.
    pub open spec fn with_piles(self, zone: CardSet, piles: Seq<Pile>) -> BoardView {
        match zone {
            CardSet::Victories => BoardView { victory_cards: piles, ..self },
            CardSet::Treasures => BoardView { treasure_cards: piles, ..self },
            CardSet::Kingdoms => BoardView { kingdom_set: piles, ..self },
        }
    }

    /// Whether a pile lies at `index` of `zone`.
    pub open spec fn has_pile(self, zone: CardSet, index: int) -> bool {
        0 <= index < self.piles(zone).len()
    }

    /// The board after one card has left the pile at `index` of `zone`.
    pub open spec fn after_draw(self, zone: CardSet, index: int) -> BoardView
        recommends
            self.has_pile(zone, index),
            self.piles(zone)[index].cards_left > 0,
    {
        let pile = self.piles(zone)[index];
        self.with_piles(
            zone,
            self.piles(zone).update(
                index,
                Pile { cards_left: (pile.cards_left - 1) as u8, ..pile },
            ),
        )
    }

    /// The number of piles of the whole board that have no card left.
    pub open spec fn empty_pile_count(self) -> nat {
        empty_piles(self.treasure_cards) + empty_piles(self.victory_cards) + empty_piles(
            self.kingdom_set,
        )
    }

    /// Whether the game is over: the province pile is empty, or two piles
    /// of the whole board are.
    pub open spec fn game_over(self) -> bool
        recommends
            self.victory_cards.len() > PROVINCE_INDEX,
    {
        self.victory_cards[PROVINCE_INDEX as int].cards_left == 0 || self.empty_pile_count() >= 2
    }

    /// The number of cards that the board holds: those left in its piles
    /// and those in the trash.
    pub open spec fn card_count(self) -> nat {
        stock(self.victory_cards) + stock(self.treasure_cards) + stock(self.kingdom_set)
            + self.trash.len()
    }
}

impl View for Board {
    type V = BoardView;

    open spec fn view(&self) -> BoardView {
        BoardView {
            victory_cards: self.victory_cards@,
            treasure_cards: self.treasure_cards@,
            kingdom_set: self.kingdom_set@,
            trash: self.trash@,
        }
    }
}

/// A pile without cards among `piles` makes their count of empty piles
/// positive.
pub proof fn lemma_empty_pile_counts(piles: Seq<Pile>, index: int)
    requires
        0 <= index < piles.len(),
        piles[index].cards_left == 0,
    ensures
        empty_piles(piles) >= 1,
    decreases piles.len(),
{
    if index < piles.len() - 1 {
        lemma_empty_pile_counts(piles.drop_last(), index);
    }
}

/// Two piles without cards at different places of `piles` make their count
/// of empty piles at least two.
pub proof fn lemma_two_empty_piles_count(piles: Seq<Pile>, first: int, second: int)
    requires
        0 <= first < second < piles.len(),
        piles[first].cards_left == 0,
        piles[second].cards_left == 0,
    ensures
        empty_piles(piles) >= 2,
    decreases piles.len(),
{
    if second < piles.len() - 1 {
        lemma_two_empty_piles_count(piles.drop_last(), first, second);
    } else {
        lemma_empty_pile_counts(piles.drop_last(), first);
    }
}

/// Piles that all have cards left count no empty pile.
pub proof fn lemma_no_empty_pile(piles: Seq<Pile>)
    requires
        forall|i: int| 0 <= i < piles.len() ==> piles[i].cards_left > 0,
    ensures
        empty_piles(piles) == 0,
    decreases piles.len(),
{
    if piles.len() > 0 {
        lemma_no_empty_pile(piles.drop_last());
    }
}

/// Piles of which only the one at `index` has no card left count one empty
/// pile.
pub proof fn lemma_single_empty_pile(piles: Seq<Pile>, index: int)
    requires
        0 <= index < piles.len(),
        forall|i: int| 0 <= i < piles.len() && i != index ==> piles[i].cards_left > 0,
        piles[index].cards_left == 0,
    ensures
        empty_piles(piles) == 1,
    decreases piles.len(),
{
    if index < piles.len() - 1 {
        lemma_single_empty_pile(piles.drop_last(), index);
    } else {
        lemma_no_empty_pile(piles.drop_last());
    }
}

/// Taking one card off a pile lowers the stock of its zone by one.
pub proof fn lemma_stock_after_draw(piles: Seq<Pile>, index: int)
    requires
        0 <= index < piles.len(),
        piles[index].cards_left > 0,
    ensures
        stock(
            piles.update(
                index,
                Pile { cards_left: (piles[index].cards_left - 1) as u8, ..piles[index] },
            ),
        ) == stock(piles) - 1,
    decreases piles.len(),
{
    let pile = Pile { cards_left: (piles[index].cards_left - 1) as u8, ..piles[index] };
    let after = piles.update(index, pile);
    if index < piles.len() - 1 {
        lemma_stock_after_draw(piles.drop_last(), index);
        assert(after.drop_last() =~= piles.drop_last().update(index, pile));
    } else {
        assert(after.drop_last() =~= piles.drop_last());
    }
}

/// The game is over once the province pile is empty, whatever the other
/// piles hold.
pub proof fn lemma_empty_province_pile_ends_game(board: BoardView)
    requires
        board.victory_cards.len() > PROVINCE_INDEX,
        board.victory_cards[PROVINCE_INDEX as int].cards_left == 0,
    ensures
        board.game_over(),
{
}

/// The game is over once two piles are empty, wherever on the board they
/// lie.
pub proof fn lemma_two_empty_piles_end_game(
    board: BoardView,
    first_zone: CardSet,
    first: int,
    second_zone: CardSet,
    second: int,
)
    requires
        board.has_pile(first_zone, first),
        board.has_pile(second_zone, second),
        first_zone != second_zone || first != second,
        board.piles(first_zone)[first].cards_left == 0,
        board.piles(second_zone)[second].cards_left == 0,
    ensures
        board.game_over(),
{
    if first_zone == second_zone {
        if first < second {
            lemma_two_empty_piles_count(board.piles(first_zone), first, second);
        } else {
            lemma_two_empty_piles_count(board.piles(first_zone), second, first);
        }
    } else {
        lemma_empty_pile_counts(board.piles(first_zone), first);
        lemma_empty_pile_counts(board.piles(second_zone), second);
    }
}

/// The game goes on while a single pile is empty and it is not the
/// province pile.
pub proof fn lemma_one_empty_pile_does_not_end_game(board: BoardView, zone: CardSet, index: int)
    requires
        board.victory_cards.len() > PROVINCE_INDEX,
        board.has_pile(zone, index),
        zone != CardSet::Victories || index != PROVINCE_INDEX,
        forall|other_zone: CardSet, other: int|
            board.has_pile(other_zone, other) && (other_zone != zone || other != index)
                ==> #[trigger] board.piles(other_zone)[other].cards_left > 0,
    ensures
        !board.game_over(),
{
    assert forall|z: CardSet| z != zone implies empty_piles(#[trigger] board.piles(z)) == 0 by {
        assert forall|i: int| 0 <= i < board.piles(z).len() implies board.piles(z)[i].cards_left
            > 0 by {
            assert(board.has_pile(z, i));
        }
        lemma_no_empty_pile(board.piles(z));
    }
    assert forall|i: int| 0 <= i < board.piles(zone).len() && i != index implies board.piles(
        zone,
    )[i].cards_left > 0 by {
        assert(board.has_pile(zone, i));
    }
    if board.piles(zone)[index].cards_left == 0 {
        lemma_single_empty_pile(board.piles(zone), index);
    } else {
        lemma_no_empty_pile(board.piles(zone));
    }
    assert(board.piles(CardSet::Victories) == board.victory_cards);
    assert(board.piles(CardSet::Treasures) == board.treasure_cards);
    assert(board.piles(CardSet::Kingdoms) == board.kingdom_set);
    assert(board.has_pile(CardSet::Victories, PROVINCE_INDEX as int));
}

impl Board {
    /// Whether the board has its province pile.
    pub open spec fn wf(&self) -> bool {
        self.victory_cards@.len() > PROVINCE_INDEX
    }

    /// Returns the pile at `index` of `zone` for changing it, if there is
    /// one.
    fn get_mut_pile(&mut self, index: usize, c: CardSet) -> (found: Option<&mut Pile>)
        ensures
            found is Some <==> old(self)@.has_pile(c, index as int),
            found matches Some(pile) ==> *pile == old(self)@.piles(c)[index as int] && final(self)@
                == old(self)@.with_piles(
                c,
                old(self)@.piles(c).update(index as int, *final(pile)),
            ),
            found is None ==> final(self)@ == old(self)@,
    {
        match c {
            CardSet::Kingdoms => {
                if index < self.kingdom_set.len() {
                    Some(&mut self.kingdom_set[index])
                } else {
                    None
                }
            },
            CardSet::Treasures => {
                if index < self.treasure_cards.len() {
                    Some(&mut self.treasure_cards[index])
                } else {
                    None
                }
            },
            CardSet::Victories => {
                if index < self.victory_cards.len() {
                    Some(&mut self.victory_cards[index])
                } else {
                    None
                }
            },
        }
    }

    /// Returns the pile at `index` of `zone` for reading it, if there is
    /// one.
    fn get_pile(&self, index: usize, c: CardSet) -> (found: Option<&Pile>)
        ensures
            found is Some <==> self@.has_pile(c, index as int),
            found matches Some(pile) ==> *pile == self@.piles(c)[index as int],
    {
        match c {
            CardSet::Kingdoms => {
                if index < self.kingdom_set.len() {
                    Some(&self.kingdom_set[index])
                } else {
                    None
                }
            },
            CardSet::Treasures => {
                if index < self.treasure_cards.len() {
                    Some(&self.treasure_cards[index])
                } else {
                    None
                }
            },
            CardSet::Victories => {
                if index < self.victory_cards.len() {
                    Some(&self.victory_cards[index])
                } else {
                    None
                }
            },
        }
    }

    /// Counts the empty piles among `piles`, up to `need` of them.
    fn count_empty_piles(piles: &Vec<Pile>, need: u8) -> (found: u8)
        ensures
            found <= need,
            found < need ==> found == empty_piles(piles@),
            found == need ==> empty_piles(piles@) >= need,
    {
        let mut counter: u8 = 0;
        let mut i: usize = 0;
        while i < piles.len() && counter < need
            invariant
                i <= piles@.len(),
                counter <= need,
                counter == empty_piles(piles@.take(i as int)),
            decreases piles@.len() - i,
        {
            assert(piles@.take(i + 1).drop_last() =~= piles@.take(i as int));
            if piles[i].is_empty() {
                counter += 1;
            }
            i += 1;
        }
        proof {
            lemma_empty_piles_of_prefix(piles@, i as int);
        }
        counter
    }

    /// Tells whether the game is over: whether the province pile is empty
    /// or two piles of the whole board are. The answer is worked out anew
    /// at every call.
    pub fn check_ending(&self) -> (over: bool)
        requires
            self.wf(),
        ensures
            over == self@.game_over(),
    {
        if self.victory_cards[PROVINCE_INDEX].is_empty() {
            return true;
        }
        let in_treasures: u8 = Board::count_empty_piles(&self.treasure_cards, 2);
        let in_victories: u8 = Board::count_empty_piles(&self.victory_cards, 2 - in_treasures);
        let in_kingdoms: u8 = Board::count_empty_piles(
            &self.kingdom_set,
            2 - in_treasures - in_victories,
        );
        let counter: u8 = in_treasures + in_victories + in_kingdoms;
        counter >= 2
    }
}

/// The empty piles of a prefix are among the empty piles of the whole.
pub proof fn lemma_empty_piles_of_prefix(piles: Seq<Pile>, len: int)
    requires
        0 <= len <= piles.len(),
    ensures
        empty_piles(piles.take(len)) <= empty_piles(piles),
        len == piles.len() ==> empty_piles(piles.take(len)) == empty_piles(piles),
    decreases piles.len() - len,
{
    if len == piles.len() {
        assert(piles.take(len) =~= piles);
    } else {
        lemma_empty_piles_of_prefix(piles, len + 1);
        assert(piles.take(len + 1).drop_last() =~= piles.take(len));
    }
}

/// The ways in which a player deals with the board.
pub trait PlayerInterface {
    fn buy_card(&mut self, index: usize, c: CardSet) -> Result<CardProperties, GameErrors>;

    fn get_card_price(&self, index: usize, c: CardSet) -> Result<i32, GameErrors>;

    fn get_pile_desc(&self, index: usize, c: CardSet) -> Result<String, GameErrors>;
}

impl PlayerInterface for Board {
    /// Takes one card off the pile at `index` of `zone` and hands it to the
    /// caller.
    ///
    /// The buy is refused, and the board left as it is, where no pile lies
    /// at `index` and where the pile has no card left.
    fn buy_card(&mut self, index: usize, c: CardSet) -> (bought: Result<CardProperties, GameErrors>)
        ensures
            !old(self)@.has_pile(c, index as int) ==> final(self)@ == old(self)@ && bought is Err
                && bought->Err_0.is_card_not_found(index),
            old(self)@.has_pile(c, index as int) && old(self)@.piles(c)[index as int].cards_left
                == 0 ==> final(self)@ == old(self)@ && bought is Err
                && bought->Err_0.is_out_of_cards(),
            old(self)@.has_pile(c, index as int) && old(self)@.piles(c)[index as int].cards_left
                > 0 ==> final(self)@ == old(self)@.after_draw(c, index as int) && bought is Ok
                && bought->Ok_0@ == old(self)@.piles(c)[index as int].card_creator.card(),
    {
        let pile_op = self.get_mut_pile(index, c);
        let bought = match pile_op {
            Some(x) => {
                match x.pick_up_card() {
                    Ok(card) => Ok(card),
                    Err(error) => Err(GameErrors::OutOfCardsError(error)),
                }
            },
            None => Err(GameErrors::CardNotFoundError(CardNotFoundError { index: index })),
        };
        proof {
            let piles = old(self)@.piles(c);
            if old(self)@.has_pile(c, index as int) {
                assert(piles.update(index as int, piles[index as int]) =~= piles);
            }
        }
        bought
    }

    /// Returns the price of the cards in the pile at `index` of `zone`, or
    /// the error that no pile lies there.
    fn get_card_price(&self, index: usize, c: CardSet) -> (price: Result<i32, GameErrors>)
        ensures
            self@.has_pile(c, index as int) ==> price is Ok && price->Ok_0 == self@.piles(
                c,
            )[index as int].card_creator.card().cost,
            !self@.has_pile(c, index as int) ==> price is Err && price->Err_0.is_card_not_found(
                index,
            ),
    {
        let pile_op = self.get_pile(index, c);
        match pile_op {
            Some(x) => Ok(x.get_card_price()),
            None => Err(GameErrors::CardNotFoundError(CardNotFoundError { index: index })),
        }
    }

    /// Returns the text that describes the cards in the pile at `index` of
    /// `zone`, or the error that no pile lies there.
    fn get_pile_desc(&self, index: usize, c: CardSet) -> (description: Result<String, GameErrors>)
        ensures
            self@.has_pile(c, index as int) ==> description is Ok && description->Ok_0@
                == self@.piles(c)[index as int].card_creator.card().description,
            !self@.has_pile(c, index as int) ==> description is Err
                && description->Err_0.is_card_not_found(index),
    {
        let pile_op = self.get_pile(index, c);
        match pile_op {
            Some(x) => Ok(x.get_card_description()),
            None => Err(GameErrors::CardNotFoundError(CardNotFoundError { index: index })),
        }
    }
}

} // verus!
