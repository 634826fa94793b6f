//! The piles and the deck that a game starts with.

use vstd::prelude::*;
use vstd::string::StringExecFns;
use std::collections::VecDeque;
use crate::card_manager::card::{CardProperties, CardView};
use crate::card_manager::card_builder::{
    build_copper,
    build_estate,
    copper_card,
    estate_card,
    CardCreator,
};
use crate::card_manager::card_structures::Pile;

verus! {

/// The number of Copper cards in the deck that a player starts with.
pub const STARTING_COPPERS: usize = 7;

/// The number of Estate cards in the deck that a player starts with.
pub const STARTING_ESTATES: usize = 3;

/// What the cards of `cards` say, in their order.
pub open spec fn views_of(cards: Seq<CardProperties>) -> Seq<CardView> {
    Seq::new(cards.len(), |i: int| cards[i]@)
}

/// What the cards of a starting deck say: seven Coppers, then three
/// Estates.
pub open spec fn default_deck() -> Seq<CardView> {
    Seq::new(
        (STARTING_COPPERS + STARTING_ESTATES) as nat,
        |i: int|
            if i < STARTING_COPPERS {
                copper_card()
            } else {
                estate_card()
            },
    )
}

/// Whether `pile` has the given name, stock and constructor.
pub open spec fn pile_is(pile: Pile, name: Seq<char>, cards_left: u8, creator: CardCreator) -> bool {
    pile.pile_name@ == name && pile.cards_left == cards_left && pile.card_creator == creator
}

/// Builds the deck that a player starts with: three Estates and seven
/// Coppers, the Coppers in front.
pub fn build_default_player_deck() -> (deck: VecDeque<CardProperties>)
    ensures
        views_of(deck@) == default_deck(),
{
    let mut new_default: VecDeque<CardProperties> = VecDeque::new();
    let mut estates: usize = 0;
    while estates < STARTING_ESTATES
        invariant
            estates <= STARTING_ESTATES,
            new_default@.len() == estates,
            forall|i: int| 0 <= i < estates ==> new_default@[i]@ == estate_card(),
        decreases STARTING_ESTATES - estates,
    {
        new_default.push_front(build_estate());
        estates += 1;
    }
    let mut coppers: usize = 0;
    while coppers < STARTING_COPPERS
        invariant
            coppers <= STARTING_COPPERS,
            new_default@.len() == coppers + STARTING_ESTATES,
            forall|i: int| 0 <= i < coppers ==> new_default@[i]@ == copper_card(),
            forall|i: int|
                coppers <= i < coppers + STARTING_ESTATES ==> new_default@[i]@ == estate_card(),
        decreases STARTING_COPPERS - coppers,
    {
        new_default.push_front(build_copper());
        coppers += 1;
    }
    assert(views_of(new_default@) =~= default_deck());
    new_default
}

/// Builds the treasure piles in their order on the board: 46 Coppers, 40
/// Silvers and 30 Golds.
pub fn build_treasure_piles() -> (piles: Vec<Pile>)
    ensures
        piles@.len() == 3,
        pile_is(piles@[0], "Copper Pile"@, 46, CardCreator::Copper),
        pile_is(piles@[1], "Silver Pile"@, 40, CardCreator::Silver),
        pile_is(piles@[2], "Gold Pile"@, 30, CardCreator::Gold),
{
    let copper_pile = Pile {
        pile_name: String::from_str("Copper Pile"),
        cards_left: 46,
        card_creator: CardCreator::Copper,
    };
    let silver_pile = Pile {
        pile_name: String::from_str("Silver Pile"),
        cards_left: 40,
        card_creator: CardCreator::Silver,
    };
    let gold_pile = Pile {
        pile_name: String::from_str("Gold Pile"),
        cards_left: 30,
        card_creator: CardCreator::Gold,
    };
    vec![copper_pile, silver_pile, gold_pile]
}

/// Builds the victory piles in their order on the board: 8 Estates, 8
/// Duchies and 8 Provinces, the Provinces last.
pub fn build_victory_piles() -> (piles: Vec<Pile>)
    ensures
        piles@.len() == 3,
        pile_is(piles@[0], "Estate Pile"@, 8, CardCreator::Estate),
        pile_is(piles@[1], "Duchy Pile"@, 8, CardCreator::Duchy),
        pile_is(piles@[2], "Province Pile"@, 8, CardCreator::Province),
{
    let estate_pile = Pile {
        pile_name: String::from_str("Estate Pile"),
        cards_left: 8,
        card_creator: CardCreator::Estate,
    };
    let duchy_pile = Pile {
        pile_name: String::from_str("Duchy Pile"),
        cards_left: 8,
        card_creator: CardCreator::Duchy,
    };
    let province_pile = Pile {
        pile_name: String::from_str("Province Pile"),
        cards_left: 8,
        card_creator: CardCreator::Province,
    };
    vec![estate_pile, duchy_pile, province_pile]
}

/// Builds the pile of Smithy cards.
pub fn build_smithy_pile() -> (pile: Pile)
    ensures
        pile_is(pile, "Smithy pile"@, 10, CardCreator::Smithy),
{
    let smithy_pile = Pile {
        pile_name: String::from_str("Smithy pile"),
        cards_left: 10,
        card_creator: CardCreator::Smithy,
    };
    smithy_pile
}

/// Builds the pile of Village cards.
pub fn build_village_pile() -> (pile: Pile)
    ensures
        pile_is(pile, "Village Pile"@, 10, CardCreator::Village),
{
    let village_pile = Pile {
        pile_name: String::from_str("Village Pile"),
        cards_left: 10,
        card_creator: CardCreator::Village,
    };
    village_pile
}

/// Builds the pile of Market cards.
pub fn build_market_pile() -> (pile: Pile)
    ensures
        pile_is(pile, "Market Pile"@, 10, CardCreator::Market),
{
    let market_pile = Pile {
        pile_name: String::from_str("Market Pile"),
        cards_left: 10,
        card_creator: CardCreator::Market,
    };
    market_pile
}

/// Builds the pile of Moat cards.
pub fn build_moat_pile() -> (pile: Pile)
    ensures
        pile_is(pile, "Moat Pile"@, 10, CardCreator::Moat),
{
    let moat_pile = Pile {
        pile_name: String::from_str("Moat Pile"),
        cards_left: 10,
        card_creator: CardCreator::Moat,
    };
    moat_pile
}

/// Builds the pile of Woodcutter cards.
pub fn build_woodcutter_pile() -> (pile: Pile)
    ensures
        pile_is(pile, "Woodcutter Pile"@, 10, CardCreator::Woodcutter),
{
    let woodcutter_pile = Pile {
        pile_name: String::from_str("Woodcutter Pile"),
        cards_left: 10,
        card_creator: CardCreator::Woodcutter,
    };
    woodcutter_pile
}

} // verus!
