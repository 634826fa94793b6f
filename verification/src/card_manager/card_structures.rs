//! The supply pile: a finite stock of cards of one definition.

use vstd::prelude::*;
use crate::card_manager::card::{Card, CardProperties};
use crate::card_manager::card_builder::CardCreator;
use crate::game::game_errors::OutOfCardsError;

verus! {

/// A stack of cards of one definition.
///
/// The pile holds a count and the name of a catalog constructor in place of
/// ready-made cards: a card comes into being when it is picked up, and the
/// count alone says whether the pile is empty.
pub struct Pile {
    pub pile_name: String,
    pub cards_left: u8,
    pub card_creator: CardCreator,
}

impl Pile {
    /// Tells whether no card is left.
    pub fn is_empty(&self) -> (empty: bool)
        ensures
            empty == (self.cards_left == 0),
    {
        self.cards_left == 0
    }

    /// Takes one card off the pile.
    ///
    /// On a pile with cards left the count drops by one and a fresh card of
    /// the pile's definition is returned; an empty pile is left as it is and
    /// the draw is refused.
    pub fn pick_up_card(&mut self) -> (picked: Result<CardProperties, OutOfCardsError>)
        ensures
            final(self).pile_name == old(self).pile_name,
            final(self).card_creator == old(self).card_creator,
            old(self).cards_left == 0 ==> picked is Err && *final(self) == *old(self),
            old(self).cards_left > 0 ==> picked is Ok && picked->Ok_0@ == old(self).card_creator.card()
                && final(self).cards_left == old(self).cards_left - 1,
    {
        if self.cards_left > 0 {
            self.cards_left -= 1;
            let card = self.card_creator.create();
            Ok(card)
        } else {
            Err(OutOfCardsError)
        }
    }

    /// Returns the number of cards left.
    pub fn get_cards_left(&self) -> (left: u8)
        ensures
            left == self.cards_left,
    {
        self.cards_left
    }

    /// Returns the name of the pile.
    pub fn get_pile_name(&self) -> (name: String)
        ensures
            name@ == self.pile_name@,
    {
        self.pile_name.clone()
    }

    /// Returns the text that describes the pile's cards, read off a card
    /// that is built for the purpose and dropped.
    pub fn get_card_description(&self) -> (description: String)
        ensures
            description@ == self.card_creator.card().description,
    {
        let demo_card = self.card_creator.create();
        demo_card.get_description().clone()
    }

    /// Returns the price of the pile's cards.
    pub fn get_card_price(&self) -> (price: i32)
        ensures
            price == self.card_creator.card().cost,
    {
        let demo_card = self.card_creator.create();
        demo_card.get_cost()
    }

    /// Returns the name of the pile's cards.
    pub fn get_card_name(&self) -> (name: String)
        ensures
            name@ == self.card_creator.card().name,
    {
        let demo_card = self.card_creator.create();
        demo_card.get_name().clone()
    }
}

} // verus!
