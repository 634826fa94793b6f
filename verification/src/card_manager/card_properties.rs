//! The type tags of a card and the properties that belong to each tag.

use vstd::prelude::*;

verus! {

/// The kinds a card can belong to; a card may carry several.
#[derive(Eq, Hash, PartialEq, Clone, Copy, Debug, Structural)]
pub enum CardTypes {
    Victory,
    Treasure,
    Action,
    Reaction,
    Attack,
}

/// What a victory card is worth at the end of the game.
#[derive(Clone, Copy)]
pub struct VictoryProperties {
    /// Points scored by the card; negative for cards that cost points.
    pub points: i32,
}

impl VictoryProperties {
    /// Returns the points the card scores.
    pub fn get_points(&self) -> (points: i32)
        ensures
            points == self.points,
    {
        self.points
    }
}

/// What a treasure card yields when it is played.
#[derive(Clone, Copy)]
pub struct TreasureProperties {
    /// Buying power granted when the card is played.
    pub value: i32,
}

impl TreasureProperties {
    /// Returns the buying power the card grants.
    pub fn get_value(&self) -> (value: i32)
        ensures
            value == self.value,
    {
        self.value
    }
}

/// One step of what happens when an attack card is played.
#[derive(Clone, Hash, Eq, PartialEq)]
pub enum AttackSequence {
    /// The opponent discards down to the given hand size.
    HandSize(i32),
    /// The opponent puts a card of the given kind on top of the deck, or
    /// reveals a hand without one.
    TopDeckTypeOrReveal(CardTypes, i32),
}

/// The steps of an attack, in the order in which they happen.
#[derive(Clone, Hash, Eq, PartialEq)]
pub struct AttackProperties {
    pub attack_sequence: Vec<AttackSequence>,
}

impl AttackProperties {
    /// Returns an attack with no steps.
    pub fn new() -> (attack: AttackProperties)
        ensures
            attack.attack_sequence@ == Seq::<AttackSequence>::empty(),
    {
        AttackProperties { attack_sequence: Vec::new() }
    }
}

/// Dialogues that an action card can ask the game to open.
#[derive(PartialEq, Eq, Clone, Copy, Debug, Structural)]
pub enum ActionEvents {
    Workshop,
    Merchant,
    No,
}

/// The changes to the turn's resources that playing an action card makes.
#[derive(Clone, Copy)]
pub struct ActionProperties {
    pub added_buys: u8,
    pub added_actions: u8,
    pub added_cards: u8,
    pub temp_coin: u8,
    pub event: ActionEvents,
}

impl ActionProperties {
    /// The action that changes nothing.
    pub open spec fn blank() -> ActionProperties {
        ActionProperties {
            added_buys: 0,
            added_actions: 0,
            added_cards: 0,
            temp_coin: 0,
            event: ActionEvents::No,
        }
    }

    /// Returns the action that changes nothing; a card built on it has no
    /// effect until its fields are set.
    pub fn new() -> (action: ActionProperties)
        ensures
            action == ActionProperties::blank(),
    {
        ActionProperties {
            added_buys: 0,
            added_actions: 0,
            added_cards: 0,
            temp_coin: 0,
            event: ActionEvents::No,
        }
    }
}

} // verus!
