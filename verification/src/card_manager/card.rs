//! The description of a single card and the read-only interface to it.

use vstd::prelude::*;
use vstd::string::StringExecFns;
use crate::card_manager::card_properties::{
    ActionProperties,
    CardTypes,
    TreasureProperties,
    VictoryProperties,
};
use crate::player::phases::PlayerPhases;

verus! {

/// The properties that depend on a card's type tags, with the text that
/// describes the card to a player.
#[derive(Clone)]
pub struct TypeProperties {
    pub treasure_properties: TreasureProperties,
    pub victory_properties: VictoryProperties,
    pub action_properties: ActionProperties,
    pub description: String,
}

impl TypeProperties {
    /// The text of a card that was given no description.
    pub open spec fn default_description() -> Seq<char> {
        "No description provided"@
    }
}

impl Default for TypeProperties {
    /// Returns the properties of a card that is worth nothing, yields
    /// nothing and does nothing.
    fn default() -> (properties: TypeProperties)
        ensures
            properties.treasure_properties.value == 0,
            properties.victory_properties.points == 0,
            properties.action_properties == ActionProperties::blank(),
            properties.description@ == TypeProperties::default_description(),
    {
        TypeProperties {
            treasure_properties: TreasureProperties { value: 0 },
            victory_properties: VictoryProperties { points: 0 },
            action_properties: ActionProperties::new(),
            description: String::from_str("No description provided"),
        }
    }
}

/// One card: its name, price, the phase in which it is played, its type
/// tags and the properties that go with them.
#[derive(Clone)]
pub struct CardProperties {
    pub name: String,
    pub played_during: PlayerPhases,
    pub cost: i32,
    pub card_types: Vec<CardTypes>,
    pub card_type_properties: TypeProperties,
}

/// What a card says, free of how its strings and lists are stored.
pub struct CardView {
    pub name: Seq<char>,
    pub played_during: PlayerPhases,
    pub cost: int,
    pub card_types: Seq<CardTypes>,
    pub treasure_value: int,
    pub victory_points: int,
    pub action_properties: ActionProperties,
    pub description: Seq<char>,
}

impl CardView {
    /// Whether the card carries the given type tag.
    pub open spec fn has_type(self, tag: CardTypes) -> bool {
        self.card_types.contains(tag)
    }

    /// The number a card stands for: its buying power if it is a treasure,
    /// else its points if it is a victory card, else nothing. A card tagged
    /// as both counts as a treasure.
    pub open spec fn relevant_value(self) -> int {
        if self.has_type(CardTypes::Treasure) {
            self.treasure_value
        } else if self.has_type(CardTypes::Victory) {
            self.victory_points
        } else {
            0
        }
    }

    /// What the card adds to a score: its relevant value if it is tagged as
    /// a victory card, else nothing.
    pub open spec fn score(self) -> int {
        if self.has_type(CardTypes::Victory) {
            self.relevant_value()
        } else {
            0
        }
    }
}

impl CardTypes {
    /// The word for the type tag.
    pub open spec fn label(self) -> Seq<char> {
        match self {
            CardTypes::Action => "Action"@,
            CardTypes::Victory => "Victory"@,
            CardTypes::Treasure => "Treasure"@,
            CardTypes::Reaction => "Reaction"@,
            CardTypes::Attack => "Attack"@,
        }
    }
}

/// The words for `tags` in their order, with " - " between one word and
/// the next, as in "Action - Reaction".
pub open spec fn type_line(tags: Seq<CardTypes>) -> Seq<char>
    decreases tags.len(),
{
    if tags.len() == 0 {
        Seq::empty()
    } else if tags.len() == 1 {
        tags[0].label()
    } else {
        type_line(tags.drop_last()) + " - "@ + tags.last().label()
    }
}

impl View for CardProperties {
    type V = CardView;

    open spec fn view(&self) -> CardView {
        CardView {
            name: self.name@,
            played_during: self.played_during,
            cost: self.cost as int,
            card_types: self.card_types@,
            treasure_value: self.card_type_properties.treasure_properties.value as int,
            victory_points: self.card_type_properties.victory_properties.points as int,
            action_properties: self.card_type_properties.action_properties,
            description: self.card_type_properties.description@,
        }
    }
}

/// The read-only interface to a card.
pub trait Card {
    fn get_playing_phase(&self) -> &PlayerPhases;

    fn get_cost(&self) -> i32;

    fn get_card_types(&self) -> &Vec<CardTypes>;

    fn get_relevant_value(&self) -> i32;

    fn get_description(&self) -> &String;

    fn get_name(&self) -> &String;

    fn get_action_properties(&self) -> ActionProperties;
}

impl CardProperties {
    /// Tells whether the card carries the given type tag.
    pub fn has_type(&self, tag: CardTypes) -> (found: bool)
        ensures
            found == self@.has_type(tag),
    {
        let mut i: usize = 0;
        while i < self.card_types.len()
            invariant
                i <= self.card_types@.len(),
                forall|j: int| 0 <= j < i ==> self.card_types@[j] != tag,
            decreases self.card_types@.len() - i,
        {
            if self.card_types[i] == tag {
                return true;
            }
            i += 1;
        }
        false
    }
}

impl CardTypes {
    /// Returns the word for the type tag.
    pub fn name(&self) -> (word: &'static str)
        ensures
            word@ == self.label(),
    {
        match self {
            CardTypes::Action => "Action",
            CardTypes::Victory => "Victory",
            CardTypes::Treasure => "Treasure",
            CardTypes::Reaction => "Reaction",
            CardTypes::Attack => "Attack",
        }
    }
}

impl CardProperties {
    /// Returns the line that names the card's types, such as
    /// "Action - Reaction".
    pub fn get_type_line(&self) -> (line: String)
        ensures
            line@ == type_line(self@.card_types),
    {
        let mut line = String::new();
        let mut i: usize = 0;
        while i < self.card_types.len()
            invariant
                i <= self.card_types@.len(),
                line@ == type_line(self.card_types@.take(i as int)),
            decreases self.card_types@.len() - i,
        {
            proof {
                let tags = self.card_types@;
                assert(tags.take(i + 1).drop_last() =~= tags.take(i as int));
                assert(tags.take(i + 1).last() == tags[i as int]);
                if i == 0 {
                    assert(line@ + tags[0].label() =~= tags[0].label());
                }
            }
            if i != 0 {
                line.append(" - ");
            }
            line.append(self.card_types[i].name());
            i += 1;
        }
        assert(self.card_types@.take(i as int) =~= self.card_types@);
        line
    }
}

impl Card for CardProperties {
    /// Returns the phase in which the card may be played.
    fn get_playing_phase(&self) -> (phase: &PlayerPhases)
        ensures
            *phase == self@.played_during,
    {
        &self.played_during
    }

    /// Returns the price of the card.
    fn get_cost(&self) -> (cost: i32)
        ensures
            cost == self@.cost,
    {
        self.cost
    }

    /// Returns the type tags of the card.
    fn get_card_types(&self) -> (tags: &Vec<CardTypes>)
        ensures
            tags@ == self@.card_types,
    {
        &self.card_types
    }

    /// Returns the number the card stands for, a treasure's buying power
    /// taking precedence over a victory card's points.
    fn get_relevant_value(&self) -> (value: i32)
        ensures
            value == self@.relevant_value(),
    {
        if self.has_type(CardTypes::Treasure) {
            self.card_type_properties.treasure_properties.get_value()
        } else if self.has_type(CardTypes::Victory) {
            self.card_type_properties.victory_properties.get_points()
        } else {
            0
        }
    }

    /// Returns what playing the card as an action changes.
    fn get_action_properties(&self) -> (action: ActionProperties)
        ensures
            action == self@.action_properties,
    {
        self.card_type_properties.action_properties
    }

    /// Returns the text that describes the card.
    fn get_description(&self) -> (description: &String)
        ensures
            description@ == self@.description,
    {
        &self.card_type_properties.description
    }

    /// Returns the name of the card.
    fn get_name(&self) -> (name: &String)
        ensures
            name@ == self@.name,
    {
        &self.name
    }
}

} // verus!
