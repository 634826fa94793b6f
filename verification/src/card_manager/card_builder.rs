//! The catalog: one constructor for each card definition of the game.
//!
//! Every constructor takes nothing and returns a fresh card, so two calls
//! give two cards that say the same and are owned apart.

use vstd::prelude::*;
use vstd::string::StringExecFns;
use crate::card_manager::card::{CardProperties, CardView, TypeProperties};
use crate::card_manager::card_properties::{
    ActionEvents,
    ActionProperties,
    CardTypes,
    TreasureProperties,
    VictoryProperties,
};
use crate::player::phases::PlayerPhases;

verus! {

/// What a card says that is a treasure and nothing else: it is played in
/// the buy phase and grants `value` buying power.
pub open spec fn treasure_card(name: Seq<char>, cost: int, value: int, description: Seq<char>) -> CardView {
    CardView {
        name,
        played_during: PlayerPhases::Buy,
        cost,
        card_types: seq![CardTypes::Treasure],
        treasure_value: value,
        victory_points: 0,
        action_properties: ActionProperties::blank(),
        description,
    }
}

/// What a card says that is a victory card and nothing else: it is never
/// played and scores `points`.
pub open spec fn victory_card(name: Seq<char>, cost: int, points: int, description: Seq<char>) -> CardView {
    CardView {
        name,
        played_during: PlayerPhases::Never,
        cost,
        card_types: seq![CardTypes::Victory],
        treasure_value: 0,
        victory_points: points,
        action_properties: ActionProperties::blank(),
        description,
    }
}

/// What a card says that is played in the action phase with the given type
/// tags and effect.
pub open spec fn action_card(
    name: Seq<char>,
    cost: int,
    card_types: Seq<CardTypes>,
    action: ActionProperties,
    description: Seq<char>,
) -> CardView {
    CardView {
        name,
        played_during: PlayerPhases::Action,
        cost,
        card_types,
        treasure_value: 0,
        victory_points: 0,
        action_properties: action,
        description,
    }
}

/// The text on Copper.
pub const COPPER_DESCRIPTION: &'static str =
    "\n                Copper\n                Type: Treasure\n                Cost: 0\n                Buying power: 1\n            ";

/// Copper: a treasure that costs nothing and grants 1 buying power.
pub open spec fn copper_card() -> CardView {
    treasure_card("Copper"@, 0, 1, COPPER_DESCRIPTION@)
}

/// Builds one Copper.
pub fn build_copper() -> (card: CardProperties)
    ensures
        card@ == copper_card(),
{
    let card = CardProperties {
        name: String::from_str("Copper"),
        played_during: PlayerPhases::Buy,
        cost: 0,
        card_types: vec![CardTypes::Treasure],
        card_type_properties: TypeProperties {
            treasure_properties: TreasureProperties { value: 1 },
            description: String::from_str(COPPER_DESCRIPTION),
            ..TypeProperties::default()
        },
    };
    assert(card@.card_types =~= copper_card().card_types);
    card
}

/// The text on Silver.
pub const SILVER_DESCRIPTION: &'static str =
    "\n                Silver\n                Type: Treasure\n                Cost: 3\n                Buying power: 2\n            ";

/// Silver: a treasure that costs 3 and grants 2 buying power.
pub open spec fn silver_card() -> CardView {
    treasure_card("Silver"@, 3, 2, SILVER_DESCRIPTION@)
}

/// Builds one Silver.
pub fn build_silver() -> (card: CardProperties)
    ensures
        card@ == silver_card(),
{
    let card = CardProperties {
        name: String::from_str("Silver"),
        played_during: PlayerPhases::Buy,
        cost: 3,
        card_types: vec![CardTypes::Treasure],
        card_type_properties: TypeProperties {
            treasure_properties: TreasureProperties { value: 2 },
            description: String::from_str(SILVER_DESCRIPTION),
            ..TypeProperties::default()
        },
    };
    assert(card@.card_types =~= silver_card().card_types);
    card
}

/// The text on Gold.
pub const GOLD_DESCRIPTION: &'static str =
    "\n                Gold\n                Type: Treasure\n                Cost: 6\n                Buying power: 3\n            ";

/// Gold: a treasure that costs 6 and grants 3 buying power.
pub open spec fn gold_card() -> CardView {
    treasure_card("Gold"@, 6, 3, GOLD_DESCRIPTION@)
}

/// Builds one Gold.
pub fn build_gold() -> (card: CardProperties)
    ensures
        card@ == gold_card(),
{
    let card = CardProperties {
        name: String::from_str("Gold"),
        played_during: PlayerPhases::Buy,
        cost: 6,
        card_types: vec![CardTypes::Treasure],
        card_type_properties: TypeProperties {
            treasure_properties: TreasureProperties { value: 3 },
            description: String::from_str(GOLD_DESCRIPTION),
            ..TypeProperties::default()
        },
    };
    assert(card@.card_types =~= gold_card().card_types);
    card
}

/// The text on Estate.
pub const ESTATE_DESCRIPTION: &'static str =
    "\n                Estate\n                Type: Victory\n                Cost: 2\n                Point Value: 1\n            ";

/// Estate: a victory card that costs 2 and scores 1 point.
pub open spec fn estate_card() -> CardView {
    victory_card("Estate"@, 2, 1, ESTATE_DESCRIPTION@)
}

/// Builds one Estate.
pub fn build_estate() -> (card: CardProperties)
    ensures
        card@ == estate_card(),
{
    let card = CardProperties {
        name: String::from_str("Estate"),
        played_during: PlayerPhases::Never,
        cost: 2,
        card_types: vec![CardTypes::Victory],
        card_type_properties: TypeProperties {
            victory_properties: VictoryProperties { points: 1 },
            description: String::from_str(ESTATE_DESCRIPTION),
            ..TypeProperties::default()
        },
    };
    assert(card@.card_types =~= estate_card().card_types);
    card
}

/// The text on Duchy.
pub const DUCHY_DESCRIPTION: &'static str =
    "\n                Duchy\n                Type: Victory\n                Cost: 5\n                Point Value: 3\n            ";

/// Duchy: a victory card that costs 5 and scores 3 points.
pub open spec fn duchy_card() -> CardView {
    victory_card("Duchy"@, 5, 3, DUCHY_DESCRIPTION@)
}

/// Builds one Duchy.
pub fn build_duchy() -> (card: CardProperties)
    ensures
        card@ == duchy_card(),
{
    let card = CardProperties {
        name: String::from_str("Duchy"),
        played_during: PlayerPhases::Never,
        cost: 5,
        card_types: vec![CardTypes::Victory],
        card_type_properties: TypeProperties {
            victory_properties: VictoryProperties { points: 3 },
            description: String::from_str(DUCHY_DESCRIPTION),
            ..TypeProperties::default()
        },
    };
    assert(card@.card_types =~= duchy_card().card_types);
    card
}

/// The text on Province.
pub const PROVINCE_DESCRIPTION: &'static str =
    "\n                Province\n                Type: Victory\n                Cost: 8\n                Point Value: 6\n                Ends the game when all are bought.\n            ";

/// Province: a victory card that costs 8 and scores 6 points.
pub open spec fn province_card() -> CardView {
    victory_card("Province"@, 8, 6, PROVINCE_DESCRIPTION@)
}

/// Builds one Province.
pub fn build_province() -> (card: CardProperties)
    ensures
        card@ == province_card(),
{
    let card = CardProperties {
        name: String::from_str("Province"),
        played_during: PlayerPhases::Never,
        cost: 8,
        card_types: vec![CardTypes::Victory],
        card_type_properties: TypeProperties {
            victory_properties: VictoryProperties { points: 6 },
            description: String::from_str(PROVINCE_DESCRIPTION),
            ..TypeProperties::default()
        },
    };
    assert(card@.card_types =~= province_card().card_types);
    card
}

/// The text on Smithy.
pub const SMITHY_DESCRIPTION: &'static str =
    "\n                Smithy\n                Type: Action\n                Cost: 4\n                + 3 Cards\n            ";

/// Smithy: an action that costs 4 and draws 3 cards.
pub open spec fn smithy_card() -> CardView {
    action_card(
        "Smithy"@,
        4,
        seq![CardTypes::Action],
        ActionProperties {
            added_buys: 0,
            added_actions: 0,
            added_cards: 3,
            temp_coin: 0,
            event: ActionEvents::No,
        },
        SMITHY_DESCRIPTION@,
    )
}

/// Builds one Smithy.
pub fn build_smithy() -> (card: CardProperties)
    ensures
        card@ == smithy_card(),
{
    let card = CardProperties {
        name: String::from_str("Smithy"),
        played_during: PlayerPhases::Action,
        cost: 4,
        card_types: vec![CardTypes::Action],
        card_type_properties: TypeProperties {
            action_properties: ActionProperties {
                added_buys: 0,
                added_actions: 0,
                added_cards: 3,
                temp_coin: 0,
                event: ActionEvents::No,
            },
            description: String::from_str(SMITHY_DESCRIPTION),
            ..TypeProperties::default()
        },
    };
    assert(card@.card_types =~= smithy_card().card_types);
    card
}

/// The text on Village.
pub const VILLAGE_DESCRIPTION: &'static str =
    "\n                Village\n                Type: Action\n                Cost: 3\n                + 1 Card\n                + 2 Actions\n            ";

/// Village: an action that costs 3, draws 1 card and adds 2 actions.
pub open spec fn village_card() -> CardView {
    action_card(
        "Village"@,
        3,
        seq![CardTypes::Action],
        ActionProperties {
            added_buys: 0,
            added_actions: 2,
            added_cards: 1,
            temp_coin: 0,
            event: ActionEvents::No,
        },
        VILLAGE_DESCRIPTION@,
    )
}

/// Builds one Village.
pub fn build_village() -> (card: CardProperties)
    ensures
        card@ == village_card(),
{
    let card = CardProperties {
        name: String::from_str("Village"),
        played_during: PlayerPhases::Action,
        cost: 3,
        card_types: vec![CardTypes::Action],
        card_type_properties: TypeProperties {
            action_properties: ActionProperties {
                added_buys: 0,
                added_actions: 2,
                added_cards: 1,
                temp_coin: 0,
                event: ActionEvents::No,
            },
            description: String::from_str(VILLAGE_DESCRIPTION),
            ..TypeProperties::default()
        },
    };
    assert(card@.card_types =~= village_card().card_types);
    card
}

/// The text on Market.
pub const MARKET_DESCRIPTION: &'static str =
    "\n                Market\n                Type: Action\n                Cost: 5\n                + 1 Card\n                + 1 Action\n                + 1 Buy\n                + 1 Coin\n            ";

/// Market: an action that costs 5, draws 1 card and adds 1 action, 1 buy and 1 coin.
pub open spec fn market_card() -> CardView {
    action_card(
        "Market"@,
        5,
        seq![CardTypes::Action],
        ActionProperties {
            added_buys: 1,
            added_actions: 1,
            added_cards: 1,
            temp_coin: 1,
            event: ActionEvents::No,
        },
        MARKET_DESCRIPTION@,
    )
}

/// Builds one Market.
pub fn build_market() -> (card: CardProperties)
    ensures
        card@ == market_card(),
{
    let card = CardProperties {
        name: String::from_str("Market"),
        played_during: PlayerPhases::Action,
        cost: 5,
        card_types: vec![CardTypes::Action],
        card_type_properties: TypeProperties {
            action_properties: ActionProperties {
                added_buys: 1,
                added_actions: 1,
                added_cards: 1,
                temp_coin: 1,
                event: ActionEvents::No,
            },
            description: String::from_str(MARKET_DESCRIPTION),
            ..TypeProperties::default()
        },
    };
    assert(card@.card_types =~= market_card().card_types);
    card
}

/// The text on Moat.
pub const MOAT_DESCRIPTION: &'static str =
    "\n                Moat\n                Type: Action-Reaction\n                Cost: 2\n                +2 Cards\n                If you have this in your hand, you may reveal it to negate any attack card.\n            ";

/// Moat: an action and reaction that costs 2 and draws 2 cards.
pub open spec fn moat_card() -> CardView {
    action_card(
        "Moat"@,
        2,
        seq![CardTypes::Action, CardTypes::Reaction],
        ActionProperties {
            added_buys: 0,
            added_actions: 0,
            added_cards: 2,
            temp_coin: 0,
            event: ActionEvents::No,
        },
        MOAT_DESCRIPTION@,
    )
}

/// Builds one Moat.
pub fn build_moat() -> (card: CardProperties)
    ensures
        card@ == moat_card(),
{
    let card = CardProperties {
        name: String::from_str("Moat"),
        played_during: PlayerPhases::Action,
        cost: 2,
        card_types: vec![CardTypes::Action, CardTypes::Reaction],
        card_type_properties: TypeProperties {
            action_properties: ActionProperties {
                added_buys: 0,
                added_actions: 0,
                added_cards: 2,
                temp_coin: 0,
                event: ActionEvents::No,
            },
            description: String::from_str(MOAT_DESCRIPTION),
            ..TypeProperties::default()
        },
    };
    assert(card@.card_types =~= moat_card().card_types);
    card
}

/// The text on Woodcutter.
pub const WOODCUTTER_DESCRIPTION: &'static str =
    "\n                Woodcutter\n                Type: Action\n                Cost: 3\n                +2 Coins\n                +1 Buy\n            ";

/// Woodcutter: an action that costs 3 and adds 1 buy and 2 coins.
pub open spec fn woodcutter_card() -> CardView {
    action_card(
        "Woodcutter"@,
        3,
        seq![CardTypes::Action],
        ActionProperties {
            added_buys: 1,
            added_actions: 0,
            added_cards: 0,
            temp_coin: 2,
            event: ActionEvents::No,
        },
        WOODCUTTER_DESCRIPTION@,
    )
}

/// Builds one Woodcutter.
pub fn build_woodcutter() -> (card: CardProperties)
    ensures
        card@ == woodcutter_card(),
{
    let card = CardProperties {
        name: String::from_str("Woodcutter"),
        played_during: PlayerPhases::Action,
        cost: 3,
        card_types: vec![CardTypes::Action],
        card_type_properties: TypeProperties {
            action_properties: ActionProperties {
                added_buys: 1,
                added_actions: 0,
                added_cards: 0,
                temp_coin: 2,
                event: ActionEvents::No,
            },
            description: String::from_str(WOODCUTTER_DESCRIPTION),
            ..TypeProperties::default()
        },
    };
    assert(card@.card_types =~= woodcutter_card().card_types);
    card
}

/// Names one constructor of the catalog.
///
/// A supply pile keeps such a name in place of ready-made cards and builds
/// each card at the moment it is picked up.
#[derive(PartialEq, Eq, Clone, Copy, Debug, Structural)]
pub enum CardCreator {
    Copper,
    Silver,
    Gold,
    Estate,
    Duchy,
    Province,
    Smithy,
    Village,
    Market,
    Moat,
    Woodcutter,
}

impl CardCreator {
    /// What every card built by this constructor says.
    pub open spec fn card(self) -> CardView {
        match self {
            CardCreator::Copper => copper_card(),
            CardCreator::Silver => silver_card(),
            CardCreator::Gold => gold_card(),
            CardCreator::Estate => estate_card(),
            CardCreator::Duchy => duchy_card(),
            CardCreator::Province => province_card(),
            CardCreator::Smithy => smithy_card(),
            CardCreator::Village => village_card(),
            CardCreator::Market => market_card(),
            CardCreator::Moat => moat_card(),
            CardCreator::Woodcutter => woodcutter_card(),
        }
    }

    /// Builds a fresh card with the constructor that `self` names.
    pub fn create(&self) -> (card: CardProperties)
        ensures
            card@ == self.card(),
    {
        match self {
            CardCreator::Copper => build_copper(),
            CardCreator::Silver => build_silver(),
            CardCreator::Gold => build_gold(),
            CardCreator::Estate => build_estate(),
            CardCreator::Duchy => build_duchy(),
            CardCreator::Province => build_province(),
            CardCreator::Smithy => build_smithy(),
            CardCreator::Village => build_village(),
            CardCreator::Market => build_market(),
            CardCreator::Moat => build_moat(),
            CardCreator::Woodcutter => build_woodcutter(),
        }
    }
}

/// Whether a card says what some constructor of the catalog builds.
pub open spec fn in_catalog(card: CardView) -> bool {
    exists|creator: CardCreator| card == #[trigger] creator.card()
}

/// Every card of the catalog costs between 0 and 8, grants at most 3 buying
/// power as a treasure, scores at most 6 points, and is a treasure only if
/// it is played in the buy phase.
pub proof fn lemma_catalog_bounds(card: CardView)
    requires
        in_catalog(card),
    ensures
        0 <= card.cost <= 8,
        0 <= card.treasure_value <= 3,
        0 <= card.victory_points <= 6,
        0 <= card.relevant_value() <= 6,
        0 <= card.score() <= 6,
        card.has_type(CardTypes::Treasure) ==> card.played_during == PlayerPhases::Buy,
        card.has_type(CardTypes::Treasure) ==> card.relevant_value() <= 3,
{
    let creator = choose|creator: CardCreator| card == #[trigger] creator.card();
    assert(card == creator.card());
    assert(card.has_type(CardTypes::Treasure) ==> card.card_types[0] == CardTypes::Treasure);
}

} // verus!
