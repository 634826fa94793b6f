use dominion_library::card_manager::card::{Card, CardProperties, TypeProperties};
use dominion_library::card_manager::card_builder::{
    build_copper, build_duchy, build_estate, build_gold, build_market, build_moat, build_province,
    build_silver, build_smithy, build_village, build_woodcutter, CardCreator,
};
use dominion_library::card_manager::card_properties::{
    ActionEvents, ActionProperties, AttackProperties, CardTypes, TreasureProperties,
    VictoryProperties,
};
use dominion_library::player::phases::PlayerPhases;

fn check_action(card: &CardProperties, buys: u8, actions: u8, cards: u8, coin: u8) {
    let props = card.get_action_properties();
    assert_eq!(props.added_buys, buys);
    assert_eq!(props.added_actions, actions);
    assert_eq!(props.added_cards, cards);
    assert_eq!(props.temp_coin, coin);
    assert_eq!(props.event, ActionEvents::No);
}

#[test]
fn copper_is_a_free_treasure_worth_one() {
    let card = build_copper();
    assert_eq!(card.get_name(), "Copper");
    assert_eq!(card.get_cost(), 0);
    assert_eq!(*card.get_playing_phase(), PlayerPhases::Buy);
    assert_eq!(*card.get_card_types(), vec![CardTypes::Treasure]);
    assert_eq!(card.get_relevant_value(), 1);
    check_action(&card, 0, 0, 0, 0);
    assert_eq!(
        card.get_description(),
        "\n                Copper\n                Type: Treasure\n                Cost: 0\n                Buying power: 1\n            "
    );
}

#[test]
fn silver_costs_three_and_is_worth_two() {
    let card = build_silver();
    assert_eq!(card.get_name(), "Silver");
    assert_eq!(card.get_cost(), 3);
    assert_eq!(*card.get_playing_phase(), PlayerPhases::Buy);
    assert_eq!(*card.get_card_types(), vec![CardTypes::Treasure]);
    assert_eq!(card.get_relevant_value(), 2);
    assert!(card.get_description().contains("Buying power: 2"));
}

#[test]
fn gold_costs_six_and_is_worth_three() {
    let card = build_gold();
    assert_eq!(card.get_name(), "Gold");
    assert_eq!(card.get_cost(), 6);
    assert_eq!(*card.get_playing_phase(), PlayerPhases::Buy);
    assert_eq!(*card.get_card_types(), vec![CardTypes::Treasure]);
    assert_eq!(card.get_relevant_value(), 3);
    assert!(card.get_description().contains("Cost: 6"));
}

#[test]
fn estate_costs_two_and_scores_one() {
    let card = build_estate();
    assert_eq!(card.get_name(), "Estate");
    assert_eq!(card.get_cost(), 2);
    assert_eq!(*card.get_playing_phase(), PlayerPhases::Never);
    assert_eq!(*card.get_card_types(), vec![CardTypes::Victory]);
    assert_eq!(card.get_relevant_value(), 1);
    assert!(card.get_description().contains("Point Value: 1"));
}

#[test]
fn duchy_costs_five_and_scores_three() {
    let card = build_duchy();
    assert_eq!(card.get_name(), "Duchy");
    assert_eq!(card.get_cost(), 5);
    assert_eq!(*card.get_playing_phase(), PlayerPhases::Never);
    assert_eq!(*card.get_card_types(), vec![CardTypes::Victory]);
    assert_eq!(card.get_relevant_value(), 3);
}

#[test]
fn province_costs_eight_and_scores_six() {
    let card = build_province();
    assert_eq!(card.get_name(), "Province");
    assert_eq!(card.get_cost(), 8);
    assert_eq!(*card.get_playing_phase(), PlayerPhases::Never);
    assert_eq!(*card.get_card_types(), vec![CardTypes::Victory]);
    assert_eq!(card.get_relevant_value(), 6);
    assert!(card.get_description().contains("Ends the game when all are bought."));
}

#[test]
fn smithy_draws_three_cards() {
    let card = build_smithy();
    assert_eq!(card.get_name(), "Smithy");
    assert_eq!(card.get_cost(), 4);
    assert_eq!(*card.get_playing_phase(), PlayerPhases::Action);
    assert_eq!(*card.get_card_types(), vec![CardTypes::Action]);
    assert_eq!(card.get_relevant_value(), 0);
    check_action(&card, 0, 0, 3, 0);
}

#[test]
fn village_draws_a_card_and_adds_two_actions() {
    let card = build_village();
    assert_eq!(card.get_name(), "Village");
    assert_eq!(card.get_cost(), 3);
    assert_eq!(*card.get_playing_phase(), PlayerPhases::Action);
    assert_eq!(*card.get_card_types(), vec![CardTypes::Action]);
    check_action(&card, 0, 2, 1, 0);
}

#[test]
fn market_adds_one_of_everything() {
    let card = build_market();
    assert_eq!(card.get_name(), "Market");
    assert_eq!(card.get_cost(), 5);
    assert_eq!(*card.get_playing_phase(), PlayerPhases::Action);
    assert_eq!(*card.get_card_types(), vec![CardTypes::Action]);
    check_action(&card, 1, 1, 1, 1);
}

#[test]
fn moat_is_an_action_and_a_reaction() {
    let card = build_moat();
    assert_eq!(card.get_name(), "Moat");
    assert_eq!(card.get_cost(), 2);
    assert_eq!(*card.get_playing_phase(), PlayerPhases::Action);
    assert_eq!(*card.get_card_types(), vec![CardTypes::Action, CardTypes::Reaction]);
    assert_eq!(card.get_relevant_value(), 0);
    check_action(&card, 0, 0, 2, 0);
    assert!(card.get_description().contains("Type: Action-Reaction"));
}

#[test]
fn woodcutter_adds_a_buy_and_two_coins() {
    let card = build_woodcutter();
    assert_eq!(card.get_name(), "Woodcutter");
    assert_eq!(card.get_cost(), 3);
    assert_eq!(*card.get_playing_phase(), PlayerPhases::Action);
    assert_eq!(*card.get_card_types(), vec![CardTypes::Action]);
    check_action(&card, 1, 0, 0, 2);
}

#[test]
fn two_builds_give_cards_that_say_the_same_and_are_owned_apart() {
    let mut first = build_gold();
    let second = build_gold();
    assert_eq!(first.get_name(), second.get_name());
    assert_eq!(first.get_cost(), second.get_cost());
    assert_eq!(first.get_description(), second.get_description());
    first.name = String::from("Changed");
    assert_eq!(second.get_name(), "Gold");
    assert_eq!(build_gold().get_name(), "Gold");
}

#[test]
fn every_creator_builds_the_card_of_its_name() {
    let creators = [
        (CardCreator::Copper, "Copper"),
        (CardCreator::Silver, "Silver"),
        (CardCreator::Gold, "Gold"),
        (CardCreator::Estate, "Estate"),
        (CardCreator::Duchy, "Duchy"),
        (CardCreator::Province, "Province"),
        (CardCreator::Smithy, "Smithy"),
        (CardCreator::Village, "Village"),
        (CardCreator::Market, "Market"),
        (CardCreator::Moat, "Moat"),
        (CardCreator::Woodcutter, "Woodcutter"),
    ];
    for (creator, name) in creators {
        assert_eq!(creator.create().get_name(), name);
    }
}

fn custom_card(tags: Vec<CardTypes>, value: i32, points: i32) -> CardProperties {
    CardProperties {
        name: String::from("Custom"),
        played_during: PlayerPhases::Buy,
        cost: 4,
        card_types: tags,
        card_type_properties: TypeProperties {
            treasure_properties: TreasureProperties { value },
            victory_properties: VictoryProperties { points },
            ..TypeProperties::default()
        },
    }
}

#[test]
fn relevant_value_prefers_the_treasure_value_over_the_points() {
    let both = custom_card(vec![CardTypes::Victory, CardTypes::Treasure], 7, 9);
    assert_eq!(both.get_relevant_value(), 7);
    let reversed = custom_card(vec![CardTypes::Treasure, CardTypes::Victory], 7, 9);
    assert_eq!(reversed.get_relevant_value(), 7);
}

#[test]
fn relevant_value_of_a_victory_card_is_its_points_and_may_be_negative() {
    let curse = custom_card(vec![CardTypes::Victory], 7, -1);
    assert_eq!(curse.get_relevant_value(), -1);
}

#[test]
fn relevant_value_of_other_cards_is_zero() {
    let plain = custom_card(vec![CardTypes::Action, CardTypes::Attack], 7, 9);
    assert_eq!(plain.get_relevant_value(), 0);
    let untagged = custom_card(vec![], 7, 9);
    assert_eq!(untagged.get_relevant_value(), 0);
}

#[test]
fn has_type_finds_each_tag_of_the_card() {
    let moat = build_moat();
    assert!(moat.has_type(CardTypes::Action));
    assert!(moat.has_type(CardTypes::Reaction));
    assert!(!moat.has_type(CardTypes::Treasure));
    assert!(!moat.has_type(CardTypes::Victory));
    assert!(!moat.has_type(CardTypes::Attack));
}

#[test]
fn default_type_properties_are_blank() {
    let properties = TypeProperties::default();
    assert_eq!(properties.treasure_properties.get_value(), 0);
    assert_eq!(properties.victory_properties.get_points(), 0);
    assert_eq!(properties.action_properties.added_buys, 0);
    assert_eq!(properties.action_properties.added_actions, 0);
    assert_eq!(properties.action_properties.added_cards, 0);
    assert_eq!(properties.action_properties.temp_coin, 0);
    assert_eq!(properties.action_properties.event, ActionEvents::No);
    assert_eq!(properties.description, "No description provided");
}

#[test]
fn new_action_properties_change_nothing() {
    let action = ActionProperties::new();
    assert_eq!(action.added_buys, 0);
    assert_eq!(action.added_actions, 0);
    assert_eq!(action.added_cards, 0);
    assert_eq!(action.temp_coin, 0);
    assert_eq!(action.event, ActionEvents::No);
}

#[test]
fn new_attack_properties_have_no_steps() {
    let attack = AttackProperties::new();
    assert!(attack.attack_sequence.is_empty());
}

#[test]
fn property_getters_return_the_fields() {
    assert_eq!(VictoryProperties { points: -3 }.get_points(), -3);
    assert_eq!(TreasureProperties { value: 5 }.get_value(), 5);
}

#[test]
fn phases_have_their_labels() {
    assert_eq!(PlayerPhases::Action.to_string(), "Actions");
    assert_eq!(PlayerPhases::Buy.to_string(), "Buy");
    assert_eq!(PlayerPhases::Cleanup.to_string(), "Cleanup");
    assert_eq!(PlayerPhases::Idle.to_string(), "Waiting for opponent. . . ");
    assert_eq!(PlayerPhases::Never.to_string(), "This should never exist!");
}

#[test]
fn type_line_joins_the_tags_with_dashes() {
    assert_eq!(build_moat().get_type_line(), "Action - Reaction");
    assert_eq!(build_copper().get_type_line(), "Treasure");
    assert_eq!(build_estate().get_type_line(), "Victory");
    assert_eq!(custom_card(vec![], 0, 0).get_type_line(), "");
    assert_eq!(
        custom_card(
            vec![CardTypes::Attack, CardTypes::Action, CardTypes::Victory, CardTypes::Treasure],
            0,
            0
        )
        .get_type_line(),
        "Attack - Action - Victory - Treasure"
    );
    assert_eq!(CardTypes::Reaction.name(), "Reaction");
}
