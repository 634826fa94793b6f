use dominion_library::card_manager::card::Card;
use dominion_library::card_manager::card_builder::CardCreator;
use dominion_library::card_manager::card_structures::Pile;
use dominion_library::game::board::{Board, CardSet, PlayerInterface};
use dominion_library::game::game_errors::GameErrors;
use dominion_library::game::pile_builder::{
    build_default_player_deck, build_market_pile, build_moat_pile, build_smithy_pile,
    build_treasure_piles, build_victory_piles, build_village_pile, build_woodcutter_pile,
};

fn pile(name: &str, left: u8, creator: CardCreator) -> Pile {
    Pile { pile_name: String::from(name), cards_left: left, card_creator: creator }
}

fn board() -> Board {
    Board {
        victory_cards: build_victory_piles(),
        treasure_cards: build_treasure_piles(),
        kingdom_set: vec![
            build_moat_pile(),
            build_woodcutter_pile(),
            build_village_pile(),
            build_smithy_pile(),
            build_market_pile(),
        ],
        trash: Vec::new(),
    }
}

#[test]
fn pile_hands_out_cards_until_it_is_empty() {
    let mut gold = pile("Gold Pile", 2, CardCreator::Gold);
    assert!(!gold.is_empty());
    let first = gold.pick_up_card().unwrap();
    assert_eq!(first.get_name(), "Gold");
    assert_eq!(gold.get_cards_left(), 1);
    let second = gold.pick_up_card().unwrap();
    assert_eq!(second.get_cost(), 6);
    assert_eq!(gold.get_cards_left(), 0);
    assert!(gold.is_empty());
}

#[test]
fn empty_pile_refuses_the_draw_and_stays_empty() {
    let mut gold = pile("Gold Pile", 0, CardCreator::Gold);
    assert!(gold.is_empty());
    assert!(gold.pick_up_card().is_err());
    assert_eq!(gold.get_cards_left(), 0);
    assert_eq!(gold.get_pile_name(), "Gold Pile");
}

#[test]
fn pile_with_a_full_byte_of_cards_hands_one_out() {
    let mut coppers = pile("Many", 255, CardCreator::Copper);
    assert!(coppers.pick_up_card().is_ok());
    assert_eq!(coppers.get_cards_left(), 254);
}

#[test]
fn peeking_reads_the_card_and_leaves_the_count() {
    let market = build_market_pile();
    assert_eq!(market.get_card_price(), 5);
    assert_eq!(market.get_card_name(), "Market");
    assert!(market.get_card_description().contains("+ 1 Coin"));
    assert_eq!(market.get_pile_name(), "Market Pile");
    assert_eq!(market.get_cards_left(), 10);
    let sold_out = pile("Nothing left", 0, CardCreator::Duchy);
    assert_eq!(sold_out.get_card_price(), 5);
    assert_eq!(sold_out.get_card_name(), "Duchy");
}

#[test]
fn starting_piles_have_their_names_and_stock() {
    let treasures = build_treasure_piles();
    let rows: Vec<(String, u8, i32)> = treasures
        .iter()
        .map(|p| (p.get_pile_name(), p.get_cards_left(), p.get_card_price()))
        .collect();
    assert_eq!(
        rows,
        vec![
            (String::from("Copper Pile"), 46, 0),
            (String::from("Silver Pile"), 40, 3),
            (String::from("Gold Pile"), 30, 6),
        ]
    );
    let victories = build_victory_piles();
    let rows: Vec<(String, u8, i32)> = victories
        .iter()
        .map(|p| (p.get_pile_name(), p.get_cards_left(), p.get_card_price()))
        .collect();
    assert_eq!(
        rows,
        vec![
            (String::from("Estate Pile"), 8, 2),
            (String::from("Duchy Pile"), 8, 5),
            (String::from("Province Pile"), 8, 8),
        ]
    );
    let kingdoms = [
        (build_smithy_pile(), "Smithy pile", "Smithy"),
        (build_village_pile(), "Village Pile", "Village"),
        (build_market_pile(), "Market Pile", "Market"),
        (build_moat_pile(), "Moat Pile", "Moat"),
        (build_woodcutter_pile(), "Woodcutter Pile", "Woodcutter"),
    ];
    for (pile, name, card) in kingdoms {
        assert_eq!(pile.get_pile_name(), name);
        assert_eq!(pile.get_cards_left(), 10);
        assert_eq!(pile.get_card_name(), card);
    }
}

#[test]
fn starting_deck_is_seven_coppers_then_three_estates() {
    let deck = build_default_player_deck();
    let names: Vec<&str> = deck.iter().map(|c| c.get_name().as_str()).collect();
    assert_eq!(
        names,
        vec![
            "Copper", "Copper", "Copper", "Copper", "Copper", "Copper", "Copper", "Estate",
            "Estate", "Estate"
        ]
    );
}

#[test]
fn board_tells_the_price_of_each_zone() {
    let board = board();
    assert_eq!(board.get_card_price(0, CardSet::Treasures).unwrap(), 0);
    assert_eq!(board.get_card_price(2, CardSet::Treasures).unwrap(), 6);
    assert_eq!(board.get_card_price(2, CardSet::Victories).unwrap(), 8);
    assert_eq!(board.get_card_price(0, CardSet::Kingdoms).unwrap(), 2);
    assert_eq!(board.get_card_price(4, CardSet::Kingdoms).unwrap(), 5);
}

#[test]
fn board_reports_the_index_without_a_pile() {
    let mut board = board();
    match board.get_card_price(3, CardSet::Treasures) {
        Err(GameErrors::CardNotFoundError(error)) => assert_eq!(error.index, 3),
        _ => panic!("a price was told of a pile that is not there"),
    }
    match board.get_pile_desc(5, CardSet::Kingdoms) {
        Err(GameErrors::CardNotFoundError(error)) => assert_eq!(error.index, 5),
        _ => panic!("a pile was described that is not there"),
    }
    match board.buy_card(usize::MAX, CardSet::Victories) {
        Err(GameErrors::CardNotFoundError(error)) => assert_eq!(error.index, usize::MAX),
        _ => panic!("a card was bought from a pile that is not there"),
    }
    assert_eq!(board.victory_cards[2].get_cards_left(), 8);
}

#[test]
fn board_describes_a_pile() {
    let board = board();
    let text = board.get_pile_desc(1, CardSet::Victories).unwrap();
    assert!(text.contains("Duchy"));
    assert!(text.contains("Point Value: 3"));
}

#[test]
fn buying_takes_one_card_off_the_pile_and_no_other() {
    let mut board = board();
    let card = board.buy_card(3, CardSet::Kingdoms).unwrap();
    assert_eq!(card.get_name(), "Smithy");
    assert_eq!(board.kingdom_set[3].get_cards_left(), 9);
    for (i, pile) in board.kingdom_set.iter().enumerate() {
        if i != 3 {
            assert_eq!(pile.get_cards_left(), 10);
        }
    }
    assert_eq!(board.treasure_cards[0].get_cards_left(), 46);
    assert_eq!(board.victory_cards[0].get_cards_left(), 8);
}

#[test]
fn buying_from_an_empty_pile_is_out_of_cards() {
    let mut board = board();
    board.treasure_cards[1].cards_left = 0;
    match board.buy_card(1, CardSet::Treasures) {
        Err(GameErrors::OutOfCardsError(_)) => {}
        _ => panic!("an empty pile handed out a card"),
    }
    assert_eq!(board.treasure_cards[1].get_cards_left(), 0);
}

#[test]
fn fresh_board_does_not_end_the_game() {
    assert!(!board().check_ending());
}

#[test]
fn empty_province_pile_ends_the_game_alone() {
    let mut board = board();
    for _ in 0..7 {
        board.buy_card(2, CardSet::Victories).unwrap();
        assert!(!board.check_ending());
    }
    board.buy_card(2, CardSet::Victories).unwrap();
    assert!(board.check_ending());
}

#[test]
fn one_empty_pile_that_is_not_the_province_pile_does_not_end_the_game() {
    for (zone, index) in [
        (CardSet::Victories, 0),
        (CardSet::Victories, 1),
        (CardSet::Treasures, 0),
        (CardSet::Treasures, 1),
        (CardSet::Treasures, 2),
        (CardSet::Kingdoms, 0),
        (CardSet::Kingdoms, 4),
    ] {
        let mut board = board();
        while board.buy_card(index, zone).is_ok() {}
        assert!(!board.check_ending());
    }
}

#[test]
fn two_empty_piles_end_the_game_wherever_they_lie() {
    let places = [
        (CardSet::Victories, 0),
        (CardSet::Victories, 1),
        (CardSet::Treasures, 0),
        (CardSet::Treasures, 2),
        (CardSet::Kingdoms, 1),
        (CardSet::Kingdoms, 4),
    ];
    for (i, first) in places.iter().enumerate() {
        for second in places.iter().skip(i + 1) {
            let mut board = board();
            while board.buy_card(first.1, first.0).is_ok() {}
            assert!(!board.check_ending());
            while board.buy_card(second.1, second.0).is_ok() {}
            assert!(board.check_ending());
        }
    }
}

#[test]
fn the_answer_follows_the_piles_at_every_call() {
    let mut board = board();
    board.victory_cards[2].cards_left = 0;
    assert!(board.check_ending());
    board.victory_cards[2].cards_left = 1;
    assert!(!board.check_ending());
}

#[test]
fn many_empty_piles_end_the_game() {
    let mut board = board();
    for _ in 0..300 {
        board.kingdom_set.push(pile("Empty", 0, CardCreator::Moat));
    }
    assert!(board.check_ending());
}
