//! The card model, the catalog of card definitions and the supply piles.

pub mod card;
pub mod card_builder;
pub mod card_properties;
pub mod card_structures;
