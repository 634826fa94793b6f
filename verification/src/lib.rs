//! A two-player deck-building card game engine with machine-checked rules.
//!
//! The crate models cards, supply piles, the shared board, the players with
//! their turn phases and resources, and the session that alternates a human
//! player with a fixed opponent policy. Around the session it holds the
//! state of an application that shows the game, and what each key does to
//! it.
//!
//! Every function carries a contract that Verus proves against its body.
//! The one exception is the call into the `rand` crate that shuffles a
//! queue of cards: its contract is stated and believed.

pub mod app;
pub mod card_manager;
pub mod game;
pub mod input;
pub mod player;
