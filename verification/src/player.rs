//! The participants of a game and the phases of their turns.

pub mod phases;
pub mod player;
