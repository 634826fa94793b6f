//! The shared board, the errors of the game and the session that runs it.

pub mod board;
pub mod game_errors;
pub mod game_manager;
pub mod pile_builder;
pub mod player_middleware;
