//! What is shown beside the engine: where things lie, and what is asked.

pub mod board;
pub mod dice;
pub mod in_game_modal;
