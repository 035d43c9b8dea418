//! The engine of a board game in which the players go round a board of
//! forty cells, buy the properties they land on, pay each other rent, and
//! drop out when they cannot pay.
//!
//! The engine is verified with Verus. Every type has a view: what it is as
//! plain mathematical values. Every step of the game is first a function on
//! views ([`game_view`], and the views in [`cell`] and [`player`]), and the
//! executable step is proved to do what that function says. The laws of the
//! game are proof functions over the same views.
//!
//! The engine decides and keeps the books; it asks nobody and waits for
//! nobody. A turn goes through [`game_state::GameState::roll_dice`],
//! [`game_state::GameState::dice_transition_end`],
//! [`game_state::GameState::player_token_transition_end`] and
//! [`game_state::GameState::respond`]: whoever drives the game supplies the
//! dice and the chance card, shows what there is to show, puts the prompt of
//! a [`turn::Landing`] to the player, and hands the answer back.

pub mod cell;
pub mod components;
pub mod game_data;
pub mod game_state;
pub mod game_view;
pub mod money;
pub mod player;
pub mod server;
pub mod text;
pub mod turn;
pub mod utils;
