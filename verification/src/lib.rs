//! A rules engine for Konane, the Hawaiian jump-capture board game, played on
//! a fixed 10 x 10 grid. The engine validates and applies single plies (chains
//! of one or more jumps by one piece), enforces strict turn alternation, and
//! detects when the player to move has no legal jump left.
//!
//! The default layout fills all one hundred cells, so the very first ply on it
//! necessarily fails: no landing cell is empty. The customary pre-play removal
//! of two facing pieces is deliberately left to the caller, who builds the
//! opening board with [`Papamu::set`] and starts play from it through
//! [`GameState::from_papamu`].

mod board;
mod errors;
mod game;
mod occupancy;
mod position;
mod rules;
pub mod turn;

pub use board::Papamu;
pub use errors::MoveError;
pub use game::Game;
pub use game::GameState;
pub use occupancy::Occupancy;
pub use position::Position;
