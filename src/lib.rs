//! A pachislo (slot-reel pachinko) machine: ball inventory across Normal and
//! Rush modes, weighted lottery draws with fake presentations, and reel
//! sequences that render a lottery outcome.
pub mod command;
pub mod config;
pub mod game;
pub mod interface;
pub mod lottery;
pub mod random;
pub mod slot;

pub use game::Game;
