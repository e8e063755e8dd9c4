//! Snake on a fixed grid: the rules of the game, verified.
//!
//! The crate holds everything the game decides: how the snake moves, when a
//! run ends, where food may land, which key does what, and what every cell of
//! a frame shows. Reading the keyboard and painting the terminal are left to
//! the program that drives it.

pub mod driver;
pub mod game;
pub mod grid;
pub mod input;
pub mod render;
mod rng;
