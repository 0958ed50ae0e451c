//! The simulation core of a grid-based snake game.
//!
//! A snake moves over a board of fixed size, one cell per tick. It grows when
//! its head reaches the food and the game ends when the head leaves the board
//! or runs into the body. Every function here is verified against a contract
//! stated over the mathematical view of the state it reads or changes. One
//! thing is taken on trust: the draw of a random number in `food`, of which
//! nothing is claimed.

pub mod board;
pub mod food;
pub mod game;
pub mod input;
pub mod laws;
pub mod position;
pub mod snake;
