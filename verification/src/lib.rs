//! Library implementing the rules and state of a Klondike solitaire game.

pub mod display;
pub mod engine;
pub mod error;
pub mod game;
pub mod input;
pub mod model;
pub mod terminal;
pub mod utils;
