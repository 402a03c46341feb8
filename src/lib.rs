//! A terminal word-guessing game: the secret word, the guess rules and the
//! win/loss state machine, with the dictionary filtering and the text shown
//! to the player.

pub mod chars;
mod text;
pub mod letter;
pub mod model;
pub mod game;
pub mod turn;
pub mod dict;
pub mod laws;
