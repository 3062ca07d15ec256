//! A number guessing game: the game's state machine, the validation of typed
//! guesses, and the text of every message the game shows, all verified.

pub mod constants;
pub mod display;
pub mod formatting;
pub mod game;
pub mod input;
pub mod messages;
