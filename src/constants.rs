use vstd::prelude::*;

verus! {

/// Smallest number the secret can be.
pub const MIN_NUMBER: u32 = 1;

/// Largest number the secret can be.
pub const MAX_NUMBER: u32 = 100;

/// Number of incorrect guesses a new game allows.
pub const MAX_GUESSES: u32 = 7;

/// The line drawn above and below banners.
pub const BORDER: &'static str = "----------------------------------------";

/// The first line of the welcome banner.
pub const WELCOME_MSG: &'static str = "Welcome to the Number Guessing Game!";

/// Asks for a guess.
pub const GUESS_PROMPT: &'static str = "Your guess: ";

/// Heads the banner of a won game.
pub const WIN_MSG: &'static str = "🎉 CONGRATULATIONS! 🎉";

/// Heads the banner of a lost game.
pub const LOSE_MSG: &'static str = "😢 GAME OVER 😢";

/// Answers a line that is not a number.
pub const INVALID_NUMBER_MSG: &'static str = "Please enter a valid number!";

/// Shown in front of a guess below the secret.
pub const TOO_SMALL_MSG: &'static str = "Too small";

/// Shown in front of a guess above the secret.
pub const TOO_BIG_MSG: &'static str = "Too big";

/// The arrow beside a guess below the secret.
pub const DOWN_ARROW: &'static str = "⬇️";

/// The arrow beside a guess above the secret.
pub const UP_ARROW: &'static str = "⬆️";

} // verus!
