use crate::constants::{MAX_GUESSES, MAX_NUMBER, MIN_NUMBER};
use crate::input::{classify_spec, parse_guess, trim_of, GuessInput};
use rand::Rng;
use vstd::prelude::*;

verus! {

/// A guess, already known to be a whole number.
pub type Guess = u32;

/// Where a game stands.
#[derive(Debug, Clone, Copy, PartialEq, Eq, Structural)]
pub enum GameState {
    Playing,
    Won,
    Lost,
}

/// The direction in which an incorrect guess missed the secret.
#[derive(Debug, Clone, Copy, PartialEq, Eq, Structural)]
pub enum Hint {
    TooSmall,
    TooBig,
}

/// What the game answers to one line of input.
#[derive(Debug, Clone, Copy, PartialEq, Eq, Structural)]
pub enum Feedback {
    /// The line is not a number: asked again, no guess used up.
    InvalidNumber,
    /// The number is outside the range: asked again, no guess used up.
    OutOfRange,
    /// An incorrect guess, and where it missed.
    Hint(Hint),
    /// The correct guess.
    Correct,
}

/// The feedback a classified line of input earns against `secret`.
pub open spec fn feedback_for(input: GuessInput, secret: int) -> Feedback {
    match input {
        GuessInput::Invalid => Feedback::InvalidNumber,
        GuessInput::OutOfRange(_) => Feedback::OutOfRange,
        GuessInput::Valid(g) => match hint_for(g as int, secret) {
            Some(h) => Feedback::Hint(h),
            None => Feedback::Correct,
        },
    }
}

/// One game: the secret, the incorrect guesses still allowed, and its state.
pub struct GuessingGame {
    secret_number: Guess,
    guesses_remaining: u32,
    state: GameState,
}

/// Whether `n` lies in the range the secret is drawn from.
pub open spec fn in_range(n: int) -> bool {
    MIN_NUMBER <= n <= MAX_NUMBER
}

/// The hint an incorrect guess earns, or none for the correct one.
pub open spec fn hint_for(guess: int, secret: int) -> Option<Hint> {
    if guess < secret {
        Some(Hint::TooSmall)
    } else if guess > secret {
        Some(Hint::TooBig)
    } else {
        None
    }
}

/// What one valid guess does to a game that goes on, given its secret and
/// the guesses left: the correct one wins without using up a guess; an
/// incorrect one uses up one, and the last one loses the game.
pub open spec fn step_spec(secret: int, remaining: int, guess: int) -> (int, GameState) {
    if guess == secret {
        (remaining, GameState::Won)
    } else if remaining - 1 == 0 {
        (0, GameState::Lost)
    } else {
        (remaining - 1, GameState::Playing)
    }
}

/// The guesses left and the state after a game that goes on, with `remaining`
/// guesses left, takes `guesses` one by one; the game stops taking them once
/// it has ended.
pub open spec fn play(secret: int, remaining: int, guesses: Seq<int>) -> (int, GameState)
    decreases guesses.len(),
{
    if guesses.len() == 0 {
        (remaining, GameState::Playing)
    } else {
        let (r, st) = step_spec(secret, remaining, guesses[0]);
        if st == GameState::Playing && r > 0 {
            play(secret, r, guesses.drop_first())
        } else {
            (r, st)
        }
    }
}

/// Incorrect guesses, fewer than or as many as the guesses left, each use up
/// one: the game goes on while some are left and is lost when none are.
proof fn lemma_incorrect_guesses(secret: int, remaining: int, guesses: Seq<int>)
    requires
        remaining > 0,
        guesses.len() <= remaining,
        forall|i: int| 0 <= i < guesses.len() ==> #[trigger] guesses[i] != secret,
    ensures
        guesses.len() == remaining ==> play(secret, remaining, guesses) == (0int, GameState::Lost),
        guesses.len() < remaining ==> play(secret, remaining, guesses) == (
            remaining - guesses.len(),
            GameState::Playing,
        ),
    decreases guesses.len(),
{
    if guesses.len() > 0 {
        assert(guesses[0] != secret);
        if remaining > 1 {
            let rest = guesses.drop_first();
            assert forall|i: int| 0 <= i < rest.len() implies #[trigger] rest[i] != secret by {
                assert(rest[i] == guesses[i + 1]);
            }
            lemma_incorrect_guesses(secret, remaining - 1, rest);
        }
    }
}

/// A game that starts with a budget of `n` guesses is lost after `n`
/// incorrect guesses, and after the first `n - 1` of them it still goes on
/// with one guess left.
pub proof fn lemma_budget_runs_out(secret: int, n: int, guesses: Seq<int>)
    requires
        in_range(secret),
        n > 0,
        guesses.len() == n,
        forall|i: int| 0 <= i < guesses.len() ==> #[trigger] guesses[i] != secret,
    ensures
        play(secret, n, guesses) == (0int, GameState::Lost),
        play(secret, n, guesses.take(n - 1)) == (1int, GameState::Playing),
{
    lemma_incorrect_guesses(secret, n, guesses);
    let first = guesses.take(n - 1);
    assert forall|i: int| 0 <= i < first.len() implies #[trigger] first[i] != secret by {
        assert(first[i] == guesses[i]);
    }
    lemma_incorrect_guesses(secret, n, first);
}

/// A line that is not a number, or a number outside the range, leaves the
/// guesses left and the state of any game as they were.
pub proof fn lemma_rejected_input_keeps_game(game: GuessingGame, line: Seq<char>)
    requires
        game.wf(),
        !(classify_spec(trim_of(line)) is Valid),
    ensures
        game.after_input(classify_spec(trim_of(line))) == (game.remaining(), game.status()),
{
}

/// Relies on rand's `rng().random_range(lo..=hi)`: a value between `lo` and
/// `hi`, both included (it panics only on an empty range).
#[verifier::external_body]
fn random_in_range(lo: u32, hi: u32) -> (r: u32)
    requires
        lo <= hi,
    ensures
        lo <= r <= hi,
{
    rand::rng().random_range(lo..=hi)
}

impl GuessingGame {
    /// The secret, which never changes once the game is made.
    pub closed spec fn secret(&self) -> int {
        self.secret_number as int
    }

    /// The incorrect guesses still allowed.
    pub closed spec fn remaining(&self) -> int {
        self.guesses_remaining as int
    }

    /// The state of the game.
    pub closed spec fn status(&self) -> GameState {
        self.state
    }

    /// A game is well formed when its secret lies in the range.
    pub open spec fn wf(&self) -> bool {
        in_range(self.secret())
    }

    /// Whether the game goes on: it is being played and guesses are left.
    pub open spec fn spec_is_playing(&self) -> bool {
        self.status() == GameState::Playing && self.remaining() > 0
    }

    /// What one valid guess does to this game, when it goes on.
    pub open spec fn step(&self, guess: int) -> (int, GameState) {
        step_spec(self.secret(), self.remaining(), guess)
    }

    /// What a classified line of input does to a game that goes on: only a
    /// valid guess moves it.
    pub open spec fn after_input(&self, input: GuessInput) -> (int, GameState) {
        match input {
            GuessInput::Valid(g) => self.step(g as int),
            _ => (self.remaining(), self.status()),
        }
    }

    /// A new game with a secret drawn at random from the range and the full
    /// budget of guesses.
    pub fn new() -> (r: Self)
        ensures
            r.wf(),
            in_range(r.secret()),
            r.status() == GameState::Playing,
            r.remaining() == MAX_GUESSES,
    {
        GuessingGame {
            secret_number: random_in_range(MIN_NUMBER, MAX_NUMBER),
            guesses_remaining: MAX_GUESSES,
            state: GameState::Playing,
        }
    }

    /// A game with a chosen secret and budget, being played.
    pub fn with_secret(secret: Guess, guesses: u32) -> (r: Self)
        requires
            in_range(secret as int),
        ensures
            r.wf(),
            r.secret() == secret,
            r.remaining() == guesses,
            r.status() == GameState::Playing,
    {
        GuessingGame { secret_number: secret, guesses_remaining: guesses, state: GameState::Playing }
    }

    /// A game resumed from a secret, a count of remaining guesses and a state.
    pub fn from_parts(secret: Guess, guesses: u32, state: GameState) -> (r: Self)
        requires
            in_range(secret as int),
        ensures
            r.wf(),
            r.secret() == secret,
            r.remaining() == guesses,
            r.status() == state,
    {
        GuessingGame { secret_number: secret, guesses_remaining: guesses, state }
    }

    /// The secret.
    pub fn secret_number(&self) -> (r: Guess)
        ensures
            r == self.secret(),
    {
        self.secret_number
    }

    /// The incorrect guesses still allowed.
    pub fn guesses_remaining(&self) -> (r: u32)
        ensures
            r == self.remaining(),
    {
        self.guesses_remaining
    }

    /// The state of the game.
    pub fn state(&self) -> (r: GameState)
        ensures
            r == self.status(),
    {
        self.state
    }

    /// Whether the game goes on.
    pub fn is_playing(&self) -> (r: bool)
        ensures
            r == self.spec_is_playing(),
    {
        self.state == GameState::Playing && self.guesses_remaining > 0
    }

    /// Takes one valid guess: compares it with the secret, moves the game on,
    /// and returns the hint for an incorrect guess (none for the correct one).
    pub fn process_guess(&mut self, guess: Guess) -> (r: Option<Hint>)
        requires
            old(self).wf(),
            old(self).spec_is_playing(),
        ensures
            final(self).wf(),
            final(self).secret() == old(self).secret(),
            (final(self).remaining(), final(self).status()) == old(self).step(guess as int),
            r == hint_for(guess as int, old(self).secret()),
            guess == old(self).secret() ==> final(self).remaining() == old(self).remaining()
                && final(self).status() == GameState::Won,
            guess != old(self).secret() ==> final(self).remaining() == old(self).remaining() - 1,
    {
        if guess == self.secret_number {
            self.state = GameState::Won;
            None
        } else {
            let hint = if guess < self.secret_number {
                Hint::TooSmall
            } else {
                Hint::TooBig
            };
            self.guesses_remaining = self.guesses_remaining - 1;
            if self.guesses_remaining == 0 {
                self.state = GameState::Lost;
            }
            Some(hint)
        }
    }

    /// Answers a classified line of input: a valid guess moves the game on,
    /// anything else leaves it as it was.
    pub fn submit_input(&mut self, input: GuessInput) -> (r: Feedback)
        requires
            old(self).wf(),
            old(self).spec_is_playing(),
        ensures
            final(self).wf(),
            final(self).secret() == old(self).secret(),
            (final(self).remaining(), final(self).status()) == old(self).after_input(input),
            r == feedback_for(input, old(self).secret()),
    {
        match input {
            GuessInput::Invalid => Feedback::InvalidNumber,
            GuessInput::OutOfRange(_) => Feedback::OutOfRange,
            GuessInput::Valid(g) => match self.process_guess(g) {
                Some(h) => Feedback::Hint(h),
                None => Feedback::Correct,
            },
        }
    }

    /// Answers a line of input as typed: trims it, reads it as a number, and
    /// moves the game on only for a guess inside the range.
    pub fn submit(&mut self, line: &str) -> (r: Feedback)
        requires
            old(self).wf(),
            old(self).spec_is_playing(),
        ensures
            final(self).wf(),
            final(self).secret() == old(self).secret(),
            (final(self).remaining(), final(self).status()) == old(self).after_input(
                classify_spec(trim_of(line@)),
            ),
            r == feedback_for(classify_spec(trim_of(line@)), old(self).secret()),
    {
        let input = parse_guess(line);
        self.submit_input(input)
    }
}

} // verus!
