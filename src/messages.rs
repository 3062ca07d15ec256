use crate::constants::{
    BORDER, DOWN_ARROW, GUESS_PROMPT, INVALID_NUMBER_MSG, LOSE_MSG, MAX_GUESSES, MAX_NUMBER,
    MIN_NUMBER, TOO_BIG_MSG, TOO_SMALL_MSG, UP_ARROW, WELCOME_MSG, WIN_MSG,
};
use crate::display::MessageBuilder;
use crate::formatting::{decimal, decimal_spec, Color, Style};
use crate::game::{Feedback, GameState, GuessingGame, Hint};
use vstd::prelude::*;

verus! {

/// The texts of the pieces of each message, in order.
pub open spec fn texts_of(v: Seq<MessageBuilder>) -> Seq<Seq<Seq<char>>> {
    v.map_values(|m: MessageBuilder| m.texts())
}

/// The line that states the range.
pub open spec fn range_line() -> Seq<char> {
    "I'm thinking of a number between "@ + decimal_spec(MIN_NUMBER as nat) + " and "@
        + decimal_spec(MAX_NUMBER as nat)
}

/// The line that states the budget of a new game.
pub open spec fn budget_line() -> Seq<char> {
    "You have "@ + decimal_spec(MAX_GUESSES as nat) + " guesses to find it!"@
}

/// The line that states how many guesses are left.
pub open spec fn remaining_line(n: nat) -> Seq<char> {
    "Guesses remaining: "@ + decimal_spec(n)
}

/// The line of a won game that reveals the secret.
pub open spec fn found_line(secret: nat) -> Seq<char> {
    "You found the number: "@ + decimal_spec(secret)
}

/// The line of a lost game that reveals the secret.
pub open spec fn was_line(secret: nat) -> Seq<char> {
    "The number was: "@ + decimal_spec(secret)
}

/// The pieces of the message for a hint.
pub open spec fn hint_texts(h: Hint) -> Seq<Seq<char>> {
    match h {
        Hint::TooSmall => seq![DOWN_ARROW@, TOO_SMALL_MSG@],
        Hint::TooBig => seq![UP_ARROW@, TOO_BIG_MSG@],
    }
}

/// The pieces of the message that asks for a number inside the range.
pub open spec fn range_error_texts() -> Seq<Seq<char>> {
    seq![
        "Please enter a number between"@,
        decimal_spec(MIN_NUMBER as nat),
        "and"@,
        decimal_spec(MAX_NUMBER as nat),
    ]
}

/// A message of one piece.
fn single(text: String, style: Style) -> (r: MessageBuilder)
    ensures
        r.texts() == seq![text@],
{
    let r = MessageBuilder::new().add(text, style);
    assert(r.texts() =~= seq![text@]);
    r
}

/// A message of one piece taken from a constant text.
fn single_str(text: &'static str, style: Style) -> (r: MessageBuilder)
    ensures
        r.texts() == seq![text@],
{
    single(String::from_str(text), style)
}

/// The message with the border line.
pub fn border_message() -> (r: MessageBuilder)
    ensures
        r.texts() == seq![BORDER@],
{
    single_str(BORDER, Style::plain(Color::Cyan))
}

/// The message that asks for a number inside the range.
pub fn range_error_message() -> (r: MessageBuilder)
    ensures
        r.texts() == range_error_texts(),
{
    let r = MessageBuilder::new()
        .add("Please enter a number between", Style::plain(Color::Red))
        .add(MIN_NUMBER, Style::plain(Color::Yellow))
        .add("and", Style::plain(Color::Red))
        .add(MAX_NUMBER, Style::plain(Color::Yellow));
    assert(r.texts() =~= range_error_texts());
    r
}

/// The message that answers a line that is not a number.
pub fn invalid_number_message() -> (r: MessageBuilder)
    ensures
        r.texts() == seq![INVALID_NUMBER_MSG@],
{
    single_str(INVALID_NUMBER_MSG, Style::bold(Color::Red))
}

/// The message for a hint: an arrow, then which way the guess missed.
pub fn hint_message(hint: Hint) -> (r: MessageBuilder)
    ensures
        r.texts() == hint_texts(hint),
{
    let (text, arrow) = match hint {
        Hint::TooSmall => (TOO_SMALL_MSG, DOWN_ARROW),
        Hint::TooBig => (TOO_BIG_MSG, UP_ARROW),
    };
    let r = MessageBuilder::new().add(arrow, Style::plain(Color::Normal)).add(
        text,
        Style::bold(Color::Red),
    );
    assert(r.texts() =~= hint_texts(hint));
    r
}

/// The message, if any, that answers one line of input.
pub fn feedback_message(feedback: Feedback) -> (r: Option<MessageBuilder>)
    ensures
        feedback == Feedback::Correct <==> r is None,
        feedback == Feedback::InvalidNumber ==> r->0.texts() == seq![INVALID_NUMBER_MSG@],
        feedback == Feedback::OutOfRange ==> r->0.texts() == range_error_texts(),
        forall|h: Hint| feedback == Feedback::Hint(h) ==> r->0.texts() == hint_texts(h),
{
    match feedback {
        Feedback::InvalidNumber => Some(invalid_number_message()),
        Feedback::OutOfRange => Some(range_error_message()),
        Feedback::Hint(h) => Some(hint_message(h)),
        Feedback::Correct => None,
    }
}

/// The message that asks for a guess.
pub fn prompt_message() -> (r: MessageBuilder)
    ensures
        r.texts() == seq![GUESS_PROMPT@],
{
    single_str(GUESS_PROMPT, Style::plain(Color::Green))
}

impl GuessingGame {
    /// The welcome banner: an empty line, the title, the border, the range,
    /// the budget of a new game, and the border again.
    pub fn welcome_messages(&self) -> (r: Vec<MessageBuilder>)
        ensures
            texts_of(r@) == seq![
                Seq::<Seq<char>>::empty(),
                seq![WELCOME_MSG@],
                seq![BORDER@],
                seq![range_line()],
                seq![budget_line()],
                seq![BORDER@],
            ],
    {
        let range = String::from_str("I'm thinking of a number between ").concat(
            decimal(MIN_NUMBER).as_str(),
        ).concat(" and ").concat(decimal(MAX_NUMBER).as_str());
        let budget = String::from_str("You have ").concat(decimal(MAX_GUESSES).as_str()).concat(
            " guesses to find it!",
        );
        let mut r: Vec<MessageBuilder> = Vec::new();
        r.push(MessageBuilder::new());
        r.push(single_str(WELCOME_MSG, Style::bold(Color::Cyan)));
        r.push(border_message());
        r.push(single(range, Style::italic()));
        r.push(single(budget, Style::bold(Color::Green)));
        r.push(border_message());
        assert(texts_of(r@) =~= seq![
            Seq::<Seq<char>>::empty(),
            seq![WELCOME_MSG@],
            seq![BORDER@],
            seq![range_line()],
            seq![budget_line()],
            seq![BORDER@],
        ]);
        r
    }

    /// Before each guess: an empty line and the count of guesses left.
    pub fn remaining_messages(&self) -> (r: Vec<MessageBuilder>)
        ensures
            texts_of(r@) == seq![
                Seq::<Seq<char>>::empty(),
                seq![remaining_line(self.remaining() as nat)],
            ],
    {
        let line = String::from_str("Guesses remaining: ").concat(
            decimal(self.guesses_remaining()).as_str(),
        );
        let mut r: Vec<MessageBuilder> = Vec::new();
        r.push(MessageBuilder::new());
        r.push(single(line, Style::bold(Color::Yellow)));
        assert(texts_of(r@) =~= seq![
            Seq::<Seq<char>>::empty(),
            seq![remaining_line(self.remaining() as nat)],
        ]);
        r
    }

    /// The closing banner of a finished game: an empty line, the border, the
    /// outcome, the secret revealed, and the border again.
    pub fn game_over_messages(&self) -> (r: Vec<MessageBuilder>)
        requires
            self.status() != GameState::Playing,
        ensures
            self.status() == GameState::Won ==> texts_of(r@) == seq![
                Seq::<Seq<char>>::empty(),
                seq![BORDER@],
                seq![WIN_MSG@],
                seq![found_line(self.secret() as nat)],
                seq![BORDER@],
            ],
            self.status() == GameState::Lost ==> texts_of(r@) == seq![
                Seq::<Seq<char>>::empty(),
                seq![BORDER@],
                seq![LOSE_MSG@],
                seq![was_line(self.secret() as nat)],
                seq![BORDER@],
            ],
    {
        let secret = decimal(self.secret_number());
        let mut r: Vec<MessageBuilder> = Vec::new();
        r.push(MessageBuilder::new());
        r.push(border_message());
        if self.state() == GameState::Won {
            r.push(single_str(WIN_MSG, Style::bold(Color::Green)));
            let line = String::from_str("You found the number: ").concat(secret.as_str());
            r.push(single(line, Style::plain(Color::Green)));
        } else {
            r.push(single_str(LOSE_MSG, Style::bold(Color::Red)));
            let line = String::from_str("The number was: ").concat(secret.as_str());
            r.push(single(line, Style::plain(Color::Red)));
        }
        r.push(border_message());
        assert(self.status() == GameState::Won ==> texts_of(r@) =~= seq![
            Seq::<Seq<char>>::empty(),
            seq![BORDER@],
            seq![WIN_MSG@],
            seq![found_line(self.secret() as nat)],
            seq![BORDER@],
        ]);
        assert(self.status() == GameState::Lost ==> texts_of(r@) =~= seq![
            Seq::<Seq<char>>::empty(),
            seq![BORDER@],
            seq![LOSE_MSG@],
            seq![was_line(self.secret() as nat)],
            seq![BORDER@],
        ]);
        r
    }
}

} // verus!
