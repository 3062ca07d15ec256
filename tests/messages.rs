use guessing_game::display::{join_with_spaces, MessageBuilder};
use guessing_game::formatting::{decimal, Color, ColoredOutput, Style};
use guessing_game::game::{Feedback, GameState, GuessingGame, Hint};
use guessing_game::messages::{
    feedback_message, hint_message, invalid_number_message, prompt_message, range_error_message,
};

fn lines(v: &[MessageBuilder]) -> Vec<String> {
    v.iter().map(|m| m.line()).collect()
}

#[test]
fn decimal_writes_base_ten() {
    assert_eq!(decimal(0), "0");
    assert_eq!(decimal(7), "7");
    assert_eq!(decimal(50), "50");
    assert_eq!(decimal(100), "100");
    assert_eq!(decimal(4294967295), "4294967295");
}

#[test]
fn builder_joins_pieces_with_single_spaces() {
    let m = MessageBuilder::new()
        .add("Please enter a number between", Style::plain(Color::Red))
        .add(1u32, Style::plain(Color::Yellow))
        .add("and", Style::plain(Color::Red))
        .add(String::from("100"), Style::plain(Color::Yellow));
    assert_eq!(m.len(), 4);
    assert_eq!(m.text_at(1), "1");
    assert_eq!(m.style_at(1), Style::plain(Color::Yellow));
    assert_eq!(m.line(), "Please enter a number between 1 and 100");
    assert_eq!(MessageBuilder::new().line(), "");
    let one = MessageBuilder::new().add("alone", Style::italic());
    assert_eq!(one.line(), "alone");
}

#[test]
fn join_with_spaces_places_single_spaces() {
    assert_eq!(join_with_spaces(&vec![]), "");
    assert_eq!(join_with_spaces(&vec!["a".to_string()]), "a");
    assert_eq!(join_with_spaces(&vec!["a".to_string(), "".to_string(), "b c".to_string()]), "a  b c");
}

#[test]
fn colored_output_keeps_the_text() {
    let seg = 42u32.to_colored(Style::bold(Color::Green));
    assert_eq!(seg.text, "42");
    assert_eq!(seg.style, Style::bold(Color::Green));
    assert_eq!("hi".to_text(), "hi");
}

#[test]
fn feedback_messages() {
    assert_eq!(range_error_message().line(), "Please enter a number between 1 and 100");
    assert_eq!(invalid_number_message().line(), "Please enter a valid number!");
    assert_eq!(hint_message(Hint::TooSmall).line(), "⬇️ Too small");
    assert_eq!(hint_message(Hint::TooBig).line(), "⬆️ Too big");
    assert!(feedback_message(Feedback::Correct).is_none());
    assert_eq!(
        feedback_message(Feedback::OutOfRange).unwrap().line(),
        "Please enter a number between 1 and 100"
    );
    assert_eq!(prompt_message().line(), "Your guess: ");
}

#[test]
fn welcome_banner() {
    let game = GuessingGame::new();
    assert_eq!(
        lines(&game.welcome_messages()),
        vec![
            "",
            "Welcome to the Number Guessing Game!",
            "----------------------------------------",
            "I'm thinking of a number between 1 and 100",
            "You have 7 guesses to find it!",
            "----------------------------------------",
        ]
    );
}

#[test]
fn remaining_guesses_line() {
    let game = GuessingGame::with_secret(3, 5);
    assert_eq!(lines(&game.remaining_messages()), vec!["", "Guesses remaining: 5"]);
}

#[test]
fn won_game_reveals_secret() {
    let mut game = GuessingGame::with_secret(50, 7);
    let mut shown = Vec::new();
    for line in ["70", "30", "50"] {
        if let Some(m) = feedback_message(game.submit(line)) {
            shown.push(m.line());
        }
    }
    assert_eq!(shown, vec!["⬆️ Too big", "⬇️ Too small"]);
    assert_eq!(game.state(), GameState::Won);
    assert_eq!(game.guesses_remaining(), 5);
    assert_eq!(
        lines(&game.game_over_messages()),
        vec![
            "",
            "----------------------------------------",
            "🎉 CONGRATULATIONS! 🎉",
            "You found the number: 50",
            "----------------------------------------",
        ]
    );
}

#[test]
fn lost_game_reveals_secret() {
    let mut game = GuessingGame::with_secret(50, 1);
    assert_eq!(feedback_message(game.submit("10")).unwrap().line(), "⬇️ Too small");
    assert_eq!(game.state(), GameState::Lost);
    assert_eq!(
        lines(&game.game_over_messages()),
        vec![
            "",
            "----------------------------------------",
            "😢 GAME OVER 😢",
            "The number was: 50",
            "----------------------------------------",
        ]
    );
}
