use guessing_game::input::{classify_guess, parse_guess, parse_u32, GuessInput};

#[test]
fn numbers_in_range_are_guesses() {
    assert_eq!(parse_guess("1"), GuessInput::Valid(1));
    assert_eq!(parse_guess("100"), GuessInput::Valid(100));
    assert_eq!(parse_guess("42"), GuessInput::Valid(42));
    assert_eq!(parse_guess("+7"), GuessInput::Valid(7));
    assert_eq!(parse_guess("007"), GuessInput::Valid(7));
}

#[test]
fn surrounding_whitespace_is_trimmed() {
    assert_eq!(parse_guess("  50 \n"), GuessInput::Valid(50));
    assert_eq!(parse_guess("\t9\r\n"), GuessInput::Valid(9));
    assert_eq!(classify_guess(" 50"), GuessInput::Invalid);
}

#[test]
fn numbers_outside_the_range() {
    assert_eq!(parse_guess("0"), GuessInput::OutOfRange(0));
    assert_eq!(parse_guess("101"), GuessInput::OutOfRange(101));
    assert_eq!(parse_guess("4294967295"), GuessInput::OutOfRange(4294967295));
}

#[test]
fn malformed_lines_are_invalid() {
    assert_eq!(parse_guess("abc"), GuessInput::Invalid);
    assert_eq!(parse_guess(""), GuessInput::Invalid);
    assert_eq!(parse_guess("   \n"), GuessInput::Invalid);
    assert_eq!(parse_guess("-5"), GuessInput::Invalid);
    assert_eq!(parse_guess("+"), GuessInput::Invalid);
    assert_eq!(parse_guess("1 2"), GuessInput::Invalid);
    assert_eq!(parse_guess("12a"), GuessInput::Invalid);
    assert_eq!(parse_guess("4294967296"), GuessInput::Invalid);
    assert_eq!(parse_guess("99999999999999999999"), GuessInput::Invalid);
}

#[test]
fn parse_u32_agrees_with_std() {
    for s in ["0", "1", "+1", "-1", "+", "", "65535", "4294967295", "4294967296", "12x", "00042", "++1", "١٢"] {
        assert_eq!(parse_u32(s), s.parse::<u32>().ok(), "{s:?}");
    }
}
