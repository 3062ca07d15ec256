use guessing_game::constants::{MAX_GUESSES, MAX_NUMBER, MIN_NUMBER};
use guessing_game::game::{Feedback, GameState, GuessingGame, Hint};

#[test]
fn test_new_game() {
    let game = GuessingGame::new();
    assert_eq!(game.guesses_remaining(), MAX_GUESSES);
    assert!(matches!(game.state(), GameState::Playing));
    assert!(game.secret_number() >= MIN_NUMBER);
    assert!(game.secret_number() <= MAX_NUMBER);
}

#[test]
fn test_game_state_transitions() {
    let game = GuessingGame::new();
    let mut game = GuessingGame::from_parts(50, game.guesses_remaining(), game.state());

    // Test winning
    game.process_guess(50);
    assert!(matches!(game.state(), GameState::Won));

    // Test losing
    let game = GuessingGame::new();
    let mut game = GuessingGame::from_parts(50, 1, game.state());
    game.process_guess(30); // Wrong guess
    assert!(matches!(game.state(), GameState::Lost));
}

#[test]
fn test_is_playing() {
    let game = GuessingGame::new();
    assert!(game.is_playing());

    let secret = game.secret_number();
    let remaining = game.guesses_remaining();

    // Test when won
    let game = GuessingGame::from_parts(secret, remaining, GameState::Won);
    assert!(!game.is_playing());

    // Test when lost
    let game = GuessingGame::from_parts(secret, remaining, GameState::Lost);
    assert!(!game.is_playing());

    // Test when out of guesses
    let game = GuessingGame::from_parts(secret, 0, GameState::Playing);
    assert!(!game.is_playing());
}

#[test]
fn new_games_always_draw_a_secret_in_range() {
    for _ in 0..200 {
        let game = GuessingGame::new();
        assert!(game.secret_number() >= 1 && game.secret_number() <= 100);
        assert_eq!(game.state(), GameState::Playing);
        assert_eq!(game.guesses_remaining(), 7);
    }
}

#[test]
fn hints_point_the_right_way_and_use_one_guess() {
    for secret in [1u32, 2, 50, 99, 100] {
        for guess in 1u32..=100 {
            let mut game = GuessingGame::with_secret(secret, MAX_GUESSES);
            let hint = game.process_guess(guess);
            if guess < secret {
                assert_eq!(hint, Some(Hint::TooSmall));
                assert_eq!(game.guesses_remaining(), MAX_GUESSES - 1);
                assert_eq!(game.state(), GameState::Playing);
            } else if guess > secret {
                assert_eq!(hint, Some(Hint::TooBig));
                assert_eq!(game.guesses_remaining(), MAX_GUESSES - 1);
                assert_eq!(game.state(), GameState::Playing);
            } else {
                assert_eq!(hint, None);
                assert_eq!(game.guesses_remaining(), MAX_GUESSES);
                assert_eq!(game.state(), GameState::Won);
            }
        }
    }
}

#[test]
fn budget_runs_out_after_that_many_wrong_guesses() {
    let mut game = GuessingGame::with_secret(42, MAX_GUESSES);
    for _ in 0..MAX_GUESSES - 1 {
        assert!(game.is_playing());
        game.process_guess(10);
    }
    assert_eq!(game.state(), GameState::Playing);
    assert_eq!(game.guesses_remaining(), 1);
    assert!(game.is_playing());
    game.process_guess(90);
    assert_eq!(game.state(), GameState::Lost);
    assert_eq!(game.guesses_remaining(), 0);
    assert!(!game.is_playing());
}

#[test]
fn rejected_lines_use_no_guess() {
    let mut game = GuessingGame::with_secret(50, MAX_GUESSES);
    for line in ["abc", "0", "101", "", "-3", "4294967296", "5 5"] {
        let feedback = game.submit(line);
        assert!(feedback == Feedback::InvalidNumber || feedback == Feedback::OutOfRange);
        assert_eq!(game.guesses_remaining(), MAX_GUESSES);
        assert_eq!(game.state(), GameState::Playing);
    }
    assert_eq!(game.submit("abc"), Feedback::InvalidNumber);
    assert_eq!(game.submit("0"), Feedback::OutOfRange);
    assert_eq!(game.submit("101"), Feedback::OutOfRange);
}

#[test]
fn win_after_two_misses() {
    let mut game = GuessingGame::with_secret(50, MAX_GUESSES);
    assert_eq!(game.submit("70\n"), Feedback::Hint(Hint::TooBig));
    assert_eq!(game.submit("30\n"), Feedback::Hint(Hint::TooSmall));
    assert_eq!(game.submit("50\n"), Feedback::Correct);
    assert_eq!(game.state(), GameState::Won);
    assert!(!game.is_playing());
    assert_eq!(game.guesses_remaining(), MAX_GUESSES - 2);
}

#[test]
fn single_guess_budget_lost_on_one_miss() {
    let mut game = GuessingGame::with_secret(50, 1);
    assert_eq!(game.submit("10"), Feedback::Hint(Hint::TooSmall));
    assert_eq!(game.state(), GameState::Lost);
    assert_eq!(game.guesses_remaining(), 0);
    assert!(!game.is_playing());
}
