use hangman::game::Game;
use hangman::turn::{classify_guess, process_guess_input, GuessOutcome};

#[test]
fn input_non_letter_is_invalid_and_untouched() {
    let mut g = Game::new("cat");
    assert_eq!(process_guess_input(&mut g, '9'), GuessOutcome::Invalid('9'));
    assert_eq!(g.guesses_left(), 8);
    assert!(g.guesses().is_empty());
    assert_eq!(process_guess_input(&mut g, ' '), GuessOutcome::Invalid(' '));
    assert_eq!(g.guesses_left(), 8);
}

#[test]
fn input_hit_miss_and_repeat() {
    let mut g = Game::new("cat");
    assert_eq!(process_guess_input(&mut g, 'a'), GuessOutcome::Success);
    assert_eq!(process_guess_input(&mut g, 'a'), GuessOutcome::AlreadyGuessed);
    assert_eq!(process_guess_input(&mut g, 'z'), GuessOutcome::Miss('z'));
    assert_eq!(process_guess_input(&mut g, 'z'), GuessOutcome::AlreadyGuessed);
    assert_eq!(g.guesses_left(), 7);
    assert_eq!(g.get_word(), vec![None, Some('a'), None]);
}

#[test]
fn classify_with_given_validity() {
    let mut g = Game::new("cat");
    assert_eq!(classify_guess(&mut g, 'c', false), GuessOutcome::Invalid('c'));
    assert!(g.guesses().is_empty());
    assert_eq!(classify_guess(&mut g, '9', true), GuessOutcome::Miss('9'));
    assert_eq!(g.guesses_left(), 7);
    assert_eq!(classify_guess(&mut g, 'c', true), GuessOutcome::Success);
}

#[test]
fn messages() {
    assert_eq!(GuessOutcome::Invalid('9').message(), "Invalid guess '9'");
    assert_eq!(GuessOutcome::AlreadyGuessed.message(), "Already guessed that!");
    assert_eq!(GuessOutcome::Success.message(), "Success!");
    assert_eq!(GuessOutcome::Miss('x').message(), "There's no 'x' :(");
}
