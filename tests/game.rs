use hangman::game::Game;
use hangman::letter::Letter;
use hangman::model::Status;

#[test]
fn letter_starts_hidden_and_reveals_on_match() {
    let mut l = Letter::new('q');
    assert!(!l.is_revealed());
    assert_eq!(l.get(), None);
    assert_eq!(l.peek(), 'q');
    l.reveal_if_is('z');
    assert!(!l.is_revealed());
    l.reveal_if_is('q');
    assert!(l.is_revealed());
    assert_eq!(l.get(), Some('q'));
    l.uncover();
    assert!(l.is_revealed());
    assert_eq!(l.peek(), 'q');
}

#[test]
fn new_game_is_running_with_full_budget() {
    let g = Game::new("cat");
    assert_eq!(g.guesses_left(), 8);
    assert!(g.guesses().is_empty());
    assert_eq!(g.get_word(), vec![None, None, None]);
    assert_eq!(g.status(), Status::Running);
    assert!(g.is_running());
    assert!(!g.is_won());
    assert!(!g.is_lost());
    assert_eq!(g.peek_word(), "cat");
}

#[test]
fn scenario_all_hits_win() {
    let mut g = Game::new("cat");
    assert!(g.guess('c'));
    assert_eq!(g.get_word(), vec![Some('c'), None, None]);
    assert!(g.guess('a'));
    assert_eq!(g.get_word(), vec![Some('c'), Some('a'), None]);
    assert!(g.guess('t'));
    assert_eq!(g.get_word(), vec![Some('c'), Some('a'), Some('t')]);
    assert_eq!(g.status(), Status::Won);
    assert!(g.is_won());
    assert_eq!(g.guesses_left(), 8);
}

#[test]
fn scenario_eight_misses_lose() {
    let mut g = Game::new("dog");
    let mut left = 8;
    for c in ['x', 'y', 'z', 'q', 'w', 'v', 'k', 'j'] {
        assert_eq!(g.guesses_left(), left);
        assert!(!g.guess(c));
        left -= 1;
        assert_eq!(g.guesses_left(), left);
    }
    assert_eq!(g.guesses_left(), 0);
    assert_eq!(g.status(), Status::Lost);
    assert!(g.is_lost());
    assert!(!g.is_running());
    // the round is over: even a letter of the word changes nothing
    assert!(!g.guess('d'));
    assert_eq!(g.get_word(), vec![None, None, None]);
    assert_eq!(g.guesses().len(), 8);
}

#[test]
fn scenario_double_letter_revealed_at_once() {
    let mut g = Game::new("book");
    assert!(g.guess('o'));
    assert_eq!(g.get_word(), vec![None, Some('o'), Some('o'), None]);
    assert_eq!(g.guesses_left(), 8);
    assert_eq!(g.masked_line(), "_ o o _ ");
}

#[test]
fn scenario_repeated_guess_is_free() {
    let mut g = Game::new("cat");
    assert!(g.guess('c'));
    assert!(!g.guess('c'));
    assert_eq!(g.guesses_left(), 8);
    assert_eq!(g.guesses().len(), 1);
    assert_eq!(g.get_word(), vec![Some('c'), None, None]);
}

#[test]
fn repeated_miss_costs_once() {
    let mut g = Game::new("cat");
    assert!(!g.guess('z'));
    assert!(!g.guess('z'));
    assert_eq!(g.guesses_left(), 7);
    assert_eq!(g.guesses().len(), 1);
}

#[test]
fn scenario_non_letter_at_game_level_is_a_miss() {
    let mut g = Game::new("cat");
    assert!(!g.guess('9'));
    assert_eq!(g.guesses_left(), 7);
    assert_eq!(g.guesses(), &vec!['9']);
    assert_eq!(g.status(), Status::Running);
}

#[test]
fn budget_never_grows_over_a_round() {
    let mut g = Game::new("apple");
    let mut last = g.guesses_left();
    for c in ['z', 'a', 'z', 'q', 'p', 'r', 's', 't', 'u', 'v', 'w', 'l', 'e'] {
        g.guess(c);
        assert!(g.guesses_left() <= last);
        last = g.guesses_left();
    }
    assert_eq!(g.guesses_left(), 0);
    assert_eq!(g.status(), Status::Lost);
}

#[test]
fn won_exactly_when_every_letter_guessed() {
    let mut g = Game::new("noon");
    assert!(g.guess('n'));
    assert!(!g.is_won());
    assert!(!g.guess('x'));
    assert!(!g.is_won());
    assert!(g.guess('o'));
    assert!(g.is_won());
    assert_eq!(g.status(), Status::Won);
}

#[test]
fn win_on_last_budget_is_not_lost() {
    let mut g = Game::new("ab");
    for c in ['c', 'd', 'e', 'f', 'g', 'h', 'i'] {
        assert!(!g.guess(c));
    }
    assert_eq!(g.guesses_left(), 1);
    assert!(g.guess('a'));
    assert!(g.guess('b'));
    assert_eq!(g.status(), Status::Won);
    assert!(!g.is_lost());
}

#[test]
fn single_letter_word() {
    let mut g = Game::new("a");
    assert!(g.guess('a'));
    assert_eq!(g.status(), Status::Won);
    assert!(!g.guess('b'));
    assert_eq!(g.guesses_left(), 8);
}

#[test]
fn lines_for_display() {
    let mut g = Game::new("cat");
    assert_eq!(g.masked_line(), "_ _ _ ");
    g.guess('t');
    g.guess('x');
    g.guess('c');
    assert_eq!(g.masked_line(), "c _ t ");
    assert_eq!(g.guesses_line(), "txc");
    assert_eq!(g.peek_word(), "cat");
}

#[test]
fn word_contains_scans_all_letters() {
    let g = Game::new("book");
    assert!(g.word_contains('k'));
    assert!(g.word_contains('b'));
    assert!(!g.word_contains('z'));
}

#[test]
fn unicode_word() {
    let mut g = Game::new("café");
    assert_eq!(g.get_word().len(), 4);
    assert!(g.guess('é'));
    assert_eq!(g.masked_line(), "_ _ _ é ");
    assert_eq!(g.peek_word(), "café");
}
