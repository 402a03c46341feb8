//! One key press of the player: whether it is a valid guess, what it does to
//! the round, and the line of feedback shown for it.

use vstd::prelude::*;
use crate::chars::{alphabetic_property, is_alphabetic};
use crate::game::Game;
use crate::model::GameModel;
use crate::text::push_char;

verus! {

/// How a key press was taken.
#[derive(Clone, Copy, Debug, PartialEq, Eq, Structural)]
pub enum GuessOutcome {
    /// Not a letter; the round is untouched.
    Invalid(char),
    /// Tried before; the round is untouched.
    AlreadyGuessed,
    /// A new letter of the word; its occurrences are now revealed.
    Success,
    /// A new character that is not in the word, or a guess after the end.
    Miss(char),
}

/// How a press of `guess` is classified, `valid` telling whether it is a letter.
pub open spec fn outcome_of(m: GameModel, guess: char, valid: bool) -> GuessOutcome {
    if !valid {
        GuessOutcome::Invalid(guess)
    } else if m.tried.contains(guess) {
        GuessOutcome::AlreadyGuessed
    } else if m.guess_result(guess) {
        GuessOutcome::Success
    } else {
        GuessOutcome::Miss(guess)
    }
}

/// The round after a press of `guess`: only letters reach the game.
pub open spec fn after_input(m: GameModel, guess: char, valid: bool) -> GameModel {
    if valid {
        m.after_guess(guess)
    } else {
        m
    }
}

/// The feedback line for an outcome.
pub open spec fn message_text(o: GuessOutcome) -> Seq<char> {
    match o {
        GuessOutcome::Invalid(c) => "Invalid guess '"@ + seq![c, '\''],
        GuessOutcome::AlreadyGuessed => "Already guessed that!"@,
        GuessOutcome::Success => "Success!"@,
        GuessOutcome::Miss(c) => "There's no '"@ + seq![c] + "' :("@,
    }
}

impl GuessOutcome {
    pub fn message(&self) -> (r: String)
        ensures
            r@ == message_text(*self),
    {
        match self {
            GuessOutcome::Invalid(c) => {
                let mut s = String::from_str("Invalid guess '");
                push_char(&mut s, *c);
                push_char(&mut s, '\'');
                assert(s@ =~= message_text(*self));
                s
            },
            GuessOutcome::AlreadyGuessed => String::from_str("Already guessed that!"),
            GuessOutcome::Success => String::from_str("Success!"),
            GuessOutcome::Miss(c) => {
                let mut s = String::from_str("There's no '");
                push_char(&mut s, *c);
                s.append("' :(");
                s
            },
        }
    }
}

/// Applies a key press whose letter-ness is already known: a non-letter is
/// refused before it reaches the game.
pub fn classify_guess(game: &mut Game, guess: char, valid: bool) -> (r: GuessOutcome)
    requires
        old(game)@.wf(),
    ensures
        r == outcome_of(old(game)@, guess, valid),
        final(game)@ == after_input(old(game)@, guess, valid),
        final(game)@.wf(),
{
    if !valid {
        return GuessOutcome::Invalid(guess);
    }
    let already_guessed = contains_char(game.guesses(), guess);
    let success = game.guess(guess);
    if already_guessed {
        GuessOutcome::AlreadyGuessed
    } else if success {
        GuessOutcome::Success
    } else {
        GuessOutcome::Miss(guess)
    }
}

fn contains_char(v: &Vec<char>, c: char) -> (r: bool)
    ensures
        r == v@.contains(c),
{
    let mut i: usize = 0;
    while i < v.len()
        invariant
            i <= v@.len(),
            forall|j: int| 0 <= j < i ==> v@[j] != c,
        decreases v@.len() - i,
    {
        if v[i] == c {
            return true;
        }
        i = i + 1;
    }
    false
}

/// Applies a key press: letters are submitted to the game, anything else is
/// reported as invalid.
pub fn process_guess_input(game: &mut Game, guess: char) -> (r: GuessOutcome)
    requires
        old(game)@.wf(),
    ensures
        r == outcome_of(old(game)@, guess, alphabetic_property(guess)),
        final(game)@ == after_input(old(game)@, guess, alphabetic_property(guess)),
        final(game)@.wf(),
{
    let is_valid = is_alphabetic(guess);
    classify_guess(game, guess, is_valid)
}

} // verus!
