//! A round of the game: the secret word as letters, the remaining budget of
//! wrong guesses and the characters tried so far.

use vstd::prelude::*;
use crate::letter::Letter;
use crate::model::{GameModel, Status, GUESS_BUDGET, lemma_after_guess_wf};
use crate::text::push_char;

verus! {

/// How a slot of the masked word is drawn.
pub open spec fn slot_char(slot: Option<char>) -> char {
    match slot {
        Some(c) => c,
        None => '_',
    }
}

/// The masked word as one line: each slot drawn, then a space.
pub open spec fn masked_display(slots: Seq<Option<char>>) -> Seq<char>
    decreases slots.len(),
{
    if slots.len() == 0 {
        Seq::empty()
    } else {
        masked_display(slots.drop_last()) + seq![slot_char(slots.last()), ' ']
    }
}

/// One round, from the chosen word until it is won or lost.
pub struct Game {
    word: Vec<Letter>,
    guesses_left: u32,
    guesses_made: Vec<char>,
}

impl View for Game {
    type V = GameModel;

    closed spec fn view(&self) -> GameModel {
        GameModel {
            word: self.word@.map_values(|l: Letter| l.character()),
            shown: self.word@.map_values(|l: Letter| l.shown()),
            left: self.guesses_left as int,
            tried: self.guesses_made@,
        }
    }
}

impl Game {
    /// A fresh round on `word`. An empty word is refused by the precondition:
    /// a round on it would be won before any guess.
    pub fn new(word: &str) -> (g: Game)
        requires
            word@.len() >= 1,
        ensures
            g@ == GameModel::initial(word@),
            g@.wf(),
    {
        let mut letters: Vec<Letter> = Vec::new();
        for c in it: word.chars()
            invariant
                letters@.len() == it.index(),
                forall|j: int|
                    0 <= j < letters@.len() ==> (#[trigger] letters@[j]).character() == it.seq()[j]
                        && !letters@[j].shown(),
        {
            letters.push(Letter::new(c));
        }
        let g = Game { word: letters, guesses_left: GUESS_BUDGET, guesses_made: Vec::new() };
        assert(g@.word =~= word@);
        assert(g@.shown =~= GameModel::initial(word@).shown);
        g
    }

    pub fn is_won(&self) -> (r: bool)
        ensures
            r == self@.won(),
    {
        let mut i: usize = 0;
        while i < self.word.len()
            invariant
                i <= self.word@.len(),
                forall|j: int| 0 <= j < i ==> (#[trigger] self.word@[j]).shown(),
            decreases self.word@.len() - i,
        {
            if !self.word[i].is_revealed() {
                assert(!self@.shown[i as int]);
                return false;
            }
            i = i + 1;
        }
        assert(forall|j: int| 0 <= j < self@.shown.len() ==> self@.shown[j] == self.word@[j].shown());
        true
    }

    /// Out of wrong guesses with part of the word still hidden.
    pub fn is_lost(&self) -> (r: bool)
        ensures
            r == self@.lost(),
    {
        self.guesses_left == 0 && !self.is_won()
    }

    pub fn is_running(&self) -> (r: bool)
        ensures
            r == self@.running(),
    {
        !self.is_lost() && !self.is_won()
    }

    /// Won before lost: a completed word is never reported as lost.
    pub fn status(&self) -> (r: Status)
        ensures
            r == self@.status(),
    {
        if self.is_won() {
            Status::Won
        } else if self.is_lost() {
            Status::Lost
        } else {
            Status::Running
        }
    }

    /// The word as the player sees it: revealed characters, `None` for hidden ones.
    pub fn get_word(&self) -> (r: Vec<Option<char>>)
        ensures
            r@ == self@.masked(),
    {
        let mut out: Vec<Option<char>> = Vec::new();
        let mut i: usize = 0;
        while i < self.word.len()
            invariant
                i <= self.word@.len(),
                out@ == self@.masked().take(i as int),
            decreases self.word@.len() - i,
        {
            out.push(self.word[i].get());
            assert(out@ =~= self@.masked().take(i + 1));
            i = i + 1;
        }
        assert(out@ =~= self@.masked());
        out
    }

    /// The whole secret word, hidden letters included.
    pub fn peek_word(&self) -> (r: String)
        ensures
            r@ == self@.word,
    {
        let mut out = String::new();
        let mut i: usize = 0;
        while i < self.word.len()
            invariant
                i <= self.word@.len(),
                out@ == self@.word.take(i as int),
            decreases self.word@.len() - i,
        {
            push_char(&mut out, self.word[i].peek());
            assert(out@ =~= self@.word.take(i + 1));
            i = i + 1;
        }
        assert(out@ =~= self@.word);
        out
    }

    /// The masked word as the player sees it, `_` for each hidden letter,
    /// every slot followed by a space.
    pub fn masked_line(&self) -> (r: String)
        ensures
            r@ == masked_display(self@.masked()),
    {
        let mut out = String::new();
        let mut i: usize = 0;
        while i < self.word.len()
            invariant
                i <= self.word@.len(),
                out@ == masked_display(self@.masked().take(i as int)),
            decreases self.word@.len() - i,
        {
            let slot = self.word[i].get();
            match slot {
                Some(c) => push_char(&mut out, c),
                None => push_char(&mut out, '_'),
            }
            push_char(&mut out, ' ');
            assert(self@.masked().take(i + 1).drop_last() =~= self@.masked().take(i as int));
            i = i + 1;
        }
        assert(self@.masked().take(i as int) =~= self@.masked());
        out
    }

    /// The characters tried so far as one line, oldest first.
    pub fn guesses_line(&self) -> (r: String)
        ensures
            r@ == self@.tried,
    {
        let mut out = String::new();
        let mut i: usize = 0;
        while i < self.guesses_made.len()
            invariant
                i <= self.guesses_made@.len(),
                out@ == self@.tried.take(i as int),
            decreases self.guesses_made@.len() - i,
        {
            push_char(&mut out, self.guesses_made[i]);
            assert(out@ =~= self@.tried.take(i + 1));
            i = i + 1;
        }
        assert(out@ =~= self@.tried);
        out
    }

    pub fn word_contains(&self, ch: char) -> (r: bool)
        ensures
            r == self@.word.contains(ch),
    {
        let mut i: usize = 0;
        while i < self.word.len()
            invariant
                i <= self.word@.len(),
                forall|j: int| 0 <= j < i ==> (#[trigger] self.word@[j]).character() != ch,
            decreases self.word@.len() - i,
        {
            if self.word[i].peek() == ch {
                assert(self@.word[i as int] == ch);
                return true;
            }
            i = i + 1;
        }
        assert(forall|j: int| 0 <= j < self@.word.len() ==> self@.word[j] != ch);
        false
    }

    fn already_guessed(&self, ch: char) -> (r: bool)
        ensures
            r == self@.tried.contains(ch),
    {
        let mut i: usize = 0;
        while i < self.guesses_made.len()
            invariant
                i <= self.guesses_made@.len(),
                forall|j: int| 0 <= j < i ==> self.guesses_made@[j] != ch,
            decreases self.guesses_made@.len() - i,
        {
            if self.guesses_made[i] == ch {
                return true;
            }
            i = i + 1;
        }
        false
    }

    /// Submits `guess`. A repeated guess, or one after the round ended,
    /// changes nothing and reports `false`. Otherwise every occurrence of
    /// `guess` is revealed, or one wrong guess is spent when there is none;
    /// the result tells whether the word holds it.
    pub fn guess(&mut self, guess: char) -> (r: bool)
        requires
            old(self)@.wf(),
        ensures
            r == old(self)@.guess_result(guess),
            final(self)@ == old(self)@.after_guess(guess),
            final(self)@.wf(),
    {
        proof {
            lemma_after_guess_wf(self@, guess);
        }
        if !self.is_running() || self.already_guessed(guess) {
            return false;
        }
        let success = self.word_contains(guess);
        if success {
            let ghost before = self.word@;
            let mut i: usize = 0;
            while i < self.word.len()
                invariant
                    i <= self.word@.len(),
                    self.word@.len() == before.len(),
                    self.guesses_left == old(self).guesses_left,
                    self.guesses_made@ == old(self).guesses_made@,
                    before == old(self).word@,
                    forall|j: int|
                        0 <= j < self.word@.len() ==> (#[trigger] self.word@[j]).character()
                            == before[j].character(),
                    forall|j: int|
                        0 <= j < i ==> (#[trigger] self.word@[j]).shown() == (before[j].shown()
                            || before[j].character() == guess),
                    forall|j: int| i <= j < self.word@.len() ==> #[trigger] self.word@[j] == before[j],
                decreases self.word@.len() - i,
            {
                self.word[i].reveal_if_is(guess);
                i = i + 1;
            }
        } else {
            self.guesses_left = self.guesses_left - 1;
        }
        self.guesses_made.push(guess);
        assert(self@.word =~= old(self)@.after_guess(guess).word);
        assert(self@.shown =~= old(self)@.after_guess(guess).shown);
        success
    }

    /// The characters tried so far, oldest first, each once.
    pub fn guesses(&self) -> (r: &Vec<char>)
        ensures
            r@ == self@.tried,
    {
        &self.guesses_made
    }

    pub fn guesses_left(&self) -> (r: u32)
        ensures
            r as int == self@.left,
    {
        self.guesses_left
    }
}

} // verus!
