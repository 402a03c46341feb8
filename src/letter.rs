//! One slot of the secret word: a character and whether the player can see it.

use vstd::prelude::*;

verus! {

/// A character of the secret word together with its hidden/revealed flag.
#[derive(Clone, Copy)]
pub struct Letter {
    ch: char,
    revealed: bool,
}

impl Letter {
    /// The character this slot holds; it never changes.
    pub closed spec fn character(self) -> char {
        self.ch
    }

    /// Whether the player has uncovered this slot.
    pub closed spec fn shown(self) -> bool {
        self.revealed
    }

    /// A hidden slot holding `ch`.
    pub fn new(ch: char) -> (l: Letter)
        ensures
            l.character() == ch,
            !l.shown(),
    {
        Letter { ch: ch, revealed: false }
    }

    pub fn is_revealed(&self) -> (r: bool)
        ensures
            r == self.shown(),
    {
        self.revealed
    }

    /// Uncovers the slot; doing it again changes nothing.
    pub fn uncover(&mut self)
        ensures
            final(self).character() == old(self).character(),
            final(self).shown(),
    {
        self.revealed = true;
    }

    /// Uncovers the slot exactly when it holds `guess`.
    pub fn reveal_if_is(&mut self, guess: char)
        ensures
            final(self).character() == old(self).character(),
            final(self).shown() == (old(self).shown() || old(self).character() == guess),
    {
        if self.peek() == guess {
            self.uncover();
        }
    }

    /// The character, whether or not it is revealed.
    pub fn peek(&self) -> (r: char)
        ensures
            r == self.character(),
    {
        self.ch
    }

    /// The character once revealed, `None` while hidden.
    pub fn get(&self) -> (r: Option<char>)
        ensures
            r == (if self.shown() { Some(self.character()) } else { None::<char> }),
    {
        if self.is_revealed() {
            Some(self.peek())
        } else {
            None
        }
    }
}

} // verus!
