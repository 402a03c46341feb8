//! The mathematical state of a round and the rules that move it.

use vstd::prelude::*;

verus! {

/// Number of wrong guesses a round allows.
pub const GUESS_BUDGET: u32 = 8;

/// Where a round stands; derived from the letters and the remaining budget.
#[derive(Clone, Copy, Debug, PartialEq, Eq, Structural)]
pub enum Status {
    Running,
    Won,
    Lost,
}

/// What a round is, seen as plain values.
pub struct GameModel {
    /// The secret word.
    pub word: Seq<char>,
    /// For each position of `word`, whether it is uncovered.
    pub shown: Seq<bool>,
    /// Wrong guesses still allowed.
    pub left: int,
    /// The characters submitted so far, oldest first.
    pub tried: Seq<char>,
}

impl GameModel {
    /// A fresh round on `word`: all hidden, full budget, nothing tried.
    pub open spec fn initial(word: Seq<char>) -> GameModel {
        GameModel {
            word,
            shown: Seq::new(word.len(), |i: int| false),
            left: GUESS_BUDGET as int,
            tried: Seq::empty(),
        }
    }

    /// What every reachable round satisfies.
    pub open spec fn wf(self) -> bool {
        &&& self.word.len() >= 1
        &&& self.shown.len() == self.word.len()
        &&& 0 <= self.left <= GUESS_BUDGET
        &&& self.tried.no_duplicates()
        &&& forall|i: int|
            0 <= i < self.word.len() ==> #[trigger] self.shown[i] == self.tried.contains(
                self.word[i],
            )
    }

    pub open spec fn won(self) -> bool {
        forall|i: int| 0 <= i < self.shown.len() ==> #[trigger] self.shown[i]
    }

    /// Out of budget without having completed the word: a win takes precedence.
    pub open spec fn lost(self) -> bool {
        self.left == 0 && !self.won()
    }

    pub open spec fn running(self) -> bool {
        !self.won() && !self.lost()
    }

    pub open spec fn status(self) -> Status {
        if self.won() {
            Status::Won
        } else if self.lost() {
            Status::Lost
        } else {
            Status::Running
        }
    }

    /// The characters of the word that have been guessed.
    pub open spec fn successful_guesses(self) -> Set<char> {
        self.tried.to_set().filter(|c: char| self.word.contains(c))
    }

    /// A guess of `c` changes the round: it is running and `c` is new.
    pub open spec fn accepts(self, c: char) -> bool {
        self.running() && !self.tried.contains(c)
    }

    /// What submitting `c` reports: a new character that is in the word.
    pub open spec fn guess_result(self, c: char) -> bool {
        self.accepts(c) && self.word.contains(c)
    }

    /// The round after `c` is submitted.
    pub open spec fn after_guess(self, c: char) -> GameModel {
        if !self.accepts(c) {
            self
        } else if self.word.contains(c) {
            GameModel {
                shown: Seq::new(
                    self.shown.len(),
                    |i: int| self.shown[i] || self.word[i] == c,
                ),
                tried: self.tried.push(c),
                ..self
            }
        } else {
            GameModel { left: self.left - 1, tried: self.tried.push(c), ..self }
        }
    }

    /// The word as the player sees it: hidden positions are `None`.
    pub open spec fn masked(self) -> Seq<Option<char>> {
        Seq::new(
            self.word.len(),
            |i: int|
                if self.shown[i] {
                    Some(self.word[i])
                } else {
                    None
                },
        )
    }

    /// The round after the characters of `gs` are submitted in order.
    pub open spec fn play(self, gs: Seq<char>) -> GameModel
        decreases gs.len(),
    {
        if gs.len() == 0 {
            self
        } else {
            self.play(gs.drop_last()).after_guess(gs.last())
        }
    }
}

/// A guess keeps every invariant of a reachable round.
pub proof fn lemma_after_guess_wf(m: GameModel, c: char)
    requires
        m.wf(),
    ensures
        m.after_guess(c).wf(),
{
    let n = m.after_guess(c);
    if m.accepts(c) {
        assert forall|x: char| n.tried.contains(x) <==> (m.tried.contains(x) || x == c) by {
            if n.tried.contains(x) {
                let k = choose|k: int| 0 <= k < n.tried.len() && n.tried[k] == x;
                if k < m.tried.len() {
                    assert(m.tried[k] == x);
                }
            }
            if m.tried.contains(x) {
                let k = choose|k: int| 0 <= k < m.tried.len() && m.tried[k] == x;
                assert(n.tried[k] == x);
            }
            if x == c {
                assert(n.tried[m.tried.len() as int] == c);
            }
        }
        assert forall|i: int, j: int|
            0 <= i < n.tried.len() && 0 <= j < n.tried.len() && i != j implies n.tried[i]
            != n.tried[j] by {
            if i == m.tried.len() {
                assert(m.tried.contains(n.tried[j]));
            } else if j == m.tried.len() {
                assert(m.tried.contains(n.tried[i]));
            }
        }
        if !m.word.contains(c) {
            assert forall|i: int| 0 <= i < n.word.len() implies #[trigger] n.shown[i]
                == n.tried.contains(n.word[i]) by {
                if m.word[i] == c {
                    assert(m.word.contains(c));
                }
            }
        }
    }
}

} // verus!
