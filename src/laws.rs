//! What holds of every round, whatever word is played and whatever is guessed.

use vstd::prelude::*;
use crate::model::{GameModel, Status, lemma_after_guess_wf};

verus! {

/// A fresh round on a non-empty word satisfies the round invariant.
pub proof fn lemma_initial_wf(word: Seq<char>)
    requires
        word.len() >= 1,
    ensures
        GameModel::initial(word).wf(),
{
    let m = GameModel::initial(word);
    assert forall|i: int| 0 <= i < m.word.len() implies #[trigger] m.shown[i] == m.tried.contains(
        m.word[i],
    ) by {
        assert(!m.tried.contains(m.word[i]));
    }
}

/// Any sequence of guesses keeps the round invariant and the secret word.
pub proof fn lemma_play_wf(m: GameModel, gs: Seq<char>)
    requires
        m.wf(),
    ensures
        m.play(gs).wf(),
        m.play(gs).word == m.word,
    decreases gs.len(),
{
    if gs.len() > 0 {
        lemma_play_wf(m, gs.drop_last());
        lemma_after_guess_wf(m.play(gs.drop_last()), gs.last());
    }
}

/// Playing the first `j` guesses is playing the first `j - 1` and then one more.
proof fn lemma_play_step(m: GameModel, gs: Seq<char>, j: int)
    requires
        0 < j <= gs.len(),
    ensures
        m.play(gs.take(j)) == m.play(gs.take(j - 1)).after_guess(gs[j - 1]),
{
    assert(gs.take(j).drop_last() =~= gs.take(j - 1));
}

/// Whatever word is played and whatever is guessed, the number of remaining
/// wrong guesses never goes up from one guess to a later one, and never
/// drops below zero.
pub proof fn lemma_budget_never_grows(word: Seq<char>, gs: Seq<char>, i: int, j: int)
    requires
        word.len() >= 1,
        0 <= i <= j <= gs.len(),
    ensures
        0 <= GameModel::initial(word).play(gs.take(j)).left,
        GameModel::initial(word).play(gs.take(j)).left <= GameModel::initial(word).play(
            gs.take(i),
        ).left,
    decreases j - i,
{
    let m = GameModel::initial(word);
    lemma_initial_wf(word);
    lemma_play_wf(m, gs.take(j));
    if i < j {
        lemma_budget_never_grows(word, gs, i, j - 1);
        lemma_play_step(m, gs, j);
    }
}

/// Whatever word is played and whatever is guessed, the round is won exactly
/// when every character of the word is among the characters guessed
/// successfully.
pub proof fn lemma_won_iff_word_guessed(word: Seq<char>, gs: Seq<char>)
    requires
        word.len() >= 1,
    ensures
        GameModel::initial(word).play(gs).won() <==> word.to_set().subset_of(
            GameModel::initial(word).play(gs).successful_guesses(),
        ),
{
    let m = GameModel::initial(word).play(gs);
    lemma_initial_wf(word);
    lemma_play_wf(GameModel::initial(word), gs);
    if m.won() {
        assert forall|c: char| word.to_set().contains(c) implies m.successful_guesses().contains(
            c,
        ) by {
            let i = choose|i: int| 0 <= i < word.len() && word[i] == c;
            assert(m.shown[i]);
        }
    }
    if word.to_set().subset_of(m.successful_guesses()) {
        assert forall|i: int| 0 <= i < m.shown.len() implies #[trigger] m.shown[i] by {
            assert(word.to_set().contains(word[i]));
        }
    }
}

/// Submitting the same character a second time changes nothing and is not
/// reported as a hit: not the budget, not which letters are revealed.
pub proof fn lemma_repeat_guess_changes_nothing(m: GameModel, c: char)
    requires
        m.wf(),
    ensures
        m.after_guess(c).after_guess(c) == m.after_guess(c),
        !m.after_guess(c).guess_result(c),
{
    if m.accepts(c) {
        assert(m.after_guess(c).tried.last() == c);
        assert(m.after_guess(c).tried.contains(c));
    }
}

/// A guess reported as a hit reveals every position of the word that holds
/// that character, in that one step.
pub proof fn lemma_hit_reveals_every_occurrence(m: GameModel, c: char)
    requires
        m.wf(),
        m.guess_result(c),
    ensures
        forall|i: int|
            0 <= i < m.word.len() && m.word[i] == c ==> #[trigger] m.after_guess(c).shown[i],
{
}

/// A guess after which the word is fully revealed leaves the round won, and
/// never lost, even with no wrong guesses left.
pub proof fn lemma_win_takes_precedence(m: GameModel, c: char)
    requires
        m.wf(),
    ensures
        m.after_guess(c).won() ==> m.after_guess(c).status() == Status::Won,
        m.after_guess(c).won() ==> !m.after_guess(c).lost(),
{
}

} // verus!
