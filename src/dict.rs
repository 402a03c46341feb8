//! Choosing the secret word: which dictionary entries may be played, and a
//! random pick among them.

use vstd::prelude::*;
use rand::seq::SliceRandom;
use crate::chars::{alphabetic_property, lowercase_property, is_alphabetic, is_lowercase};

verus! {

/// Why no secret word could be had.
#[derive(Clone, Copy, Debug, PartialEq, Eq, Structural)]
pub enum DictError {
    /// The word list could not be read.
    SourceUnavailable,
    /// No entry of the word list may be played.
    EmptyDictionary,
}

/// An entry that may be played: it starts with a letter and every character
/// is lower case (no proper nouns, no capitals, no empty lines).
pub open spec fn is_playable(w: Seq<char>) -> bool {
    &&& w.len() >= 1
    &&& alphabetic_property(w[0])
    &&& forall|i: int| 0 <= i < w.len() ==> #[trigger] lowercase_property(w[i])
}

/// The texts of a list of strings.
pub open spec fn texts(v: Seq<String>) -> Seq<Seq<char>> {
    v.map_values(|s: String| s@)
}

pub fn is_playable_word(s: &str) -> (r: bool)
    ensures
        r == is_playable(s@),
{
    let mut ok = true;
    let mut started = false;
    for c in it: s.chars()
        invariant
            started == (it.index() > 0),
            ok <==> ((it.index() > 0 ==> alphabetic_property(it.seq()[0])) && forall|j: int|
                0 <= j < it.index() ==> #[trigger] lowercase_property(it.seq()[j])),
    {
        if !started {
            ok = ok && is_alphabetic(c);
        }
        ok = ok && is_lowercase(c);
        started = true;
        assert(it.seq()[it.index() as int] == c);
    }
    ok && started
}

/// The entries of `lines` that may be played, in their order.
pub fn filter_words(lines: &Vec<String>) -> (r: Vec<String>)
    ensures
        texts(r@) == texts(lines@).filter(|w: Seq<char>| is_playable(w)),
{
    let mut out: Vec<String> = Vec::new();
    let mut i: usize = 0;
    while i < lines.len()
        invariant
            i <= lines@.len(),
            texts(out@) == texts(lines@).take(i as int).filter(|w: Seq<char>| is_playable(w)),
        decreases lines@.len() - i,
    {
        let keep = is_playable_word(lines[i].as_str());
        proof {
            assert(texts(lines@).take(i + 1).drop_last() =~= texts(lines@).take(i as int));
            assert(texts(lines@).take(i + 1).last() == lines@[i as int]@);
            assert(keep == is_playable(lines@[i as int]@));
            reveal_with_fuel(Seq::filter, 1);
            let t = texts(lines@).take(i + 1);
            assert(t.len() > 0);
            assert(t.filter(|w: Seq<char>| is_playable(w)) == (if is_playable(t.last()) {
                t.drop_last().filter(|w: Seq<char>| is_playable(w)).push(t.last())
            } else {
                t.drop_last().filter(|w: Seq<char>| is_playable(w))
            }));
        }
        if keep {
            let ghost before = out@;
            out.push(lines[i].clone());
            assert(texts(out@) =~= texts(before).push(lines@[i as int]@));
        }
        i = i + 1;
    }
    assert(texts(lines@).take(lines@.len() as int) =~= texts(lines@));
    out
}

/// Relies on rand's `SliceRandom::choose` with the thread-local generator:
/// `None` for an empty slice, otherwise one of its elements (cloned here).
#[verifier::external_body]
fn choose_random(words: &Vec<String>) -> (r: Option<String>)
    ensures
        r is None <==> words@.len() == 0,
        r matches Some(w) ==> exists|i: int| 0 <= i < words@.len() && (#[trigger] words@[i])@ == w@,
{
    words.choose(&mut rand::thread_rng()).cloned()
}

/// One of `words`, picked at random; fails only when there is none.
pub fn choose_word(words: &Vec<String>) -> (r: Result<String, DictError>)
    ensures
        r is Err <==> words@.len() == 0,
        r matches Err(e) ==> e == DictError::EmptyDictionary,
        r matches Ok(w) ==> texts(words@).contains(w@),
{
    match choose_random(words) {
        Some(w) => {
            proof {
                let i = choose|i: int| 0 <= i < words@.len() && (#[trigger] words@[i])@ == w@;
                assert(texts(words@)[i] == w@);
            }
            Ok(w)
        },
        None => Err(DictError::EmptyDictionary),
    }
}

} // verus!
