//! The match engine: scores a guess against the secret word, giving one
//! outcome per letter under duplicate-aware semantics. A guess letter in the
//! right place is an exact match; a guess letter present elsewhere in the
//! secret is reported only while that letter's remaining occurrence budget
//! (occurrences in the secret not already claimed by exact matches or by
//! earlier present-elsewhere reports) is not exhausted.

use vstd::prelude::*;

use crate::word::Word;

verus! {

/// The outcome reported for one position of a guess.
#[derive(Clone, Copy, Debug, PartialEq, Eq, Structural)]
pub enum LetterOutcome {
    /// The guess letter equals the secret letter at this position.
    ExactMatch,
    /// The guess letter appears in the secret word, but not at this position,
    /// within the letter's remaining occurrence budget.
    PresentElsewhere,
    /// The guess letter warrants neither of the above at this position.
    Absent,
}

/// Number of positions `i < k` at which `w[i] == c`.
pub open spec fn count_upto(w: Seq<char>, c: char, k: int) -> nat
    decreases k,
{
    if k <= 0 {
        0
    } else {
        count_upto(w, c, k - 1) + (if w[k - 1] == c {
            1nat
        } else {
            0nat
        })
    }
}

/// Number of occurrences of `c` in `w`.
pub open spec fn occurrences(w: Seq<char>, c: char) -> nat {
    count_upto(w, c, w.len() as int)
}

/// Number of positions `i < k` at which the guess letter is `c` and matches
/// the secret letter exactly.
pub open spec fn exact_upto(secret: Seq<char>, guess: Seq<char>, c: char, k: int) -> nat
    decreases k,
{
    if k <= 0 {
        0
    } else {
        exact_upto(secret, guess, c, k - 1) + (if guess[k - 1] == c && secret[k - 1] == c {
            1nat
        } else {
            0nat
        })
    }
}

/// Number of positions `i < k` at which the guess letter is `c` but does not
/// match the secret letter.
pub open spec fn inexact_upto(secret: Seq<char>, guess: Seq<char>, c: char, k: int) -> nat
    decreases k,
{
    if k <= 0 {
        0
    } else {
        inexact_upto(secret, guess, c, k - 1) + (if guess[k - 1] == c && secret[k - 1] != c {
            1nat
        } else {
            0nat
        })
    }
}

/// The outcome at position `i`: an exact match where the letters agree;
/// otherwise present-elsewhere exactly while the letter's exact matches plus
/// its earlier non-exact positions have not used up its occurrences in the
/// secret word; absent otherwise.
pub open spec fn outcome_at(secret: Seq<char>, guess: Seq<char>, i: int) -> LetterOutcome {
    if guess[i] == secret[i] {
        LetterOutcome::ExactMatch
    } else if exact_upto(secret, guess, guess[i], guess.len() as int) + inexact_upto(
        secret,
        guess,
        guess[i],
        i,
    ) < occurrences(secret, guess[i]) {
        LetterOutcome::PresentElsewhere
    } else {
        LetterOutcome::Absent
    }
}

/// The full per-letter score of a guess against the secret word.
pub open spec fn spec_score(secret: Seq<char>, guess: Seq<char>) -> Seq<LetterOutcome> {
    Seq::new(guess.len(), |i: int| outcome_at(secret, guess, i))
}

/// Number of positions `i < k` at which the guess letter is `c` and the
/// outcome is not `Absent`.
pub open spec fn scored_upto(secret: Seq<char>, guess: Seq<char>, c: char, k: int) -> nat
    decreases k,
{
    if k <= 0 {
        0
    } else {
        scored_upto(secret, guess, c, k - 1) + (if guess[k - 1] == c && outcome_at(
            secret,
            guess,
            k - 1,
        ) != LetterOutcome::Absent {
            1nat
        } else {
            0nat
        })
    }
}

/// Number of positions `i < k` at which the guess letter is `c` and the
/// outcome is `PresentElsewhere`.
spec fn present_upto(secret: Seq<char>, guess: Seq<char>, c: char, k: int) -> nat
    decreases k,
{
    if k <= 0 {
        0
    } else {
        present_upto(secret, guess, c, k - 1) + (if guess[k - 1] == c && outcome_at(
            secret,
            guess,
            k - 1,
        ) == LetterOutcome::PresentElsewhere {
            1nat
        } else {
            0nat
        })
    }
}

proof fn lemma_exact_le_occurrences(secret: Seq<char>, guess: Seq<char>, c: char, k: int)
    ensures
        exact_upto(secret, guess, c, k) <= count_upto(secret, c, k),
    decreases k,
{
    if k > 0 {
        lemma_exact_le_occurrences(secret, guess, c, k - 1);
    }
}

proof fn lemma_scored_split(secret: Seq<char>, guess: Seq<char>, c: char, k: int)
    requires
        0 <= k <= guess.len(),
    ensures
        scored_upto(secret, guess, c, k) == exact_upto(secret, guess, c, k) + present_upto(
            secret,
            guess,
            c,
            k,
        ),
    decreases k,
{
    if k > 0 {
        lemma_scored_split(secret, guess, c, k - 1);
    }
}

proof fn lemma_present_bound(secret: Seq<char>, guess: Seq<char>, c: char, k: int)
    requires
        0 <= k <= guess.len(),
    ensures
        occurrences(secret, c) <= exact_upto(secret, guess, c, guess.len() as int)
            ==> present_upto(secret, guess, c, k) == 0,
        occurrences(secret, c) > exact_upto(secret, guess, c, guess.len() as int)
            ==> present_upto(secret, guess, c, k) == (if inexact_upto(secret, guess, c, k)
            <= occurrences(secret, c) - exact_upto(secret, guess, c, guess.len() as int) {
            inexact_upto(secret, guess, c, k)
        } else {
            (occurrences(secret, c) - exact_upto(secret, guess, c, guess.len() as int)) as nat
        }),
    decreases k,
{
    if k > 0 {
        lemma_present_bound(secret, guess, c, k - 1);
    }
}

/// The defining duplicate-letter property: for any five-letter secret and
/// guess and any letter `c`, the number of positions where `c` is reported as
/// an exact match or as present-elsewhere never exceeds the occurrences of
/// `c` in the secret word.
pub proof fn lemma_letter_budget(secret: Seq<char>, guess: Seq<char>, c: char)
    requires
        secret.len() == 5,
        guess.len() == 5,
    ensures
        scored_upto(secret, guess, c, 5) <= occurrences(secret, c),
{
    lemma_scored_split(secret, guess, c, 5);
    lemma_present_bound(secret, guess, c, 5);
    lemma_exact_le_occurrences(secret, guess, c, 5);
}

/// Scoring the secret word against itself reports an exact match everywhere.
pub proof fn lemma_score_of_secret_itself(secret: Seq<char>)
    requires
        secret.len() == 5,
    ensures
        forall|i: int|
            0 <= i < 5 ==> spec_score(secret, secret)[i] == LetterOutcome::ExactMatch,
{
}

proof fn lemma_no_occurrence(w: Seq<char>, c: char, k: int)
    requires
        k <= w.len(),
        forall|j: int| 0 <= j < w.len() ==> w[j] != c,
    ensures
        count_upto(w, c, k) == 0,
    decreases k,
{
    if k > 0 {
        lemma_no_occurrence(w, c, k - 1);
    }
}

/// A guess that shares no letters with the secret word scores absent at every
/// position.
pub proof fn lemma_score_disjoint_letters(secret: Seq<char>, guess: Seq<char>)
    requires
        secret.len() == 5,
        guess.len() == 5,
        forall|i: int, j: int| 0 <= i < 5 && 0 <= j < 5 ==> guess[i] != secret[j],
    ensures
        forall|i: int| 0 <= i < 5 ==> spec_score(secret, guess)[i] == LetterOutcome::Absent,
{
    assert forall|i: int| 0 <= i < 5 implies spec_score(secret, guess)[i]
        == LetterOutcome::Absent by {
        assert(guess[i] != secret[i]);
        assert(forall|j: int| 0 <= j < secret.len() ==> secret[j] != guess[i]);
        lemma_no_occurrence(secret, guess[i], 5);
    }
}

/// Counts the occurrences of `c` among the first `k` characters of `w`.
pub(crate) fn count_char_upto(w: &str, c: char, k: usize) -> (n: usize)
    requires
        k <= w@.len(),
    ensures
        n == count_upto(w@, c, k as int),
        n <= k,
{
    let mut n: usize = 0;
    let mut i: usize = 0;
    while i < k
        invariant
            i <= k,
            k <= w@.len(),
            n <= i,
            n == count_upto(w@, c, i as int),
        decreases k - i,
    {
        if w.get_char(i) == c {
            n += 1;
        }
        i += 1;
    }
    n
}

/// Counts the exact matches of letter `c` among the first `k` positions.
fn exact_count_upto(secret: &str, guess: &str, c: char, k: usize) -> (n: usize)
    requires
        k <= guess@.len(),
        k <= secret@.len(),
    ensures
        n == exact_upto(secret@, guess@, c, k as int),
        n <= k,
{
    let mut n: usize = 0;
    let mut i: usize = 0;
    while i < k
        invariant
            i <= k,
            k <= guess@.len(),
            k <= secret@.len(),
            n <= i,
            n == exact_upto(secret@, guess@, c, i as int),
        decreases k - i,
    {
        let gc = guess.get_char(i);
        if gc == c && secret.get_char(i) == c {
            n += 1;
        }
        i += 1;
    }
    n
}

/// Counts the non-exact positions of letter `c` among the first `k` positions
/// of the guess.
fn inexact_count_upto(secret: &str, guess: &str, c: char, k: usize) -> (n: usize)
    requires
        k <= guess@.len(),
        k <= secret@.len(),
    ensures
        n == inexact_upto(secret@, guess@, c, k as int),
        n <= k,
{
    let mut n: usize = 0;
    let mut i: usize = 0;
    while i < k
        invariant
            i <= k,
            k <= guess@.len(),
            k <= secret@.len(),
            n <= i,
            n == inexact_upto(secret@, guess@, c, i as int),
        decreases k - i,
    {
        let gc = guess.get_char(i);
        if gc == c && secret.get_char(i) != c {
            n += 1;
        }
        i += 1;
    }
    n
}

/// Scores `guess` against `secret`, one outcome per position.
pub fn score(secret: &Word, guess: &Word) -> (r: Vec<LetterOutcome>)
    ensures
        r@ == spec_score(secret@, guess@),
{
    proof {
        use_type_invariant(secret);
        use_type_invariant(guess);
    }
    let s = secret.contents().as_str();
    let g = guess.contents().as_str();
    let mut r: Vec<LetterOutcome> = Vec::new();
    let mut i: usize = 0;
    while i < 5
        invariant
            i <= 5,
            s@ == secret@,
            g@ == guess@,
            s@.len() == 5,
            g@.len() == 5,
            r@.len() == i,
            forall|j: int| 0 <= j < i ==> r@[j] == outcome_at(secret@, guess@, j),
        decreases 5 - i,
    {
        let gc = g.get_char(i);
        let outcome = if gc == s.get_char(i) {
            LetterOutcome::ExactMatch
        } else {
            let exact = exact_count_upto(s, g, gc, 5);
            let earlier = inexact_count_upto(s, g, gc, i);
            let budget = count_char_upto(s, gc, 5);
            if exact + earlier < budget {
                LetterOutcome::PresentElsewhere
            } else {
                LetterOutcome::Absent
            }
        };
        r.push(outcome);
        i += 1;
    }
    proof {
        assert(r@ =~= spec_score(secret@, guess@));
    }
    r
}

} // verus!
