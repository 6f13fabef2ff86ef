//! The hard-mode validator: once a guess has revealed letters, every later
//! guess must reuse them. Exact matches of the previous guess must be kept in
//! the same positions (rule checked first, lowest index first); every letter
//! of the previous guess must reappear at least `min(occurrences in the
//! previous guess, occurrences in the secret)` times (checked second, in the
//! order letters appear in the previous guess). Only the first violation
//! found is reported.

use vstd::prelude::*;

use crate::score::{count_char_upto, occurrences};
use crate::word::Word;

verus! {

/// A hard-mode rule the candidate guess breaks.
#[derive(Clone, Copy, Debug, PartialEq, Eq, Structural)]
pub enum Violation {
    /// A previously revealed exact match was not kept: the candidate must
    /// place this letter at this position.
    MustPlaceAt(usize, char),
    /// The candidate does not contain enough occurrences of this revealed
    /// letter.
    MustContain(char),
}

/// Position `i` held an exact match in the previous guess that the candidate
/// does not keep.
pub open spec fn breaks_placement(
    secret: Seq<char>,
    previous: Seq<char>,
    candidate: Seq<char>,
    i: int,
) -> bool {
    previous[i] == secret[i] && candidate[i] != previous[i]
}

/// The lowest position `>= i` at which the candidate breaks a kept exact
/// match, or 5 if there is none.
pub open spec fn first_placement_violation(
    secret: Seq<char>,
    previous: Seq<char>,
    candidate: Seq<char>,
    i: int,
) -> int
    decreases 5 - i,
{
    if i < 0 || i >= 5 {
        5
    } else if breaks_placement(secret, previous, candidate, i) {
        i
    } else {
        first_placement_violation(secret, previous, candidate, i + 1)
    }
}

/// How many occurrences of the previous guess's letter at position `j` the
/// candidate must carry forward: the smaller of that letter's occurrences in
/// the previous guess and in the secret word.
pub open spec fn required_count(secret: Seq<char>, previous: Seq<char>, j: int) -> nat {
    if occurrences(previous, previous[j]) <= occurrences(secret, previous[j]) {
        occurrences(previous, previous[j])
    } else {
        occurrences(secret, previous[j])
    }
}

/// The candidate carries too few occurrences of the previous guess's letter
/// at position `j`.
pub open spec fn breaks_carry(
    secret: Seq<char>,
    previous: Seq<char>,
    candidate: Seq<char>,
    j: int,
) -> bool {
    occurrences(candidate, previous[j]) < required_count(secret, previous, j)
}

/// The lowest position `>= j` of the previous guess whose letter is carried
/// forward too few times, or 5 if there is none.
pub open spec fn first_carry_violation(
    secret: Seq<char>,
    previous: Seq<char>,
    candidate: Seq<char>,
    j: int,
) -> int
    decreases 5 - j,
{
    if j < 0 || j >= 5 {
        5
    } else if breaks_carry(secret, previous, candidate, j) {
        j
    } else {
        first_carry_violation(secret, previous, candidate, j + 1)
    }
}

/// The verdict hard mode gives a candidate once a previous guess exists: the
/// first placement violation if any, else the first carry violation if any,
/// else acceptance.
pub open spec fn hard_verdict(
    secret: Seq<char>,
    previous: Seq<char>,
    candidate: Seq<char>,
) -> Result<(), Violation> {
    let a = first_placement_violation(secret, previous, candidate, 0);
    let b = first_carry_violation(secret, previous, candidate, 0);
    if a < 5 {
        Err(Violation::MustPlaceAt(a as usize, previous[a]))
    } else if b < 5 {
        Err(Violation::MustContain(previous[b]))
    } else {
        Ok(())
    }
}

proof fn lemma_first_placement_skip(
    secret: Seq<char>,
    previous: Seq<char>,
    candidate: Seq<char>,
    i: int,
    k: int,
)
    requires
        0 <= i <= k <= 5,
        forall|j: int| i <= j < k ==> !breaks_placement(secret, previous, candidate, j),
    ensures
        first_placement_violation(secret, previous, candidate, i) == first_placement_violation(
            secret,
            previous,
            candidate,
            k,
        ),
    decreases k - i,
{
    if i < k {
        lemma_first_placement_skip(secret, previous, candidate, i + 1, k);
    }
}

proof fn lemma_first_carry_skip(
    secret: Seq<char>,
    previous: Seq<char>,
    candidate: Seq<char>,
    i: int,
    k: int,
)
    requires
        0 <= i <= k <= 5,
        forall|j: int| i <= j < k ==> !breaks_carry(secret, previous, candidate, j),
    ensures
        first_carry_violation(secret, previous, candidate, i) == first_carry_violation(
            secret,
            previous,
            candidate,
            k,
        ),
    decreases k - i,
{
    if i < k {
        lemma_first_carry_skip(secret, previous, candidate, i + 1, k);
    }
}

/// Checks a candidate guess against the hard-mode carry-forward rules. On the
/// first evaluated turn (`turn <= 1`) there is no previous guess and no
/// constraint. Afterwards, the first violation in rule order is reported.
pub fn hard_check(
    secret: &Word,
    previous: Option<&Word>,
    attempt: &Word,
    turn: usize,
) -> (r: Result<(), Violation>)
    requires
        turn >= 2 ==> previous is Some,
    ensures
        turn <= 1 ==> r == Ok::<(), Violation>(()),
        turn >= 2 ==> r == hard_verdict(secret@, previous->Some_0@, attempt@),
{
    if turn <= 1 {
        return Ok(());
    }
    let prev = match previous {
        Some(p) => p,
        None => {
            return Ok(());
        },
    };
    proof {
        use_type_invariant(secret);
        use_type_invariant(prev);
        use_type_invariant(attempt);
    }
    let s = secret.contents().as_str();
    let p = prev.contents().as_str();
    let c = attempt.contents().as_str();

    let mut i: usize = 0;
    while i < 5
        invariant
            i <= 5,
            turn >= 2,
            previous is Some && previous->Some_0@ == prev@,
            s@ == secret@,
            p@ == prev@,
            c@ == attempt@,
            s@.len() == 5,
            p@.len() == 5,
            c@.len() == 5,
            forall|j: int| 0 <= j < i ==> !breaks_placement(s@, p@, c@, j),
        decreases 5 - i,
    {
        let letter = p.get_char(i);
        if s.get_char(i) == letter && c.get_char(i) != letter {
            proof {
                lemma_first_placement_skip(s@, p@, c@, 0, i as int);
            }
            return Err(Violation::MustPlaceAt(i, letter));
        }
        i += 1;
    }
    proof {
        lemma_first_placement_skip(s@, p@, c@, 0, 5);
    }

    let mut j: usize = 0;
    while j < 5
        invariant
            j <= 5,
            turn >= 2,
            previous is Some && previous->Some_0@ == prev@,
            s@ == secret@,
            p@ == prev@,
            c@ == attempt@,
            s@.len() == 5,
            p@.len() == 5,
            c@.len() == 5,
            first_placement_violation(s@, p@, c@, 0) == 5,
            forall|k: int| 0 <= k < j ==> !breaks_carry(s@, p@, c@, k),
        decreases 5 - j,
    {
        let letter = p.get_char(j);
        let in_previous = count_char_upto(p, letter, 5);
        let in_secret = count_char_upto(s, letter, 5);
        let in_attempt = count_char_upto(c, letter, 5);
        let required = if in_previous <= in_secret {
            in_previous
        } else {
            in_secret
        };
        if in_attempt < required {
            proof {
                lemma_first_carry_skip(s@, p@, c@, 0, j as int);
            }
            return Err(Violation::MustContain(letter));
        }
        j += 1;
    }
    proof {
        lemma_first_carry_skip(s@, p@, c@, 0, 5);
    }
    Ok(())
}

} // verus!
