//! Word-list preparation: normalizing the legal-guess list to uppercase and
//! drawing a secret word from the candidate list. Reading the lists from
//! storage is the caller's business; this module works on lines already in
//! memory.

use vstd::prelude::*;

use crate::word::{str_to_uppercase, upper_of};

verus! {

/// Uppercases every word of the legal-guess list, keeping the order.
pub fn init_valid_guesses(lines: &Vec<String>) -> (r: Vec<String>)
    ensures
        r@.len() == lines@.len(),
        forall|i: int| 0 <= i < lines@.len() ==> r@[i]@ == upper_of(lines@[i]@),
{
    let mut r: Vec<String> = Vec::new();
    let mut i: usize = 0;
    let n = lines.len();
    while i < n
        invariant
            i <= n,
            n == lines@.len(),
            r@.len() == i,
            forall|j: int| 0 <= j < i ==> r@[j]@ == upper_of(lines@[j]@),
        decreases n - i,
    {
        r.push(str_to_uppercase(lines[i].as_str()));
        i += 1;
    }
    r
}

/// Relies on `rand::Rng::gen_range` over a `rand::thread_rng()` generator:
/// for the non-empty range `0..n` it returns a value of the range. Nothing
/// more is assumed of the draw.
#[verifier::external_body]
fn random_below(n: usize) -> (r: usize)
    requires
        n >= 1,
    ensures
        r < n,
{
    rand::Rng::gen_range(&mut rand::thread_rng(), 0..n)
}

/// Draws one word of the candidate list at random and uppercases it. Every
/// outcome is the uppercase form of some listed word.
pub fn get_secret(options: &Vec<String>) -> (r: String)
    requires
        options@.len() >= 1,
    ensures
        exists|i: int| 0 <= i < options@.len() && r@ == upper_of(options@[i]@),
{
    let i = random_below(options.len());
    let word = str_to_uppercase(options[i].as_str());
    proof {
        assert(word@ == upper_of(options@[i as int]@));
    }
    word
}

} // verus!
