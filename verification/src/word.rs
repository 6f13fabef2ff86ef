//! Validated five-letter words: the value type used for the secret word and
//! for every guess.

use vstd::prelude::*;

verus! {

/// Why a raw word was rejected by `Word::try_new`.
#[derive(Clone, Copy, Debug, PartialEq, Eq, Structural)]
pub enum ValidationError {
    /// The word does not have exactly five characters.
    WrongLength,
    /// Some character of the word is not an alphabetic letter.
    NonAlphabetic,
    /// The normalized word is not in the supplied legal-word list.
    NotInWordList,
}

/// Names the set of characters for which `char::is_alphabetic` returns true.
pub uninterp spec fn is_letter(c: char) -> bool;

/// Names the uppercase form that `str::to_uppercase` gives to a string.
pub uninterp spec fn upper_of(s: Seq<char>) -> Seq<char>;

/// Relies on `char::is_alphabetic`: true exactly for the characters with the
/// Unicode `Alphabetic` property, a function of the character alone.
#[verifier::external_body]
pub(crate) fn char_is_alphabetic(c: char) -> (r: bool)
    ensures
        r == is_letter(c),
{
    c.is_alphabetic()
}

/// Relies on `str::to_uppercase`: the uppercase equivalent of the string,
/// a function of its characters alone.
#[verifier::external_body]
pub(crate) fn str_to_uppercase(s: &str) -> (r: String)
    ensures
        r@ == upper_of(s@),
{
    s.to_uppercase()
}

/// Every character of `w` is an alphabetic letter.
pub open spec fn all_letters(w: Seq<char>) -> bool {
    forall|i: int| 0 <= i < w.len() ==> is_letter(w[i])
}

/// `w` appears among `options`, compared character for character.
pub open spec fn in_word_list(w: Seq<char>, options: Seq<String>) -> bool {
    exists|j: int| 0 <= j < options.len() && options[j]@ == w
}

/// What validation decides for a raw word against a legal-word list: either
/// the normalized (uppercased) word, or the first error in checking order.
/// Uppercasing may change the number of characters of exotic input; a word
/// whose uppercase form is not five characters cannot satisfy the five-letter
/// invariant and is rejected as having the wrong length.
pub open spec fn validation_verdict(raw: Seq<char>, options: Seq<String>) -> Result<
    Seq<char>,
    ValidationError,
> {
    if raw.len() != 5 {
        Err(ValidationError::WrongLength)
    } else if !all_letters(raw) {
        Err(ValidationError::NonAlphabetic)
    } else if upper_of(raw).len() != 5 {
        Err(ValidationError::WrongLength)
    } else if !in_word_list(upper_of(raw), options) {
        Err(ValidationError::NotInWordList)
    } else {
        Ok(upper_of(raw))
    }
}

/// A validated, normalized five-letter word. Values can only be created
/// through the validating factory `try_new`, and are immutable afterwards.
#[derive(Debug)]
pub struct Word {
    contents: String,
}

impl View for Word {
    type V = Seq<char>;

    closed spec fn view(&self) -> Seq<char> {
        self.contents@
    }
}

impl Word {
    /// Invariant of every constructed word: exactly five characters.
    #[verifier::type_invariant]
    pub open spec fn five_letters(self) -> bool {
        self@.len() == 5
    }

    /// Validates `word` against the legal-word list and returns the
    /// normalized word, or the first error in checking order: length,
    /// alphabetic characters, then word-list membership.
    pub fn try_new(word: String, valid_options: &Vec<String>) -> (r: Result<Word, ValidationError>)
        ensures
            match validation_verdict(word@, valid_options@) {
                Ok(w) => r matches Ok(v) && v@ == w,
                Err(e) => r matches Err(actual) && actual == e,
            },
    {
        if word.as_str().unicode_len() != 5 {
            return Err(ValidationError::WrongLength);
        }
        let mut i: usize = 0;
        while i < 5
            invariant
                i <= 5,
                word@.len() == 5,
                forall|j: int| 0 <= j < i ==> is_letter(word@[j]),
            decreases 5 - i,
        {
            if !char_is_alphabetic(word.as_str().get_char(i)) {
                return Err(ValidationError::NonAlphabetic);
            }
            i += 1;
        }
        let upper = str_to_uppercase(word.as_str());
        if upper.as_str().unicode_len() != 5 {
            return Err(ValidationError::WrongLength);
        }
        let mut j: usize = 0;
        let n = valid_options.len();
        while j < n
            invariant
                j <= n,
                n == valid_options@.len(),
                word@.len() == 5,
                all_letters(word@),
                upper@ == upper_of(word@),
                upper@.len() == 5,
                forall|k: int| 0 <= k < j ==> valid_options@[k]@ != upper@,
            decreases n - j,
        {
            if valid_options[j].eq(&upper) {
                proof {
                    assert(valid_options@[j as int]@ == upper@);
                }
                return Ok(Word { contents: upper });
            }
            j += 1;
        }
        Err(ValidationError::NotInWordList)
    }

    /// The normalized five-letter contents.
    pub fn contents(&self) -> (r: &String)
        ensures
            r@ == self@,
    {
        &self.contents
    }
}

} // verus!
