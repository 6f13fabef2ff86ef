//! The round state machine: owns the secret word, the accepted guesses and
//! the mode flags, and drives each submitted guess through validation, the
//! optional hard-mode check and scoring, up to a win or the exhaustion of the
//! six turns.

use vstd::prelude::*;

use crate::hard::{hard_check, hard_verdict, Violation};
use crate::score::{score, spec_score, LetterOutcome};
use crate::word::{validation_verdict, ValidationError, Word};

verus! {

/// Why a submitted guess was rejected.
#[derive(Clone, Copy, Debug, PartialEq, Eq, Structural)]
pub enum GuessError {
    /// The raw text is not a legal five-letter word.
    Validation(ValidationError),
    /// Hard mode is active and the candidate drops revealed information.
    HardMode(Violation),
    /// The round is already over; submitting a guess is a caller error.
    RoundAlreadyComplete,
}

/// How a completed round ended: won on the given turn (1 to 6), or lost.
#[derive(Clone, Copy, Debug, PartialEq, Eq, Structural)]
pub enum RoundOutcome {
    Won(usize),
    Lost,
}

/// One round of the game: a fixed secret word, the ordered list of accepted
/// guesses (at most six), the turn counter and the mode flags.
pub struct RoundState {
    secret: Word,
    guesses: Vec<Word>,
    turn: usize,
    hard: bool,
    contrast: bool,
    win: bool,
}

impl RoundState {
    /// Well-formedness: the turn counter equals the number of accepted
    /// guesses, at most six guesses are ever accepted, the win flag is set
    /// exactly when the last accepted guess equals the secret word, and no
    /// guess before the last one equals the secret word (the round ends as
    /// soon as it is won).
    pub closed spec fn wf(&self) -> bool {
        &&& self.turn == self.guesses@.len()
        &&& self.guesses@.len() <= 6
        &&& (self.win <==> (self.guesses@.len() > 0 && self.guesses@.last()@ == self.secret@))
        &&& (forall|i: int| 0 <= i < self.guesses@.len() - 1 ==> self.guesses@[i]@ != self.secret@)
    }

    /// The secret word's characters.
    pub closed spec fn spec_secret(&self) -> Seq<char> {
        self.secret@
    }

    /// The characters of the accepted guesses, in order of acceptance.
    pub closed spec fn spec_guesses(&self) -> Seq<Seq<char>> {
        Seq::new(self.guesses@.len(), |i: int| self.guesses@[i]@)
    }

    /// The turn counter: 0 during setup, then the number of accepted guesses.
    pub closed spec fn spec_turn(&self) -> usize {
        self.turn
    }

    /// Whether hard mode is active.
    pub closed spec fn spec_hard(&self) -> bool {
        self.hard
    }

    /// Whether the high-contrast display flag is set (irrelevant to scoring).
    pub closed spec fn spec_contrast(&self) -> bool {
        self.contrast
    }

    /// Whether the round has been won.
    pub closed spec fn spec_won(&self) -> bool {
        self.win
    }

    /// The round is over: it was won, or all six turns are used.
    pub open spec fn spec_complete(&self) -> bool {
        self.spec_won() || self.spec_guesses().len() >= 6
    }

    /// The state invariant, spelled out over the public model: the turn
    /// counter tracks the guess list, and the win flag holds exactly when the
    /// last accepted guess equals the secret word.
    pub proof fn lemma_invariant(&self)
        requires
            self.wf(),
        ensures
            self.spec_turn() == self.spec_guesses().len(),
            self.spec_guesses().len() <= 6,
            self.spec_won() <==> (self.spec_guesses().len() > 0 && self.spec_guesses().last()
                == self.spec_secret()),
    {
    }

    /// Starts a round with the chosen secret word: no guesses yet, turn 0,
    /// both mode flags off.
    pub fn begin_round(secret: Word) -> (r: RoundState)
        ensures
            r.wf(),
            r.spec_secret() == secret@,
            r.spec_guesses() == Seq::<Seq<char>>::empty(),
            r.spec_turn() == 0,
            !r.spec_hard(),
            !r.spec_contrast(),
            !r.spec_won(),
    {
        let r = RoundState {
            secret,
            guesses: Vec::new(),
            turn: 0,
            hard: false,
            contrast: false,
            win: false,
        };
        proof {
            assert(r.spec_guesses() =~= Seq::<Seq<char>>::empty());
        }
        r
    }

    /// Sets the hard-mode flag. Accepted only while no guess has been made;
    /// afterwards the request is rejected and the state is unchanged.
    pub fn set_hard_mode(&mut self, enabled: bool) -> (accepted: bool)
        requires
            old(self).wf(),
        ensures
            final(self).wf(),
            accepted == (old(self).spec_guesses().len() == 0),
            !accepted ==> *final(self) == *old(self),
            accepted ==> final(self).spec_hard() == enabled,
            final(self).spec_secret() == old(self).spec_secret(),
            final(self).spec_guesses() == old(self).spec_guesses(),
            final(self).spec_turn() == old(self).spec_turn(),
            final(self).spec_contrast() == old(self).spec_contrast(),
            final(self).spec_won() == old(self).spec_won(),
    {
        if self.guesses.is_empty() {
            self.hard = enabled;
            true
        } else {
            false
        }
    }

    /// Sets the high-contrast flag, under the same rule as `set_hard_mode`.
    pub fn set_contrast(&mut self, enabled: bool) -> (accepted: bool)
        requires
            old(self).wf(),
        ensures
            final(self).wf(),
            accepted == (old(self).spec_guesses().len() == 0),
            !accepted ==> *final(self) == *old(self),
            accepted ==> final(self).spec_contrast() == enabled,
            final(self).spec_secret() == old(self).spec_secret(),
            final(self).spec_guesses() == old(self).spec_guesses(),
            final(self).spec_turn() == old(self).spec_turn(),
            final(self).spec_hard() == old(self).spec_hard(),
            final(self).spec_won() == old(self).spec_won(),
    {
        if self.guesses.is_empty() {
            self.contrast = enabled;
            true
        } else {
            false
        }
    }

    /// Hard mode rejects the normalized candidate `w`: the mode is active, a
    /// previous guess exists, and the carry-forward rules find a violation.
    pub open spec fn hard_rejects(self, w: Seq<char>) -> bool {
        &&& self.spec_hard()
        &&& self.spec_guesses().len() > 0
        &&& hard_verdict(self.spec_secret(), self.spec_guesses().last(), w) is Err
    }

    /// Submits a raw guess. A completed round rejects every guess and never
    /// changes. Otherwise the text is validated (and normalized) against the
    /// legal-word list, then checked against hard mode if active; a rejected
    /// guess leaves the round unchanged and the turn may be retried. An
    /// accepted guess is appended, the turn advances, and its per-letter
    /// score is returned; the round is won exactly when the guess equals the
    /// secret word.
    pub fn submit_guess(&mut self, raw: String, legal_words: &Vec<String>) -> (r: Result<
        Vec<LetterOutcome>,
        GuessError,
    >)
        requires
            old(self).wf(),
        ensures
            final(self).wf(),
            old(self).spec_complete() ==> r == Err::<Vec<LetterOutcome>, GuessError>(
                GuessError::RoundAlreadyComplete,
            ) && *final(self) == *old(self),
            !old(self).spec_complete() ==> match validation_verdict(raw@, legal_words@) {
                Err(e) => r == Err::<Vec<LetterOutcome>, GuessError>(GuessError::Validation(e))
                    && *final(self) == *old(self),
                Ok(w) => {
                    if old(self).hard_rejects(w) {
                        r == Err::<Vec<LetterOutcome>, GuessError>(
                            GuessError::HardMode(
                                hard_verdict(
                                    old(self).spec_secret(),
                                    old(self).spec_guesses().last(),
                                    w,
                                )->Err_0,
                            ),
                        ) && *final(self) == *old(self)
                    } else {
                        &&& r matches Ok(sc) && sc@ == spec_score(old(self).spec_secret(), w)
                        &&& final(self).spec_secret() == old(self).spec_secret()
                        &&& final(self).spec_guesses() == old(self).spec_guesses().push(w)
                        &&& final(self).spec_turn() == old(self).spec_turn() + 1
                        &&& final(self).spec_hard() == old(self).spec_hard()
                        &&& final(self).spec_contrast() == old(self).spec_contrast()
                        &&& (final(self).spec_won() <==> w == old(self).spec_secret())
                    }
                },
            },
    {
        if self.win || self.guesses.len() >= 6 {
            return Err(GuessError::RoundAlreadyComplete);
        }
        let word = match Word::try_new(raw, legal_words) {
            Ok(w) => w,
            Err(e) => {
                return Err(GuessError::Validation(e));
            },
        };
        if self.hard {
            let next_turn = self.turn + 1;
            if self.guesses.len() > 0 {
                let last = self.guesses.len() - 1;
                match hard_check(&self.secret, Some(&self.guesses[last]), &word, next_turn) {
                    Ok(()) => {},
                    Err(v) => {
                        return Err(GuessError::HardMode(v));
                    },
                }
            }
        }
        let outcomes = score(&self.secret, &word);
        let is_win = word.contents().eq(self.secret.contents());
        self.win = is_win;
        self.guesses.push(word);
        self.turn = self.turn + 1;
        proof {
            assert(final(self).spec_guesses() =~= old(self).spec_guesses().push(
                validation_verdict(raw@, legal_words@)->Ok_0,
            ));
        }
        Ok(outcomes)
    }

    /// True exactly when the most recent guess equals the secret word.
    pub fn check_guess(&self) -> (r: bool)
        requires
            self.wf(),
        ensures
            r == self.spec_won(),
    {
        self.win
    }

    /// The outcome record of a completed round: the winning turn, or a loss.
    /// An unfinished round has no outcome yet.
    pub fn outcome(&self) -> (r: Option<RoundOutcome>)
        requires
            self.wf(),
        ensures
            !self.spec_complete() ==> r == None::<RoundOutcome>,
            self.spec_complete() && self.spec_won() ==> r == Some(
                RoundOutcome::Won(self.spec_turn()),
            ) && 1 <= self.spec_turn() <= 6,
            self.spec_complete() && !self.spec_won() ==> r == Some(RoundOutcome::Lost),
    {
        if self.win {
            Some(RoundOutcome::Won(self.turn))
        } else if self.guesses.len() >= 6 {
            Some(RoundOutcome::Lost)
        } else {
            None
        }
    }

    /// The turn counter.
    pub fn turn(&self) -> (r: usize)
        ensures
            r == self.spec_turn(),
    {
        self.turn
    }

    /// Whether hard mode is active.
    pub fn is_hard(&self) -> (r: bool)
        ensures
            r == self.spec_hard(),
    {
        self.hard
    }

    /// Whether the high-contrast flag is set.
    pub fn is_contrast(&self) -> (r: bool)
        ensures
            r == self.spec_contrast(),
    {
        self.contrast
    }

    /// Whether the round has been won.
    pub fn is_won(&self) -> (r: bool)
        ensures
            r == self.spec_won(),
    {
        self.win
    }

    /// Whether the round is over.
    pub fn is_complete(&self) -> (r: bool)
        ensures
            r == self.spec_complete(),
    {
        self.win || self.guesses.len() >= 6
    }

    /// The secret word.
    pub fn secret_word(&self) -> (r: &Word)
        ensures
            r@ == self.spec_secret(),
    {
        &self.secret
    }

    /// The accepted guesses, in order of acceptance.
    pub fn guesses(&self) -> (r: &Vec<Word>)
        ensures
            r@.len() == self.spec_guesses().len(),
            forall|i: int| 0 <= i < r@.len() ==> r@[i]@ == self.spec_guesses()[i],
    {
        &self.guesses
    }

    /// How many guesses have been accepted.
    pub fn guess_count(&self) -> (r: usize)
        ensures
            r == self.spec_guesses().len(),
    {
        self.guesses.len()
    }
}

} // verus!
