use wordle::hard::Violation;
use wordle::round::{GuessError, RoundOutcome, RoundState};
use wordle::score::LetterOutcome;
use wordle::word::{ValidationError, Word};

fn legal() -> Vec<String> {
    vec![
        String::from("GRAPE"),
        String::from("CRANE"),
        String::from("TRACE"),
        String::from("GRAPH"),
        String::from("MOIST"),
        String::from("BUDGE"),
        String::from("FLOWN"),
        String::from("SPIKY"),
        String::from("THUMB"),
    ]
}

fn secret(text: &str) -> Word {
    Word::try_new(String::from(text), &legal()).unwrap()
}

#[test]
fn a_fresh_round_is_at_turn_zero() {
    let round = RoundState::begin_round(secret("GRAPE"));
    assert_eq!(round.turn(), 0);
    assert_eq!(round.guess_count(), 0);
    assert!(!round.is_complete());
    assert!(!round.is_won());
    assert!(round.outcome().is_none());
}

#[test]
fn winning_guess_completes_the_round() {
    let mut round = RoundState::begin_round(secret("GRAPE"));
    let outcomes = round.submit_guess(String::from("CRANE"), &legal()).unwrap();
    assert_eq!(outcomes.len(), 5);
    assert_eq!(round.turn(), 1);
    assert!(!round.is_complete());

    let outcomes = round.submit_guess(String::from("grape"), &legal()).unwrap();
    assert_eq!(outcomes, vec![LetterOutcome::ExactMatch; 5]);
    assert!(round.is_won());
    assert!(round.check_guess());
    assert!(round.is_complete());
    assert_eq!(round.outcome(), Some(RoundOutcome::Won(2)));
}

#[test]
fn a_rejected_guess_does_not_advance_the_turn() {
    let mut round = RoundState::begin_round(secret("GRAPE"));
    let r = round.submit_guess(String::from("ZZZZZ"), &legal());
    assert_eq!(r, Err(GuessError::Validation(ValidationError::NotInWordList)));
    let r = round.submit_guess(String::from("GR4PE"), &legal());
    assert_eq!(r, Err(GuessError::Validation(ValidationError::NonAlphabetic)));
    let r = round.submit_guess(String::from("GRAPES"), &legal());
    assert_eq!(r, Err(GuessError::Validation(ValidationError::WrongLength)));
    assert_eq!(round.turn(), 0);
    assert_eq!(round.guess_count(), 0);
}

#[test]
fn six_misses_lose_the_round() {
    let mut round = RoundState::begin_round(secret("GRAPE"));
    for miss in ["CRANE", "TRACE", "MOIST", "BUDGE", "FLOWN", "SPIKY"] {
        round.submit_guess(String::from(miss), &legal()).unwrap();
    }
    assert!(round.is_complete());
    assert!(!round.is_won());
    assert_eq!(round.turn(), 6);
    assert_eq!(round.outcome(), Some(RoundOutcome::Lost));
}

#[test]
fn a_completed_round_rejects_every_guess_and_never_changes() {
    let mut round = RoundState::begin_round(secret("GRAPE"));
    round.submit_guess(String::from("GRAPE"), &legal()).unwrap();
    assert!(round.is_complete());
    let before = round.guess_count();
    let r = round.submit_guess(String::from("CRANE"), &legal());
    assert_eq!(r, Err(GuessError::RoundAlreadyComplete));
    let r = round.submit_guess(String::from("GRAPE"), &legal());
    assert_eq!(r, Err(GuessError::RoundAlreadyComplete));
    assert_eq!(round.guess_count(), before);
    assert_eq!(round.turn(), 1);
    assert!(round.is_won());
}

#[test]
fn hard_mode_gates_guesses_before_they_are_accepted() {
    let mut round = RoundState::begin_round(secret("GRAPE"));
    assert!(round.set_hard_mode(true));
    assert!(round.is_hard());
    round.submit_guess(String::from("CRANE"), &legal()).unwrap();
    // GRAPH drops the revealed exact-match E at index 4.
    let r = round.submit_guess(String::from("GRAPH"), &legal());
    assert_eq!(r, Err(GuessError::HardMode(Violation::MustPlaceAt(4, 'E'))));
    assert_eq!(round.turn(), 1);
    // TRACE keeps every revealed letter and is accepted.
    round.submit_guess(String::from("TRACE"), &legal()).unwrap();
    assert_eq!(round.turn(), 2);
}

#[test]
fn mode_flags_are_settable_only_before_the_first_guess() {
    let mut round = RoundState::begin_round(secret("GRAPE"));
    assert!(round.set_contrast(true));
    assert!(round.is_contrast());
    round.submit_guess(String::from("CRANE"), &legal()).unwrap();
    assert!(!round.set_hard_mode(true));
    assert!(!round.is_hard());
    assert!(!round.set_contrast(false));
    assert!(round.is_contrast());
}
