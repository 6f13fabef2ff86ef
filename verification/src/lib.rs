//! Core of a terminal word-guessing game: validated five-letter words,
//! duplicate-aware guess scoring, hard-mode legality checking, the round
//! state machine, and cumulative win/loss statistics.

pub mod hard;
pub mod round;
pub mod score;
pub mod stats;
pub mod word;
pub mod wordlist;
