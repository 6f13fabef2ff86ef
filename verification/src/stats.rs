//! Cumulative statistics over completed rounds: nine counters, in the fixed
//! order wins-on-turn-1 through wins-on-turn-6, losses, current streak, max
//! streak. Counters are loaded from nine lines of text (substituting all
//! zeros when the record is not exactly nine non-negative integers), updated
//! once per completed round, and handed back for persistence.

use vstd::prelude::*;

use crate::round::RoundOutcome;

verus! {

/// `c` is a decimal digit.
pub open spec fn is_digit(c: char) -> bool {
    48 <= c as int <= 57
}

/// The value of the digit `c`.
pub open spec fn digit_val(c: char) -> int {
    c as int - 48
}

/// Every character of `s` is a decimal digit.
pub open spec fn all_digits(s: Seq<char>) -> bool {
    forall|i: int| 0 <= i < s.len() ==> is_digit(s[i])
}

/// The value of the first `k` characters of `s` read as a decimal numeral.
pub open spec fn dec_val_upto(s: Seq<char>, k: int) -> int
    decreases k,
{
    if k <= 0 {
        0
    } else {
        dec_val_upto(s, k - 1) * 10 + digit_val(s[k - 1])
    }
}

/// The value of `s` read as a decimal numeral.
pub open spec fn dec_val(s: Seq<char>) -> int {
    dec_val_upto(s, s.len() as int)
}

/// What a counter line parses to: a non-empty all-digit numeral whose value
/// fits in a 64-bit counter, or nothing.
pub open spec fn parses_to(s: Seq<char>) -> Option<u64> {
    if s.len() > 0 && all_digits(s) && dec_val(s) <= u64::MAX {
        Some(dec_val(s) as u64)
    } else {
        None
    }
}

proof fn lemma_dec_val_nonneg(s: Seq<char>, k: int)
    requires
        k <= s.len(),
        all_digits(s),
    ensures
        dec_val_upto(s, k) >= 0,
    decreases k,
{
    if k > 0 {
        lemma_dec_val_nonneg(s, k - 1);
    }
}

proof fn lemma_dec_val_grows(s: Seq<char>, k: int)
    requires
        0 <= k,
        k + 1 <= s.len(),
        all_digits(s),
    ensures
        dec_val_upto(s, k + 1) >= dec_val_upto(s, k),
{
    lemma_dec_val_nonneg(s, k);
}

proof fn lemma_dec_val_overflow(s: Seq<char>, k: int)
    requires
        0 <= k <= s.len(),
        all_digits(s),
        dec_val_upto(s, k) > u64::MAX,
    ensures
        dec_val(s) > u64::MAX,
    decreases s.len() - k,
{
    if k < s.len() {
        lemma_dec_val_grows(s, k);
        lemma_dec_val_overflow(s, k + 1);
    }
}

/// Parses one counter line: accepts exactly the non-empty strings of decimal
/// digits whose value fits in a 64-bit counter.
pub fn parse_counter(s: &str) -> (r: Option<u64>)
    ensures
        r == parses_to(s@),
{
    let len = s.unicode_len();
    if len == 0 {
        return None;
    }
    let mut value: u64 = 0;
    let mut i: usize = 0;
    while i < len
        invariant
            i <= len,
            len == s@.len(),
            forall|j: int| 0 <= j < i ==> is_digit(s@[j]),
            value == dec_val_upto(s@, i as int),
        decreases len - i,
    {
        let code = s.get_char(i) as u32;
        if code < 48 || code > 57 {
            return None;
        }
        let digit = (code - 48) as u64;
        if value > (u64::MAX - digit) / 10 {
            proof {
                assert(dec_val_upto(s@, i as int + 1) == value * 10 + digit);
                assert(value * 10 + digit > u64::MAX) by (nonlinear_arith)
                    requires
                        value > (u64::MAX - digit) / 10,
                        digit <= 9,
                ;
                if all_digits(s@) {
                    lemma_dec_val_overflow(s@, i as int + 1);
                }
            }
            return None;
        }
        value = value * 10 + digit;
        i += 1;
    }
    Some(value)
}

/// The nine counters: wins on turns 1 through 6, losses, current streak, max
/// streak.
pub struct StatsAggregate {
    counters: Vec<u64>,
}

impl View for StatsAggregate {
    type V = Seq<u64>;

    closed spec fn view(&self) -> Seq<u64> {
        self.counters@
    }
}

impl StatsAggregate {
    /// Invariant: there are always exactly nine counters.
    #[verifier::type_invariant]
    pub open spec fn nine_counters(self) -> bool {
        self@.len() == 9
    }

    /// All-zero counters: the starting record, and the substitute for a
    /// missing or malformed one.
    pub fn zeroed() -> (r: StatsAggregate)
        ensures
            r@.len() == 9,
            forall|i: int| 0 <= i < 9 ==> r@[i] == 0,
    {
        let counters: Vec<u64> = vec![0, 0, 0, 0, 0, 0, 0, 0, 0];
        StatsAggregate { counters }
    }

    /// Builds the record that nine text lines describe: the nine parsed
    /// counters when every line is a non-negative integer and there are
    /// exactly nine of them, and all zeros otherwise (never a partial
    /// record).
    pub fn from_lines(lines: &Vec<String>) -> (r: StatsAggregate)
        ensures
            r@.len() == 9,
            (lines@.len() == 9 && forall|i: int| 0 <= i < 9 ==> parses_to(lines@[i]@) is Some)
                ==> forall|i: int| 0 <= i < 9 ==> r@[i] == parses_to(lines@[i]@)->Some_0,
            !(lines@.len() == 9 && forall|i: int| 0 <= i < 9 ==> parses_to(lines@[i]@) is Some)
                ==> forall|i: int| 0 <= i < 9 ==> r@[i] == 0,
    {
        if lines.len() != 9 {
            return StatsAggregate::zeroed();
        }
        let mut counters: Vec<u64> = Vec::new();
        let mut i: usize = 0;
        while i < 9
            invariant
                i <= 9,
                lines@.len() == 9,
                counters@.len() == i,
                forall|j: int| 0 <= j < i ==> parses_to(lines@[j]@) is Some,
                forall|j: int| 0 <= j < i ==> counters@[j] == parses_to(lines@[j]@)->Some_0,
            decreases 9 - i,
        {
            match parse_counter(lines[i].as_str()) {
                Some(v) => counters.push(v),
                None => {
                    return StatsAggregate::zeroed();
                },
            }
            i += 1;
        }
        StatsAggregate { counters }
    }

    /// Folds one completed round into the counters: a win on turn `t`
    /// increments the counter for that turn and the current streak; a loss
    /// increments the loss counter and resets the current streak; in either
    /// case the max streak becomes the larger of itself and the new current
    /// streak. The result never has a current streak above the max streak.
    pub fn apply(&self, outcome: &RoundOutcome) -> (r: StatsAggregate)
        requires
            *outcome matches RoundOutcome::Won(t) ==> 1 <= t <= 6 && self@[t - 1] < u64::MAX
                && self@[7] < u64::MAX,
            *outcome matches RoundOutcome::Lost ==> self@[6] < u64::MAX,
        ensures
            r@.len() == 9,
            match *outcome {
                RoundOutcome::Won(t) => {
                    &&& r@[t - 1] == self@[t - 1] + 1
                    &&& r@[7] == self@[7] + 1
                    &&& r@[8] == (if self@[8] >= self@[7] + 1 {
                        self@[8] as int
                    } else {
                        self@[7] + 1
                    })
                    &&& forall|i: int| 0 <= i < 7 && i != t - 1 ==> r@[i] == self@[i]
                },
                RoundOutcome::Lost => {
                    &&& r@[6] == self@[6] + 1
                    &&& r@[7] == 0
                    &&& r@[8] == self@[8]
                    &&& forall|i: int| 0 <= i < 6 ==> r@[i] == self@[i]
                },
            },
            r@[8] >= r@[7],
    {
        proof {
            use_type_invariant(self);
        }
        let mut counters = self.counters.clone();
        proof {
            assert(counters@ =~= self@);
        }
        match *outcome {
            RoundOutcome::Won(t) => {
                let won_before = counters[t - 1];
                counters[t - 1] = won_before + 1;
                let streak = counters[7] + 1;
                counters[7] = streak;
                if streak > counters[8] {
                    counters[8] = streak;
                }
            },
            RoundOutcome::Lost => {
                let lost_before = counters[6];
                counters[6] = lost_before + 1;
                counters[7] = 0;
            },
        }
        StatsAggregate { counters }
    }

    /// The nine counters, for display and persistence.
    pub fn counters(&self) -> (r: &Vec<u64>)
        ensures
            r@ == self@,
            r@.len() == 9,
    {
        proof {
            use_type_invariant(self);
        }
        &self.counters
    }
}

} // verus!
