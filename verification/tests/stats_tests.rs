use wordle::round::RoundOutcome;
use wordle::stats::{parse_counter, StatsAggregate};

fn lines(values: &[&str]) -> Vec<String> {
    values.iter().map(|v| String::from(*v)).collect()
}

#[test]
fn a_win_on_turn_three_updates_the_three_streak_counters() {
    let stats = StatsAggregate::zeroed();
    let stats = stats.apply(&RoundOutcome::Won(3));
    assert_eq!(stats.counters(), &vec![0, 0, 1, 0, 0, 0, 0, 1, 1]);
}

#[test]
fn a_loss_resets_the_streak_but_keeps_the_max() {
    let stats = StatsAggregate::zeroed();
    let stats = stats.apply(&RoundOutcome::Won(3));
    let stats = stats.apply(&RoundOutcome::Lost);
    assert_eq!(stats.counters(), &vec![0, 0, 1, 0, 0, 0, 1, 0, 1]);
}

#[test]
fn streaks_accumulate_across_wins() {
    let stats = StatsAggregate::zeroed()
        .apply(&RoundOutcome::Won(1))
        .apply(&RoundOutcome::Won(6))
        .apply(&RoundOutcome::Lost)
        .apply(&RoundOutcome::Won(6));
    assert_eq!(stats.counters(), &vec![1, 0, 0, 0, 0, 2, 1, 1, 2]);
}

#[test]
fn nine_good_lines_load_as_counters() {
    let stats = StatsAggregate::from_lines(&lines(&[
        "1", "0", "15", "20", "5", "1", "3", "2", "7",
    ]));
    assert_eq!(stats.counters(), &vec![1, 0, 15, 20, 5, 1, 3, 2, 7]);
}

#[test]
fn a_short_record_loads_as_all_zeros() {
    let stats = StatsAggregate::from_lines(&lines(&["1", "2", "3"]));
    assert_eq!(stats.counters(), &vec![0; 9]);
}

#[test]
fn a_malformed_line_loads_as_all_zeros_never_partially() {
    let stats = StatsAggregate::from_lines(&lines(&[
        "1", "0", "15", "twenty", "5", "1", "3", "2", "7",
    ]));
    assert_eq!(stats.counters(), &vec![0; 9]);
}

#[test]
fn an_oversized_record_loads_as_all_zeros() {
    let stats = StatsAggregate::from_lines(&lines(&[
        "1", "0", "15", "20", "5", "1", "3", "2", "7", "9",
    ]));
    assert_eq!(stats.counters(), &vec![0; 9]);
}

#[test]
fn counter_lines_are_plain_decimal_numerals() {
    assert_eq!(parse_counter("0"), Some(0));
    assert_eq!(parse_counter("007"), Some(7));
    assert_eq!(parse_counter("18446744073709551615"), Some(u64::MAX));
    assert_eq!(parse_counter("18446744073709551616"), None);
    assert_eq!(parse_counter(""), None);
    assert_eq!(parse_counter("-1"), None);
    assert_eq!(parse_counter("1 "), None);
}
