use omt_send::classify::{interpret_return_code, Outcome};
use omt_send::pacing::{next_deadline, saturating_add_ticks, ticks_per_frame};

#[test]
fn classifier_table_exhaustive() {
    let cases: [(i32, Outcome); 11] = [
        (0, Outcome::Success),
        (12428, Outcome::InformationalStatus),
        (19448, Outcome::InformationalStatus),
        (26984, Outcome::TransientBackpressure),
        (29843, Outcome::InformationalStatus),
        (39293, Outcome::InformationalStatus),
        (-1, Outcome::Fatal),
        (1, Outcome::InformationalStatus),
        (99999, Outcome::InformationalStatus),
        (i32::MIN, Outcome::Fatal),
        (i32::MAX, Outcome::InformationalStatus),
    ];
    for (rc, expected) in cases {
        assert_eq!(interpret_return_code(rc), expected, "rc = {}", rc);
    }
}

#[test]
fn ticks_per_frame_values() {
    assert_eq!(ticks_per_frame(30, 1), 333_333);
    assert_eq!(ticks_per_frame(60, 1), 166_666);
    assert_eq!(ticks_per_frame(30000, 1001), 333_666);
    assert_eq!(ticks_per_frame(1, 1), 10_000_000);
}

#[test]
fn next_deadline_advances_by_one_period() {
    // On time: the next deadline is one period after the previous one.
    assert_eq!(next_deadline(0, 0, 333_333), 333_333);
    assert_eq!(next_deadline(333_333, 350_000, 333_333), 666_666);
    // Late, but by no more than two periods: still no reset.
    let prev = 1_000_000;
    let period = 333_333;
    let now = prev + period + 2 * period; // exactly two periods behind
    assert_eq!(next_deadline(prev, now, period), prev + period);
}

#[test]
fn next_deadline_resets_after_two_period_drift() {
    // More than two periods behind the nominal target: resynchronize to
    // now + period instead of bursting to catch up.
    let prev = 1_000_000;
    let period = 333_333;
    let now = prev + period + 2 * period + 1;
    assert_eq!(next_deadline(prev, period, period), prev + period);
    assert_eq!(next_deadline(prev, now, period), now + period);
}

#[test]
fn saturating_ticks() {
    assert_eq!(saturating_add_ticks(1, 2), 3);
    assert_eq!(saturating_add_ticks(i64::MAX, 1), i64::MAX);
    assert_eq!(saturating_add_ticks(i64::MAX - 5, 10), i64::MAX);
}
