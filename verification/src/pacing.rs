//! The pacing clock: per-frame timestamps and sleep deadlines, in ticks of
//! 1/10,000,000 second, measured from session start.

use vstd::prelude::*;

verus! {

pub const TICKS_PER_SECOND: i64 = 10_000_000;

/// Clamp a mathematical tick count to the signed 64-bit range; tick values
/// saturate at the maximum rather than wrapping.
pub open spec fn clamp_ticks(v: int) -> int {
    if v <= i64::MAX as int {
        v
    } else {
        i64::MAX as int
    }
}

/// Timestamp of frame `n` when each frame advances the clock by `delta`
/// ticks: `n * delta`, saturating.
pub open spec fn frame_timestamp(n: int, delta: int) -> int {
    clamp_ticks(n * delta)
}

/// Ticks per frame for a nominal rate of `num / den` frames per second:
/// floor(10^7 * den / num).
pub fn ticks_per_frame(num: i32, den: i32) -> (r: i64)
    requires
        0 < num,
        0 < den,
    ensures
        r == TICKS_PER_SECOND * den / num as int,
        0 <= r,
{
    let total: u64 = (TICKS_PER_SECOND as u64) * (den as u64);
    let per_frame: u64 = total / (num as u64);
    proof {
        assert(0 <= total / (num as u64) <= total) by (nonlinear_arith)
            requires
                0 < num as u64,
                0 <= total,
        ;
    }
    per_frame as i64
}

/// `a + b` on nonnegative tick counts, saturating at the signed maximum.
pub fn saturating_add_ticks(a: i64, b: i64) -> (r: i64)
    requires
        0 <= a,
        0 <= b,
    ensures
        r == clamp_ticks(a + b),
{
    if a <= i64::MAX - b {
        a + b
    } else {
        i64::MAX
    }
}

/// Whether the pacing clock resynchronizes: `now` has fallen more than two
/// full frame periods behind the nominal next deadline.
pub open spec fn drift_reset(prev: int, now: int, period: int) -> bool {
    now - (prev + period) > 2 * period
}

/// The deadline for the next frame: one frame period after the previous
/// deadline, except that on drift the clock resynchronizes to
/// `now + period` instead of catching up with a burst.
pub open spec fn next_deadline_spec(prev: int, now: int, period: int) -> int {
    if drift_reset(prev, now, period) {
        clamp_ticks(now + period)
    } else {
        clamp_ticks(prev + period)
    }
}

pub fn next_deadline(prev: i64, now: i64, period: i64) -> (r: i64)
    requires
        0 <= prev,
        0 <= now,
        0 <= period,
    ensures
        r == next_deadline_spec(prev as int, now as int, period as int),
        0 <= r,
{
    let cand = saturating_add_ticks(prev, period);
    let diff: i64 = if now > cand {
        now - cand
    } else {
        0
    };
    if diff > period && diff - period > period {
        saturating_add_ticks(now, period)
    } else {
        cand
    }
}

} // verus!
