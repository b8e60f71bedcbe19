use vstd::prelude::*;

verus! {

/// Tick interval of the fixed-speed mode, in microseconds (about 1/15 s).
pub const FIXED_INTERVAL_MICROS: u64 = 66_667;

/// Tick interval that progressive mode scales down from, in microseconds
/// (1/8 s).
pub const BASE_INTERVAL_MICROS: u64 = 125_000;

/// Progressive speed-up per apple eaten, in hundredths of the base
/// multiplier (k = 0.05: each apple adds five hundredths).
pub const MULTIPLIER_STEP_PCT: u64 = 5;

/// Cap of the progressive speed multiplier, in hundredths (three times the
/// base speed).
pub const MULTIPLIER_CAP_PCT: u64 = 300;

/// The progressive speed multiplier for a score, in hundredths:
/// `min(100 + 5 * score, 300)`.
pub open spec fn spec_multiplier_pct(score: u64) -> int {
    if 100 + MULTIPLIER_STEP_PCT * score > MULTIPLIER_CAP_PCT {
        MULTIPLIER_CAP_PCT as int
    } else {
        100 + MULTIPLIER_STEP_PCT * score
    }
}

/// The tick interval owed for a score and mode, in microseconds: the base
/// interval divided by the capped multiplier when progressive, else the
/// fixed interval.
pub open spec fn spec_interval_micros(score: u64, progressive: bool) -> int {
    if progressive {
        BASE_INTERVAL_MICROS * 100 / spec_multiplier_pct(score)
    } else {
        FIXED_INTERVAL_MICROS as int
    }
}

/// SpeedController: the interval the next tick must wait for, from the
/// score and the progressive/fixed mode flag.
pub fn current_interval_micros(score: u64, progressive: bool) -> (r: u64)
    ensures
        r == spec_interval_micros(score, progressive),
{
    if progressive {
        let mult: u64 = if score >= 40 {
            MULTIPLIER_CAP_PCT
        } else {
            100 + MULTIPLIER_STEP_PCT * score
        };
        assert(mult == spec_multiplier_pct(score));
        (BASE_INTERVAL_MICROS * 100) / mult
    } else {
        FIXED_INTERVAL_MICROS
    }
}

/// Accumulated elapsed time capped at the accumulator's range.
pub open spec fn spec_sat_add(a: u64, b: u64) -> int {
    if a + b <= u64::MAX {
        a + b
    } else {
        u64::MAX as int
    }
}

} // verus!
