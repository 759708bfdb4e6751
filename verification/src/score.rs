//! Integer evaluation scores.  Positive favors White, negative favors
//! Black; the two extremes double as the "forced win" / "aborted branch"
//! sentinels.
use vstd::prelude::*;

verus! {

/// Largest score: a forced win for White, or a branch aborted in Black's
/// disfavor.
pub const SCORE_MAX: i64 = i64::MAX;

/// Smallest score: a forced win for Black, or a branch aborted in White's
/// disfavor.
pub const SCORE_MIN: i64 = i64::MIN;

/// Neutral score for draws (stalemate, threefold repetition).
pub const SCORE_DRAW: i64 = 0;

/// Fixed display scaling from raw evaluator units to "centipawn"-style
/// numbers; cosmetic only, never used in comparisons.
pub const CP_SCALE: i64 = 2500;

/// The sentinel extreme that favors the opponent of the side whose turn
/// it is: the worst case for a maximizing node, and symmetrically for a
/// minimizing one.
pub open spec fn spec_worst_for(maximizing: bool) -> i64 {
    if maximizing {
        SCORE_MIN
    } else {
        SCORE_MAX
    }
}

/// Exec mirror of [`spec_worst_for`].
pub fn worst_score_for(maximizing: bool) -> (r: i64)
    ensures
        r == spec_worst_for(maximizing),
{
    if maximizing {
        SCORE_MIN
    } else {
        SCORE_MAX
    }
}

/// Display scaling of a raw score, saturating at the sentinels.
pub open spec fn spec_scaled_cp(s: i64) -> i64 {
    if s * CP_SCALE > i64::MAX {
        i64::MAX
    } else if s * CP_SCALE < i64::MIN {
        i64::MIN
    } else {
        (s * CP_SCALE) as i64
    }
}

/// Scales a raw score for display, saturating instead of overflowing.
pub fn scaled_cp(s: i64) -> (r: i64)
    ensures
        r == spec_scaled_cp(s),
{
    match s.checked_mul(CP_SCALE) {
        Some(v) => v,
        None => {
            if s < 0 {
                SCORE_MIN
            } else {
                SCORE_MAX
            }
        },
    }
}

} // verus!
