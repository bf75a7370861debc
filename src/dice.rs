//! Random draws, and the sub-draws that split a stat budget.

use rand::Rng;
use vstd::prelude::*;

verus! {

/// Relies on `rand::Rng::gen_range` over `rand::thread_rng()`: a value drawn
/// from the half-open range `[lo, hi)`. It panics on an empty range, which
/// `requires` leaves out. Nothing more is promised of the value.
#[verifier::external_body]
pub(crate) fn roll(lo: i32, hi: i32) -> (r: i32)
    requires
        lo < hi,
    ensures
        lo <= r < hi,
{
    rand::thread_rng().gen_range(lo..hi)
}

/// A draw is within bound of what remains of a budget: in `[0, remaining)`
/// while something remains, and forced to 0 once nothing does.
pub open spec fn draw_in_bound(d: int, remaining: int) -> bool {
    if remaining > 0 {
        0 <= d < remaining
    } else {
        d == 0
    }
}

/// One sub-draw of a stat budget.
pub fn draw(remaining: i32) -> (d: i32)
    ensures
        draw_in_bound(d as int, remaining as int),
{
    if remaining > 0 {
        roll(0, remaining)
    } else {
        0
    }
}

/// The spread `uniform[-5, 6)` added to a level-derived base.
pub open spec fn is_shift(s: int) -> bool {
    -5 <= s < 6
}

} // verus!
