//! Single-pole low-pass filter in exact fixed-point arithmetic.
//!
//! Each axis of the accelerometer is smoothed with the recurrence
//! `filtered' = alpha * sample + (1 - alpha) * filtered`, where `alpha` is a
//! smoothing coefficient in `[0, 1]`. The coefficient is carried in
//! thousandths (`alpha_milli` in `[0, 1000]`), samples arrive in milligravity
//! and filtered values are held in microgravity, so one step is
//! `filtered' = (alpha_milli * sample_mg * 1000 + (1000 - alpha_milli) * filtered) / 1000`
//! with the quotient truncated toward zero.

use vstd::arithmetic::div_mod::{lemma_div_is_ordered, lemma_div_multiples_vanish};
use vstd::prelude::*;

verus! {

/// Largest magnitude a filtered axis can reach: the largest sample magnitude,
/// `|i32::MIN|` mg, expressed in microgravity.
pub const FILTER_LIMIT: i64 = 2_147_483_648_000;

/// Quotient of `n / 1000` truncated toward zero, the rounding the executable
/// division below performs on either sign.
pub open spec fn div1000_trunc(n: int) -> int {
    if n >= 0 {
        n / 1000
    } else {
        -((-n) / 1000)
    }
}

/// One low-pass filter step on a single axis: `filtered` in microgravity,
/// `sample_mg` in milligravity, `alpha_milli` in thousandths.
pub open spec fn filter_step(filtered: int, sample_mg: int, alpha_milli: int) -> int {
    div1000_trunc(alpha_milli * (sample_mg * 1000) + (1000 - alpha_milli) * filtered)
}

/// Bounds on the numerator carry over to the truncated quotient.
proof fn lemma_div1000_trunc_bounds(n: int, lo: int, hi: int)
    requires
        1000 * lo <= n <= 1000 * hi,
    ensures
        lo <= div1000_trunc(n) <= hi,
{
    if n >= 0 {
        lemma_div_is_ordered(1000 * lo, n, 1000);
        lemma_div_multiples_vanish(lo, 1000);
        lemma_div_is_ordered(n, 1000 * hi, 1000);
        lemma_div_multiples_vanish(hi, 1000);
    } else {
        assert(1000 * (-hi) <= -n <= 1000 * (-lo));
        lemma_div_is_ordered(1000 * (-hi), -n, 1000);
        lemma_div_multiples_vanish(-hi, 1000);
        lemma_div_is_ordered(-n, 1000 * (-lo), 1000);
        lemma_div_multiples_vanish(-lo, 1000);
    }
}

/// A filter step never moves the value out of a symmetric bound that holds
/// for both the current value and the scaled sample. In particular an axis
/// that is fed samples no larger than the bound can never overshoot it.
pub proof fn lemma_filter_step_bounded(filtered: int, sample_mg: int, alpha_milli: int, bound: int)
    requires
        0 <= alpha_milli <= 1000,
        -bound <= filtered <= bound,
        -bound <= sample_mg * 1000 <= bound,
    ensures
        -bound <= filter_step(filtered, sample_mg, alpha_milli) <= bound,
{
    let n: int = alpha_milli * (sample_mg * 1000) + (1000 - alpha_milli) * filtered;
    assert(1000 * (-bound) <= n <= 1000 * bound) by (nonlinear_arith)
        requires
            0 <= alpha_milli <= 1000,
            -bound <= filtered <= bound,
            -bound <= sample_mg * 1000 <= bound,
            n == alpha_milli * (sample_mg * 1000) + (1000 - alpha_milli) * filtered,
    ;
    lemma_div1000_trunc_bounds(n, -bound, bound);
}

/// Monotone convergence from below: with a constant sample whose scaled value
/// is at least the current filtered value, one step moves the filtered value
/// toward the sample and never past it.
pub proof fn lemma_filter_step_monotone_up(filtered: int, sample_mg: int, alpha_milli: int)
    requires
        0 <= alpha_milli <= 1000,
        filtered <= sample_mg * 1000,
    ensures
        filtered <= filter_step(filtered, sample_mg, alpha_milli) <= sample_mg * 1000,
{
    let target: int = sample_mg * 1000;
    let n: int = alpha_milli * target + (1000 - alpha_milli) * filtered;
    assert(1000 * filtered <= n <= 1000 * target) by (nonlinear_arith)
        requires
            0 <= alpha_milli <= 1000,
            filtered <= target,
            n == alpha_milli * target + (1000 - alpha_milli) * filtered,
    ;
    lemma_div1000_trunc_bounds(n, filtered, target);
}

/// Monotone convergence from above, the mirror image of
/// `lemma_filter_step_monotone_up`.
pub proof fn lemma_filter_step_monotone_down(filtered: int, sample_mg: int, alpha_milli: int)
    requires
        0 <= alpha_milli <= 1000,
        sample_mg * 1000 <= filtered,
    ensures
        sample_mg * 1000 <= filter_step(filtered, sample_mg, alpha_milli) <= filtered,
{
    let target: int = sample_mg * 1000;
    let n: int = alpha_milli * target + (1000 - alpha_milli) * filtered;
    assert(1000 * target <= n <= 1000 * filtered) by (nonlinear_arith)
        requires
            0 <= alpha_milli <= 1000,
            target <= filtered,
            n == alpha_milli * target + (1000 - alpha_milli) * filtered,
    ;
    lemma_div1000_trunc_bounds(n, target, filtered);
}

/// One executable filter step on a single axis.
pub(crate) fn step_axis(filtered: i64, sample_mg: i32, alpha_milli: u32) -> (r: i64)
    requires
        alpha_milli <= 1000,
        -FILTER_LIMIT <= filtered <= FILTER_LIMIT,
    ensures
        r == filter_step(filtered as int, sample_mg as int, alpha_milli as int),
        -FILTER_LIMIT <= r <= FILTER_LIMIT,
{
    proof {
        lemma_filter_step_bounded(
            filtered as int,
            sample_mg as int,
            alpha_milli as int,
            FILTER_LIMIT as int,
        );
    }
    let a: i64 = alpha_milli as i64;
    let scaled: i64 = (sample_mg as i64) * 1000;
    let ghost limit: int = FILTER_LIMIT as int;
    assert(-1000 * limit <= a * scaled <= 1000 * limit && -1000 * limit <= (1000 - a) * filtered
        <= 1000 * limit) by (nonlinear_arith)
        requires
            0 <= a <= 1000,
            -limit <= filtered <= limit,
            -limit <= scaled <= limit,
            limit == FILTER_LIMIT as int,
    ;
    let n: i64 = a * scaled + (1000 - a) * filtered;
    if n >= 0 {
        ((n as u64) / 1000) as i64
    } else {
        -(((-n) as u64 / 1000) as i64)
    }
}

} // verus!
