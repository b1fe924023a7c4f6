//! The ease-out braking curve of the reveal animation.
//!
//! The scroll progress after a fraction `t` of the spin duration is
//! `1 - (1 - t)^7`: very fast at first, then a long decelerating tail.
//! Times are milliseconds and distances milli-units, so the curve is
//! computed exactly in integer arithmetic:
//! `offset = target - (target - start) * (d - e)^7 / d^7`
//! for elapsed time `e` of duration `d`.

use vstd::prelude::*;
use vstd::arithmetic::power::{pow, lemma_pow_positive, lemma_pow_distributes};
use vstd::arithmetic::mul::{
    lemma_mul_inequality, lemma_mul_is_commutative, lemma_mul_nonnegative,
    lemma_mul_strict_inequality, lemma_mul_upper_bound,
};
use vstd::arithmetic::div_mod::{
    lemma_basic_div, lemma_div_is_ordered, lemma_div_multiples_vanish, lemma_div_pos_is_pos,
};

verus! {

/// Shortest duration of a spin, in milliseconds (10 seconds).
pub const MIN_DURATION_MS: u64 = 10_000;

/// Longest duration of a spin, in milliseconds (just under 15 seconds:
/// durations are drawn from the half-open range).
pub const MAX_DURATION_MS: u64 = 15_000;

/// Largest target offset the animation arithmetic accepts, in
/// milli-units. Chosen so that `target * duration^7` stays inside
/// `u128` for every admissible duration.
pub const MAX_TARGET_MILLI: i64 = 1_600_030_000;

/// The braking exponent applied to the remaining-time fraction.
pub open spec fn pow7(x: int) -> int {
    pow(x, 7)
}

/// The eased scroll offset after `elapsed` of `duration` milliseconds,
/// scrolling from `start` to `target` milli-units: the integer form of
/// `start + (target - start) * (1 - (1 - t)^7)` with `t = elapsed / duration`.
pub open spec fn eased_offset(start: int, target: int, elapsed: int, duration: int) -> int {
    target - ((target - start) * pow7(duration - elapsed)) / pow7(duration)
}

proof fn lemma_pow_base_ordered(a: int, b: int, e: nat)
    requires
        0 <= a <= b,
    ensures
        0 <= pow(a, e) <= pow(b, e),
    decreases e,
{
    reveal(vstd::arithmetic::power::pow);
    if e == 0 {
    } else {
        lemma_pow_base_ordered(a, b, (e - 1) as nat);
        let pa = pow(a, (e - 1) as nat);
        let pb = pow(b, (e - 1) as nat);
        assert(pow(a, e) == a * pa);
        assert(pow(b, e) == b * pb);
        lemma_mul_nonnegative(a, pa);
        lemma_mul_inequality(pa, pb, a);
        lemma_mul_is_commutative(pa, a);
        lemma_mul_is_commutative(pb, a);
        lemma_mul_inequality(a, b, pb);
    }
}

/// At the start of the spin (`elapsed == 0`) the eased offset is
/// exactly the start offset: the curve begins at zero progress.
pub proof fn lemma_eased_at_start(start: int, target: int, duration: int)
    requires
        0 <= start <= target,
        0 < duration,
    ensures
        eased_offset(start, target, 0, duration) == start,
{
    lemma_pow_positive(duration, 7);
    lemma_div_multiples_vanish(target - start, pow7(duration));
    lemma_mul_is_commutative(pow7(duration), target - start);
}

/// The eased offset never leaves the interval from start to target.
pub proof fn lemma_eased_bounds(start: int, target: int, elapsed: int, duration: int)
    requires
        0 <= start <= target,
        0 < duration,
        0 <= elapsed <= duration,
    ensures
        start <= eased_offset(start, target, elapsed, duration) <= target,
{
    let span = target - start;
    let rem = duration - elapsed;
    let p = pow7(rem);
    let pd = pow7(duration);
    lemma_pow_base_ordered(rem, duration, 7);
    lemma_pow_positive(duration, 7);
    lemma_mul_nonnegative(span, p);
    lemma_div_pos_is_pos(span * p, pd);
    lemma_mul_inequality(p, pd, span);
    lemma_mul_is_commutative(p, span);
    lemma_mul_is_commutative(pd, span);
    lemma_div_is_ordered(span * p, span * pd, pd);
    lemma_div_multiples_vanish(span, pd);
}

/// The braking curve is monotone: as elapsed time grows, the eased
/// offset never moves backwards. It is zero progress at the start and
/// full progress at the end of the duration.
pub proof fn lemma_eased_monotone(start: int, target: int, e1: int, e2: int, duration: int)
    requires
        0 <= start <= target,
        0 < duration,
        0 <= e1 <= e2 <= duration,
    ensures
        eased_offset(start, target, e1, duration) <= eased_offset(start, target, e2, duration),
{
    let span = target - start;
    let r1 = duration - e1;
    let r2 = duration - e2;
    lemma_pow_base_ordered(r2, r1, 7);
    lemma_pow_positive(duration, 7);
    lemma_mul_inequality(pow7(r2), pow7(r1), span);
    lemma_mul_is_commutative(pow7(r2), span);
    lemma_mul_is_commutative(pow7(r1), span);
    lemma_div_is_ordered(span * pow7(r2), span * pow7(r1), pow7(duration));
}

/// Near the end of the spin the curve has fully converged: once less
/// than a hundredth of the duration remains, the eased offset equals
/// the target exactly, for every span the animation can hold. This is
/// why snapping at half a distance unit always fires before the
/// duration runs out.
pub proof fn lemma_eased_converged(start: int, target: int, elapsed: int, duration: int)
    requires
        0 <= start <= target,
        target - start < 100_000_000_000_000,
        0 < duration,
        elapsed <= duration,
        100 * (duration - elapsed) <= duration,
    ensures
        eased_offset(start, target, elapsed, duration) == target,
{
    let span = target - start;
    let rem = duration - elapsed;
    let p = pow7(rem);
    let pd = pow7(duration);
    lemma_pow_positive(duration, 7);
    if span * p == 0 {
        lemma_basic_div(span * p, pd);
    } else {
        lemma_pow_base_ordered(100 * rem, duration, 7);
        lemma_pow_distributes(100, rem, 7);
        assert(pow7(100) == 100_000_000_000_000) by {
            reveal_with_fuel(vstd::arithmetic::power::pow, 8);
        }
        lemma_pow_base_ordered(0, rem, 7);
        lemma_mul_nonnegative(span, p);
        if p == 0 {
            lemma_mul_is_commutative(span, p);
        }
        assert(p >= 1);
        lemma_mul_inequality(span, 100_000_000_000_000 - 1, p);
        lemma_mul_strict_inequality(100_000_000_000_000 - 1, 100_000_000_000_000, p);
        lemma_basic_div(span * p, pd);
    }
}

/// Raises `x` to the seventh power, the braking exponent.
fn pow7_u128(x: u128) -> (r: u128)
    requires
        x <= 15_000,
    ensures
        r == pow7(x as int),
        r <= 170_859_375_000_000_000_000_000_000_000,
{
    proof {
        reveal_with_fuel(vstd::arithmetic::power::pow, 8);
    }
    assert(x * x <= 225_000_000) by (nonlinear_arith)
        requires
            x <= 15_000,
    ;
    let x2 = x * x;
    assert(x * x2 <= 3_375_000_000_000) by (nonlinear_arith)
        requires
            x <= 15_000,
            x2 <= 225_000_000,
    ;
    let x3 = x * x2;
    assert(x * x3 <= 50_625_000_000_000_000) by (nonlinear_arith)
        requires
            x <= 15_000,
            x3 <= 3_375_000_000_000,
    ;
    let x4 = x * x3;
    assert(x * x4 <= 759_375_000_000_000_000_000) by (nonlinear_arith)
        requires
            x <= 15_000,
            x4 <= 50_625_000_000_000_000,
    ;
    let x5 = x * x4;
    assert(x * x5 <= 11_390_625_000_000_000_000_000_000) by (nonlinear_arith)
        requires
            x <= 15_000,
            x5 <= 759_375_000_000_000_000_000,
    ;
    let x6 = x * x5;
    assert(x * x6 <= 170_859_375_000_000_000_000_000_000_000) by (nonlinear_arith)
        requires
            x <= 15_000,
            x6 <= 11_390_625_000_000_000_000_000_000,
    ;
    let x7 = x * x6;
    x7
}

/// The eased scroll offset after `elapsed_ms` of a spin of
/// `duration_ms`, scrolling from `start` to `target` milli-units.
pub fn compute_eased(start: i64, target: i64, elapsed_ms: u64, duration_ms: u64) -> (r: i64)
    requires
        0 < duration_ms <= MAX_DURATION_MS,
        elapsed_ms <= duration_ms,
        0 <= start <= target <= MAX_TARGET_MILLI,
    ensures
        r == eased_offset(start as int, target as int, elapsed_ms as int, duration_ms as int),
        start <= r <= target,
{
    let rem = duration_ms - elapsed_ms;
    let rp = pow7_u128(rem as u128);
    let dp = pow7_u128(duration_ms as u128);
    let span = (target - start) as u128;
    proof {
        lemma_pow_base_ordered(rem as int, duration_ms as int, 7);
        lemma_pow_positive(duration_ms as int, 7);
        lemma_mul_nonnegative(span as int, rp as int);
        lemma_mul_upper_bound(
            span as int,
            MAX_TARGET_MILLI as int,
            rp as int,
            170_859_375_000_000_000_000_000_000_000,
        );
        lemma_mul_inequality(rp as int, dp as int, span as int);
        lemma_mul_is_commutative(rp as int, span as int);
        lemma_mul_is_commutative(dp as int, span as int);
        lemma_div_is_ordered(span as int * rp as int, span as int * dp as int, dp as int);
        lemma_div_multiples_vanish(span as int, dp as int);
        lemma_div_pos_is_pos(span as int * rp as int, dp as int);
    }
    let num = span * rp;
    let q = num / dp;
    target - (q as i64)
}

} // verus!
