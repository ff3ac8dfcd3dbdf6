//! Fixed-point scalars.
//!
//! Every length, angle and duration of the simulation is an `i64` that counts
//! sub-steps: `UNIT` of them make one whole. Results saturate at `LIMIT`, so
//! every operation is total and none can overflow.

use vstd::prelude::*;

verus! {

/// Sub-steps in one whole: the scalar that stands for `1`.
pub const UNIT: i64 = 65536;

/// Half of `UNIT`: the distance at which rounding turns to the next whole.
pub const HALF: i64 = 32768;

/// Largest magnitude a scalar takes; a whole multiple of `UNIT`.
pub const LIMIT: i64 = 70368744177664;

/// A quarter turn in radians, to the nearest sub-step.
pub const FRAC_PI_2: i64 = 102944;

/// A half turn in radians, to the nearest sub-step.
pub const PI: i64 = 205887;

/// `v` brought into `-LIMIT ..= LIMIT`.
pub open spec fn clamp(v: int) -> int {
    if v < -LIMIT {
        -(LIMIT as int)
    } else if v > LIMIT {
        LIMIT as int
    } else {
        v
    }
}

/// Whether `v` lies in `-LIMIT ..= LIMIT`.
pub open spec fn in_range(v: int) -> bool {
    -LIMIT <= v <= LIMIT
}

/// The magnitude of `v`.
pub open spec fn magnitude(v: int) -> int {
    if v < 0 {
        -v
    } else {
        v
    }
}

/// The whole nearest to `v`, as a scalar; a tie goes away from zero.
#[verifier::opaque]
pub open spec fn round_spec(v: int) -> int {
    if v >= 0 {
        ((v + HALF) / (UNIT as int)) * UNIT
    } else {
        -(((-v + HALF) / (UNIT as int)) * UNIT)
    }
}

/// Whether `v` is a whole: a multiple of `UNIT`.
pub open spec fn is_whole(v: int) -> bool {
    v % (UNIT as int) == 0
}

/// The fixed-point product of `a` and `b`: the magnitudes are multiplied and
/// the fraction below one sub-step is dropped, the result saturates at
/// `LIMIT` and is negative exactly when one factor is.
pub open spec fn scale_spec(a: int, b: int) -> int {
    let m = (magnitude(a) * magnitude(b)) / (UNIT as int);
    let bounded = if m > LIMIT {
        LIMIT as int
    } else {
        m
    };
    if (a < 0) != (b < 0) {
        -bounded
    } else {
        bounded
    }
}

/// The scalar for one `n`-th: `UNIT / n`, or `LIMIT` when `n` is zero.
pub open spec fn reciprocal_spec(n: int) -> int {
    if n == 0 {
        LIMIT as int
    } else {
        (UNIT as int) / n
    }
}

fn clamp_wide(v: i128) -> (out: i64)
    ensures
        out == clamp(v as int),
{
    if v < -(LIMIT as i128) {
        -LIMIT
    } else if v > LIMIT as i128 {
        LIMIT
    } else {
        v as i64
    }
}

fn magnitude_wide(v: i64) -> (out: u128)
    ensures
        out == magnitude(v as int),
{
    if v < 0 {
        let wide: i128 = v as i128;
        (-wide) as u128
    } else {
        v as u128
    }
}

/// The saturating sum of two scalars.
pub fn plus(a: i64, b: i64) -> (out: i64)
    ensures
        out == clamp(a + b),
{
    clamp_wide(a as i128 + b as i128)
}

/// The saturating difference of two scalars.
pub fn minus(a: i64, b: i64) -> (out: i64)
    ensures
        out == clamp(a - b),
{
    clamp_wide(a as i128 - b as i128)
}

/// The whole nearest to a scalar, which is first brought into range.
pub fn round(a: i64) -> (out: i64)
    ensures
        out == round_spec(clamp(a as int)),
        in_range(out as int),
        is_whole(out as int),
{
    reveal(round_spec);
    let bounded: i64 = clamp_wide(a as i128);
    if bounded >= 0 {
        let lifted: u64 = (bounded + HALF) as u64;
        let wholes: u64 = lifted / (UNIT as u64);
        (wholes * (UNIT as u64)) as i64
    } else {
        let lifted: u64 = (-bounded + HALF) as u64;
        let wholes: u64 = lifted / (UNIT as u64);
        -((wholes * (UNIT as u64)) as i64)
    }
}

/// The fixed-point product of two scalars.
pub fn scale(a: i64, b: i64) -> (out: i64)
    ensures
        out == scale_spec(a as int, b as int),
        in_range(out as int),
{
    let left: u128 = magnitude_wide(a);
    let right: u128 = magnitude_wide(b);
    assert(left * right <= 0x4000_0000_0000_0000_0000_0000_0000_0000) by (nonlinear_arith)
        requires
            left <= 0x8000_0000_0000_0000,
            right <= 0x8000_0000_0000_0000,
    ;
    let whole: u128 = (left * right) / (UNIT as u128);
    let bounded: i64 = if whole > LIMIT as u128 {
        LIMIT
    } else {
        whole as i64
    };
    if (a < 0) != (b < 0) {
        -bounded
    } else {
        bounded
    }
}

/// The scalar for one `n`-th of a whole.
pub fn reciprocal(n: u32) -> (out: i64)
    ensures
        out == reciprocal_spec(n as int),
        0 <= out <= LIMIT,
{
    if n == 0 {
        LIMIT
    } else {
        ((UNIT as u64) / (n as u64)) as i64
    }
}

/// Rounding leaves a whole in range where it is.
pub proof fn lemma_round_whole(v: int)
    requires
        is_whole(v),
    ensures
        round_spec(v) == v,
{
    reveal(round_spec);
}

/// Rounding gives the whole that is less than half a whole away.
pub proof fn lemma_round_nearest(v: int, whole: int)
    requires
        is_whole(whole),
        -HALF < v - whole < HALF,
    ensures
        round_spec(v) == whole,
{
    reveal(round_spec);
}

/// The parts that a whole is cut into: `n` of them come to more than half of
/// it and to no more than it, and fewer of them to no more than that.
pub proof fn lemma_parts(n: int, k: int)
    requires
        1 <= n <= UNIT,
        0 <= k <= n,
    ensures
        0 <= reciprocal_spec(n) <= UNIT,
        0 <= k * reciprocal_spec(n) <= n * reciprocal_spec(n),
        HALF < n * reciprocal_spec(n) <= UNIT,
        (k + 1) * reciprocal_spec(n) == k * reciprocal_spec(n) + reciprocal_spec(n),
{
    let part = (UNIT as int) / n;
    vstd::arithmetic::div_mod::lemma_fundamental_div_mod(UNIT as int, n);
    vstd::arithmetic::div_mod::lemma_mod_bound(UNIT as int, n);
    assert(UNIT == n * part + (UNIT as int) % n);
    assert(part >= 1) by (nonlinear_arith)
        requires
            UNIT == n * part + (UNIT as int) % n,
            0 <= (UNIT as int) % n < n,
            1 <= n <= UNIT,
    ;
    assert(n * part >= n) by (nonlinear_arith)
        requires
            part >= 1,
            n >= 1,
    ;
    assert(0 <= k * part <= n * part) by (nonlinear_arith)
        requires
            0 <= k <= n,
            part >= 1,
    ;
    assert((k + 1) * part == k * part + part) by (nonlinear_arith);
}

} // verus!
