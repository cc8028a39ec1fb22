//! Fixed-point units of the simulation.
//!
//! A length is an `i64` counted in thousandths of a field unit, a speed is an
//! `i64` counted in thousandths of a field unit per second, and a time step is
//! a `u64` counted in microseconds. Intermediate results are computed exactly
//! in `i128`; a result that is stored is saturated into the range of `i64`.

use vstd::prelude::*;

verus! {

/// One field unit, as a length.
pub const UNIT: i64 = 1000;

/// One second, as a time step.
pub const SECOND: u64 = 1_000_000;

/// No length covered in one time step is larger than this, in either
/// direction.
pub const PROGRESS_LIMIT: i128 = 0x1000_0000_0000_0000_0000_0000_0000;

/// `value`, moved to the nearest bound of `i64` where it lies outside.
pub open spec fn saturated(value: int) -> int {
    if value < i64::MIN {
        i64::MIN as int
    } else if value > i64::MAX {
        i64::MAX as int
    } else {
        value
    }
}

/// The quotient of `a` by a positive `b`, rounded towards zero.
pub open spec fn quotient_towards_zero(a: int, b: int) -> int
    recommends
        b > 0,
{
    if a >= 0 {
        a / b
    } else {
        -((-a) / b)
    }
}

/// The length covered at `speed` during `dt`, rounded towards zero.
pub open spec fn spec_progress(speed: int, dt: int) -> int {
    quotient_towards_zero(speed * dt, SECOND as int)
}

/// The length of `n` whole field units.
pub open spec fn spec_length(n: int) -> int {
    n * UNIT
}

/// The speed with the direction reversed, saturated.
pub open spec fn spec_reversed(speed: int) -> int {
    saturated(-speed)
}

/// The size of `value` without its sign.
pub open spec fn magnitude(value: int) -> int {
    if value < 0 {
        -value
    } else {
        value
    }
}

/// Saturates an exact intermediate result into a stored value.
pub fn saturate(value: i128) -> (r: i64)
    ensures
        r == saturated(value as int),
{
    if value < i64::MIN as i128 {
        i64::MIN
    } else if value > i64::MAX as i128 {
        i64::MAX
    } else {
        value as i64
    }
}

/// The length covered at `speed` during `dt`.
pub fn progress(speed: i64, dt: u64) -> (r: i128)
    ensures
        r == spec_progress(speed as int, dt as int),
        -PROGRESS_LIMIT <= r <= PROGRESS_LIMIT,
{
    let s: i128 = speed as i128;
    let d: i128 = dt as i128;
    assert(-0x8000_0000_0000_0000 * 0xffff_ffff_ffff_ffff <= s * d <= 0x7fff_ffff_ffff_ffff
        * 0xffff_ffff_ffff_ffff) by (nonlinear_arith)
        requires
            -0x8000_0000_0000_0000 <= s <= 0x7fff_ffff_ffff_ffff,
            0 <= d <= 0xffff_ffff_ffff_ffff,
    ;
    let product: i128 = s * d;
    product / (SECOND as i128)
}

/// The length of `n` whole field units.
pub fn length(n: u32) -> (r: i64)
    ensures
        r == spec_length(n as int),
        0 <= r <= 4_294_967_295_000,
{
    (n as i64) * UNIT
}

/// The speed with the direction reversed.
pub fn reversed(speed: i64) -> (r: i64)
    ensures
        r == spec_reversed(speed as int),
{
    if speed == i64::MIN {
        i64::MAX
    } else {
        -speed
    }
}

/// A speed that is not negative covers a length that is not negative, and no
/// length at all during no time.
pub proof fn lemma_progress_sign(speed: int, dt: int)
    requires
        dt >= 0,
    ensures
        speed >= 0 ==> spec_progress(speed, dt) >= 0,
        speed <= 0 ==> spec_progress(speed, dt) <= 0,
        spec_progress(speed, 0) == 0,
        spec_progress(0, dt) == 0,
{
    assert(speed >= 0 ==> speed * dt >= 0) by (nonlinear_arith)
        requires
            dt >= 0,
    ;
    assert(speed <= 0 ==> speed * dt <= 0) by (nonlinear_arith)
        requires
            dt >= 0,
    ;
    assert(speed * 0 == 0);
    assert(0 * dt == 0);
}

} // verus!
