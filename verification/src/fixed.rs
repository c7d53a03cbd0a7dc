//! Fixed-point arithmetic shared by the whole core.
//!
//! Times are integer milliseconds and animated scalars are integer
//! thousandths: a value of `UNIT` stands for `1.0`.  Interpolation floors
//! the exact interpolant, so a result always lies between its endpoints.

use vstd::prelude::*;

verus! {

/// Fixed-point subdivisions per whole unit (and milliseconds per second).
pub const UNIT: i64 = 1000;

/// Linear interpolation from `a` to `b` with progress `u` thousandths.
/// The exact interpolant is rounded toward negative infinity, so the
/// result always lies between `a` and `b`.
pub open spec fn lerp_milli_spec(a: int, b: int, u: int) -> int {
    if b >= a {
        a + ((b - a) * u) / (UNIT as int)
    } else {
        a - (((a - b) * u + (UNIT as int) - 1) / (UNIT as int))
    }
}

/// Interpolates between two fixed-point scalars; `u` is the progress in
/// thousandths of the way from `a` to `b`.
pub fn lerp_milli(a: i64, b: i64, u: i64) -> (r: i64)
    requires
        0 <= u <= UNIT,
    ensures
        r as int == lerp_milli_spec(a as int, b as int, u as int),
        a <= b ==> a <= r <= b,
        b < a ==> b <= r <= a,
{
    if b >= a {
        let d: u128 = (b as i128 - a as i128) as u128;
        proof {
            assert(d * u <= d * 1000) by (nonlinear_arith)
                requires 0 <= u <= 1000, 0 <= d;
            assert(d * 1000 <= 0xffff_ffff_ffff_ffffu128 * 1000) by (nonlinear_arith)
                requires d <= 0xffff_ffff_ffff_ffffu128;
        }
        let n: u128 = d * (u as u128);
        let q: u128 = n / 1000;
        proof {
            assert(n / 1000 <= d) by (nonlinear_arith)
                requires n <= d * 1000, 0 <= d;
        }
        let r: i64 = ((a as i128) + (q as i128)) as i64;
        r
    } else {
        let d: u128 = (a as i128 - b as i128) as u128;
        proof {
            assert(d * u <= d * 1000) by (nonlinear_arith)
                requires 0 <= u <= 1000, 0 <= d;
            assert(d * 1000 <= 0xffff_ffff_ffff_ffffu128 * 1000) by (nonlinear_arith)
                requires d <= 0xffff_ffff_ffff_ffffu128;
        }
        let n: u128 = d * (u as u128) + 999;
        let q: u128 = n / 1000;
        proof {
            assert(n / 1000 <= d) by (nonlinear_arith)
                requires n <= d * 1000 + 999, 0 < d;
        }
        let r: i64 = ((a as i128) - (q as i128)) as i64;
        r
    }
}

/// Addition that sticks at the ends of the `i64` range instead of wrapping.
pub open spec fn sat_add_spec(a: int, b: int) -> int {
    if a + b > i64::MAX as int {
        i64::MAX as int
    } else if a + b < i64::MIN as int {
        i64::MIN as int
    } else {
        a + b
    }
}

/// Saturating addition of two fixed-point scalars.
pub fn sat_add(a: i64, b: i64) -> (r: i64)
    ensures
        r as int == sat_add_spec(a as int, b as int),
{
    if b >= 0 {
        if a > i64::MAX - b {
            i64::MAX
        } else {
            a + b
        }
    } else {
        if a < i64::MIN - b {
            i64::MIN
        } else {
            a + b
        }
    }
}

/// Subtraction that sticks at the ends of the `i64` range.
pub open spec fn sat_sub_spec(a: int, b: int) -> int {
    sat_add_spec(a, -b)
}

/// Saturating subtraction of two fixed-point scalars.
pub fn sat_sub(a: i64, b: i64) -> (r: i64)
    ensures
        r as int == sat_sub_spec(a as int, b as int),
{
    if b <= 0 {
        if a > i64::MAX + b {
            i64::MAX
        } else {
            a - b
        }
    } else {
        if a < i64::MIN + b {
            i64::MIN
        } else {
            a - b
        }
    }
}

/// Clamping of an arbitrary integer into the `i64` range.
pub open spec fn sat_i64_spec(v: int) -> int {
    if v > i64::MAX as int {
        i64::MAX as int
    } else if v < i64::MIN as int {
        i64::MIN as int
    } else {
        v
    }
}

/// The product of a fixed-point scalar and a fixed-point factor, in whole
/// units of the factor: `a * f / UNIT`, rounded toward zero and saturated
/// to the `i64` range.
pub open spec fn scale_milli_spec(a: int, f: int) -> int {
    let p = a * f;
    let q = if p >= 0 {
        p / (UNIT as int)
    } else {
        -((-p) / (UNIT as int))
    };
    sat_i64_spec(q)
}

/// Multiplies a fixed-point scalar by a fixed-point factor (`f` in
/// thousandths), rounding toward zero and saturating.
pub fn scale_milli(a: i64, f: i64) -> (r: i64)
    ensures
        r as int == scale_milli_spec(a as int, f as int),
{
    proof {
        assert((a as int) * (f as int) <= 85070591730234615865843651857942052864int
            && (a as int) * (f as int) >= -85070591730234615865843651857942052864int) by (nonlinear_arith)
            requires
                -9223372036854775808int <= a as int <= 9223372036854775807int,
                -9223372036854775808int <= f as int <= 9223372036854775807int;
    }
    let p: i128 = (a as i128) * (f as i128);
    let q: i128 = if p >= 0 {
        ((p as u128) / 1000) as i128
    } else {
        let m: u128 = ((-p) as u128) / 1000;
        -(m as i128)
    };
    if q > i64::MAX as i128 {
        i64::MAX
    } else if q < i64::MIN as i128 {
        i64::MIN
    } else {
        q as i64
    }
}

} // verus!
