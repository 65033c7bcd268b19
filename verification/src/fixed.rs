//! 16.16 fixed-point arithmetic.
//!
//! One pixel is [`FX_ONE`] sub-units.  Every tuning constant of the
//! movement system (acceleration 0.046875, gravity 0.21875, ...) is an
//! exact multiple of 1/65536, so this representation reproduces the tuned
//! values exactly.  Products are scaled back down with truncation toward
//! zero, matching the sign behaviour of Rust's integer division.

use vstd::prelude::*;

verus! {

/// One pixel, in fixed-point sub-units.
pub const FX_ONE: i64 = 65536;

/// Largest magnitude a velocity component may take, in sub-units
/// (65536 pixels per tick).  Velocities are saturated here, far outside
/// the playable envelope, so that every tick is total.
pub const VEL_LIMIT: i64 = 0x1_0000_0000;

/// Largest magnitude a world coordinate may take, in sub-units
/// (about 4 billion pixels).  Positions are saturated here.
pub const POS_LIMIT: i64 = 0x1_0000_0000_0000;

/// Sign of `a`: -1, 0 or 1.
pub open spec fn sgn(a: int) -> int {
    if a > 0 {
        1
    } else if a < 0 {
        -1
    } else {
        0
    }
}

/// Magnitude of `a`.
pub open spec fn mag(a: int) -> int {
    if a >= 0 {
        a
    } else {
        -a
    }
}

/// Division of `a` by a positive `d`, truncated toward zero, as Rust's
/// `/` truncates.
pub open spec fn fx_tdiv(a: int, d: int) -> int
    recommends
        d > 0,
{
    if a >= 0 {
        a / d
    } else {
        -((-a) / d)
    }
}

/// Remainder of `a` by a positive `m`, with the sign of `a`, as Rust's
/// `%` behaves.
pub open spec fn fx_tmod(a: int, m: int) -> int
    recommends
        m > 0,
{
    if a >= 0 {
        a % m
    } else {
        -((-a) % m)
    }
}

/// Fixed-point product: `a * b`, scaled back down by one pixel.
pub open spec fn fx_mul(a: int, b: int) -> int {
    fx_tdiv(a * b, FX_ONE as int)
}

/// `v` clamped to the interval `[-limit, limit]`.
pub open spec fn fx_clamp(v: int, limit: int) -> int
    recommends
        limit >= 0,
{
    if v > limit {
        limit
    } else if v < -limit {
        -limit
    } else {
        v
    }
}

/// `v` pulled to `limit * sgn(v)` once its magnitude reaches `limit`,
/// the shape of the integrator's top-speed rule.
pub open spec fn fx_cap(v: int, limit: int) -> int
    recommends
        limit >= 0,
{
    if mag(v) >= limit {
        limit * sgn(v)
    } else {
        v
    }
}

/// Multiplying by one fixed-point unit is the identity, and a zero
/// factor annihilates: the two degenerate fixed-point products.
pub proof fn lemma_fx_mul_unit(a: int)
    ensures
        fx_mul(a, FX_ONE as int) == a,
        fx_mul(a, 0) == 0,
        fx_mul(0, a) == 0,
{
    if a >= 0 {
        vstd::arithmetic::div_mod::lemma_div_multiples_vanish(a, FX_ONE as int);
        assert(a * FX_ONE == FX_ONE * a) by (nonlinear_arith);
    } else {
        vstd::arithmetic::div_mod::lemma_div_multiples_vanish(-a, FX_ONE as int);
        assert(-(a * FX_ONE) == FX_ONE * (-a)) by (nonlinear_arith);
    }
    assert(a * 0 == 0) by (nonlinear_arith);
    assert(0 * a == 0) by (nonlinear_arith);
}

/// A product with a sign factor, spelled out case by case.
pub proof fn lemma_mul_sign_cases(x: int, g: int)
    ensures
        x * sgn(g) == (if g > 0 {
            x
        } else if g < 0 {
            -x
        } else {
            0
        }),
{
    if g > 0 {
        assert(x * sgn(g) == x) by (nonlinear_arith)
            requires
                sgn(g) == 1,
        ;
    } else if g < 0 {
        assert(x * sgn(g) == -x) by (nonlinear_arith)
            requires
                sgn(g) == -1,
        ;
    } else {
        assert(x * sgn(g) == 0) by (nonlinear_arith)
            requires
                sgn(g) == 0,
        ;
    }
}

/// Magnitude of `v`, as an executable function.
pub fn fx_abs(v: i64) -> (r: i64)
    requires
        v > i64::MIN,
    ensures
        r == mag(v as int),
{
    if v >= 0 {
        v
    } else {
        -v
    }
}

/// Sign of `v`, as an executable function.
pub fn fx_signum(v: i64) -> (r: i64)
    ensures
        r == sgn(v as int),
{
    if v > 0 {
        1
    } else if v < 0 {
        -1
    } else {
        0
    }
}

/// `a + b`, saturated to `[-limit, limit]`.
pub fn sat_add(a: i64, b: i64, limit: i64) -> (r: i64)
    requires
        0 <= limit,
        mag(a as int) <= 0x2000_0000_0000_0000,
        mag(b as int) <= 0x2000_0000_0000_0000,
    ensures
        r == fx_clamp(a + b, limit as int),
{
    let s: i64 = a + b;
    if s > limit {
        limit
    } else if s < -limit {
        -limit
    } else {
        s
    }
}

/// `v` capped at magnitude `limit`, keeping its sign, as the top-speed
/// rule does.
pub fn cap_mag(v: i64, limit: i64) -> (r: i64)
    requires
        0 <= limit,
        v > i64::MIN,
    ensures
        r == fx_cap(v as int, limit as int),
        mag(r as int) <= limit,
{
    let a: i64 = fx_abs(v);
    if a >= limit {
        if v > 0 {
            limit
        } else if v < 0 {
            -limit
        } else {
            0
        }
    } else {
        v
    }
}

/// Product of `v` with a sign `s` drawn from `{-1, 0, 1}`.
pub fn mul_sign(v: i64, s: i64) -> (r: i64)
    requires
        -1 <= s <= 1,
        v > i64::MIN,
    ensures
        r == v * s,
        mag(r as int) <= mag(v as int),
{
    if s > 0 {
        proof {
            assert(v * s == v) by (nonlinear_arith)
                requires
                    s == 1,
            ;
        }
        v
    } else if s < 0 {
        proof {
            assert(v * s == -v) by (nonlinear_arith)
                requires
                    s == -1,
            ;
        }
        -v
    } else {
        proof {
            assert(v * s == 0) by (nonlinear_arith)
                requires
                    s == 0,
            ;
        }
        0
    }
}

/// Fixed-point product of `a` and `b`.  The asymmetric bounds admit a
/// full-range velocity on one side and a trigonometric or tuning value
/// on the other.
pub fn mul_fx(a: i64, b: i64) -> (r: i64)
    requires
        mag(a as int) <= 0x1_0000_0000,
        mag(b as int) <= 0x8000_0000,
    ensures
        r == fx_mul(a as int, b as int),
        mag(r as int) <= mag(a as int) * mag(b as int) / (FX_ONE as int),
{
    let ma: u64 = fx_abs(a) as u64;
    let mb: u64 = fx_abs(b) as u64;
    proof {
        assert(ma * mb <= 0x1_0000_0000 * 0x8000_0000) by (nonlinear_arith)
            requires
                ma <= 0x1_0000_0000,
                mb <= 0x8000_0000,
        ;
        assert(ma * mb == mag(a as int) * mag(b as int)) by (nonlinear_arith)
            requires
                ma == mag(a as int),
                mb == mag(b as int),
        ;
        assert(mag((a as int) * (b as int)) == mag(a as int) * mag(b as int)) by (nonlinear_arith);
    }
    let q: u64 = (ma * mb) / 65536;
    if (a < 0) != (b < 0) {
        proof {
            assert((a as int) * (b as int) <= 0) by (nonlinear_arith)
                requires
                    (a < 0 && b >= 0) || (a >= 0 && b < 0),
            ;
        }
        -(q as i64)
    } else {
        proof {
            assert((a as int) * (b as int) >= 0) by (nonlinear_arith)
                requires
                    (a < 0 && b < 0) || (a >= 0 && b >= 0),
            ;
        }
        q as i64
    }
}

} // verus!
