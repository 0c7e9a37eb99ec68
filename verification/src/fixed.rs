//! Fixed-point scalar arithmetic shared by every backend.
//!
//! Every physical quantity (position, velocity, mass, time step, softening,
//! gravitational constant) is a signed fixed-point number counted in units of
//! `1/SCALE`. Products and quotients truncate toward zero and saturate at
//! magnitude `CAP`, so every operation is total and every stored quantity
//! stays inside one fixed range; the saturation bound plays the role that
//! overflow to infinity plays for hardware floating point.
use vstd::prelude::*;

verus! {

/// Number of fixed-point steps per physical unit.
pub const SCALE: i64 = 1048576;

/// Saturation bound: no arithmetic result may exceed this magnitude.
pub const CAP: i64 = 17592186044416;

/// Magnitude of an integer.
pub open spec fn mag_s(x: int) -> int {
    if x < 0 {
        -x
    } else {
        x
    }
}

/// Saturate a non-negative magnitude at `CAP`.
pub open spec fn cap_mag_s(m: int) -> int {
    if m > CAP {
        CAP as int
    } else {
        m
    }
}

/// Saturate a signed value into `[-CAP, CAP]`.
pub open spec fn sat_s(x: int) -> int {
    if x > CAP {
        CAP as int
    } else if x < -CAP {
        -CAP as int
    } else {
        x
    }
}

/// Truncating, saturating fixed-point product: `a * b / SCALE`,
/// rounded toward zero and capped at magnitude `CAP`.
pub open spec fn fmul_s(a: int, b: int) -> int {
    let m = cap_mag_s(mag_s(a * b) / (SCALE as int));
    if a * b < 0 {
        -m
    } else {
        m
    }
}

/// Truncating, saturating fixed-point quotient: `a * SCALE / b`,
/// rounded toward zero and capped at magnitude `CAP`.
pub open spec fn fdiv_s(a: int, b: int) -> int {
    let m = cap_mag_s((mag_s(a) * SCALE) / mag_s(b));
    if (a < 0) != (b < 0) {
        -m
    } else {
        m
    }
}

/// Saturating sum.
pub open spec fn sat_sum_s(a: int, b: int) -> int {
    sat_s(a + b)
}

/// Whether `r` is the floor of the square root of `x`.
pub open spec fn is_sqrt_floor(x: int, r: int) -> bool {
    0 <= r && r * r <= x && x < (r + 1) * (r + 1)
}

/// Floor of the square root of a non-negative integer.
pub open spec fn sqrt_floor_s(x: int) -> int {
    choose|r: int| is_sqrt_floor(x, r)
}

/// Fixed-point square root: the floor square root of `x` read in `1/SCALE` units.
pub open spec fn fsqrt_s(x: int) -> int {
    sqrt_floor_s(x * SCALE)
}

proof fn lemma_mag_mul(a: int, b: int, aa: int, bb: int)
    by (nonlinear_arith)
    requires
        mag_s(a) <= aa,
        mag_s(b) <= bb,
    ensures
        mag_s(a * b) <= aa * bb,
{
}

proof fn lemma_sq_mono(a: int, b: int)
    by (nonlinear_arith)
    requires
        0 <= a <= b,
    ensures
        a * a <= b * b,
{
}

/// The floor square root is unique, so any witness determines `sqrt_floor_s`.
pub proof fn lemma_sqrt_floor(x: int, r: int)
    requires
        is_sqrt_floor(x, r),
    ensures
        sqrt_floor_s(x) == r,
{
    assert(is_sqrt_floor(x, r));
    let c = sqrt_floor_s(x);
    assert(is_sqrt_floor(x, c));
    if c < r {
        lemma_sq_mono(c + 1, r);
        assert(false);
    }
    if c > r {
        lemma_sq_mono(r + 1, c);
        assert(false);
    }
}

/// Truncating, saturating fixed-point product.
pub fn fmul(a: i64, b: i64) -> (r: i64)
    ensures
        r == fmul_s(a as int, b as int),
        -CAP <= r <= CAP,
{
    proof {
        lemma_mag_mul(
            a as int,
            b as int,
            0x8000000000000000,
            0x8000000000000000,
        );
    }
    let p: i128 = (a as i128) * (b as i128);
    let m: u128 = if p < 0 {
        (-p) as u128
    } else {
        p as u128
    };
    let q: u128 = m / (SCALE as u128);
    let c: i64 = if q > (CAP as u128) {
        CAP
    } else {
        q as i64
    };
    if p < 0 {
        -c
    } else {
        c
    }
}

/// Truncating, saturating fixed-point quotient.
pub fn fdiv(a: i64, b: i64) -> (r: i64)
    requires
        b != 0,
    ensures
        r == fdiv_s(a as int, b as int),
        -CAP <= r <= CAP,
{
    let aw: i128 = a as i128;
    let bw: i128 = b as i128;
    let ma: u128 = if aw < 0 {
        (-aw) as u128
    } else {
        aw as u128
    };
    let mb: u128 = if bw < 0 {
        (-bw) as u128
    } else {
        bw as u128
    };
    proof {
        assert(ma * (SCALE as u128) <= 0x800000000000000000000u128) by (nonlinear_arith)
            requires
                ma <= 0x8000000000000000u128,
        ;
    }
    let q: u128 = (ma * (SCALE as u128)) / mb;
    let c: i64 = if q > (CAP as u128) {
        CAP
    } else {
        q as i64
    };
    if (a < 0) != (b < 0) {
        -c
    } else {
        c
    }
}

/// Fixed-point quotient of a wide force accumulator by a body mass.
pub fn fdiv_wide(a: i128, b: i64) -> (r: i64)
    requires
        b != 0,
        mag_s(a as int) <= 0x10000000000000000000000000,
    ensures
        r == fdiv_s(a as int, b as int),
        -CAP <= r <= CAP,
{
    let bw: i128 = b as i128;
    let ma: u128 = if a < 0 {
        (-a) as u128
    } else {
        a as u128
    };
    let mb: u128 = if bw < 0 {
        (-bw) as u128
    } else {
        bw as u128
    };
    proof {
        assert(ma * (SCALE as u128) <= 0x1000000000000000000000000000000u128) by (nonlinear_arith)
            requires
                ma <= 0x10000000000000000000000000u128,
        ;
    }
    let q: u128 = (ma * (SCALE as u128)) / mb;
    let c: i64 = if q > (CAP as u128) {
        CAP
    } else {
        q as i64
    };
    if (a < 0) != (b < 0) {
        -c
    } else {
        c
    }
}

/// Saturating sum of two scalars.
pub fn sat_sum(a: i64, b: i64) -> (r: i64)
    ensures
        r == sat_sum_s(a as int, b as int),
        -CAP <= r <= CAP,
{
    let s: i128 = (a as i128) + (b as i128);
    if s > (CAP as i128) {
        CAP
    } else if s < -(CAP as i128) {
        -CAP
    } else {
        s as i64
    }
}

/// Fixed-point square root of a clamped squared distance.
pub fn fsqrt(x: i64) -> (r: i64)
    requires
        1 <= x <= 2 * CAP,
    ensures
        r == fsqrt_s(x as int),
        1 <= r <= 0x200000000,
{
    proof {
        assert((x as u128) * (SCALE as u128) <= 36893488147419103232u128) by (nonlinear_arith)
            requires
                x as u128 <= 35184372088832u128,
        ;
    }
    let t: u128 = (x as u128) * (SCALE as u128);
    let mut lo: u128 = 0;
    let mut hi: u128 = 0x200000001;
    proof {
        assert(0x200000001u128 * 0x200000001u128 > t) by (nonlinear_arith)
            requires
                t <= 36893488147419103232u128,
        ;
    }
    while lo + 1 < hi
        invariant
            lo < hi <= 0x200000001,
            (lo * lo) as int <= t as int,
            (t as int) < (hi * hi) as int,
        decreases hi - lo,
    {
        let mid: u128 = lo + (hi - lo) / 2;
        proof {
            assert(mid * mid <= 0x200000001u128 * 0x200000001u128) by (nonlinear_arith)
                requires
                    mid <= 0x200000001u128,
            ;
        }
        if mid * mid <= t {
            lo = mid;
        } else {
            hi = mid;
        }
    }
    proof {
        assert(is_sqrt_floor(t as int, lo as int));
        lemma_sqrt_floor(t as int, lo as int);
        assert(t >= 1048576) by (nonlinear_arith)
            requires
                t == (x as u128) * (SCALE as u128),
                x as u128 >= 1,
        ;
        assert(lo >= 1) by (nonlinear_arith)
            requires
                (lo * lo) as int <= t as int,
                t >= 1048576,
                (t as int) < ((lo + 1) * (lo + 1)) as int,
        ;
    }
    lo as i64
}

/// The product flips sign with either factor.
pub proof fn lemma_fmul_neg_left(a: int, b: int)
    ensures
        fmul_s(-a, b) == -fmul_s(a, b),
{
    assert((-a) * b == -(a * b)) by (nonlinear_arith);
}

/// The quotient flips sign with its numerator.
pub proof fn lemma_fdiv_neg_left(a: int, b: int)
    requires
        b != 0,
    ensures
        fdiv_s(-a, b) == -fdiv_s(a, b),
{
}

/// The product does not depend on the order of its factors.
pub proof fn lemma_fmul_comm(a: int, b: int)
    ensures
        fmul_s(a, b) == fmul_s(b, a),
{
    assert(a * b == b * a) by (nonlinear_arith);
}

/// Saturation is symmetric about zero.
pub proof fn lemma_sat_neg(x: int)
    ensures
        sat_s(-x) == -sat_s(x),
{
}

/// Zero divided by anything non-zero is zero.
pub proof fn lemma_fdiv_zero(b: int)
    requires
        b != 0,
    ensures
        fdiv_s(0, b) == 0,
{
    assert((mag_s(0) * SCALE) / mag_s(b) == 0);
}

} // verus!
