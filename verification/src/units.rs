//! Fixed-point units shared by the movement and camera code.
//!
//! Lengths, speeds and unit vectors are held in milli-units: one world
//! unit is 1000, so a speed of 4.5 units per second is 4500 and the
//! diagonal component of a unit vector is 707 (the floor of 1000/sqrt 2).

use vstd::prelude::*;

verus! {

/// A planar vector in milli-units.
#[derive(Clone, Copy, Debug, PartialEq, Eq, Structural)]
pub struct Vec2Milli {
    pub x: i64,
    pub y: i64,
}

/// Magnitude of a mathematical integer.
pub open spec fn mag(a: int) -> int {
    if a >= 0 {
        a
    } else {
        -a
    }
}

/// Product of a milli-scaled quantity with a milli-scaled fraction,
/// truncated toward zero, as a float product would be when rounded
/// toward zero: `a * b / 1000` with the division discarding the
/// fractional part of the magnitude.
pub open spec fn scale_milli_spec(a: int, b: int) -> int {
    let p = a * b;
    if p >= 0 {
        p / 1000
    } else {
        -((-p) / 1000)
    }
}

proof fn lemma_mag_mul(a: int, b: int)
    ensures
        mag(a * b) == mag(a) * mag(b),
{
    assert(mag(a * b) == mag(a) * mag(b)) by (nonlinear_arith);
}

pub proof fn lemma_mul_bound(a: int, b: int, c: int, d: int)
    requires
        0 <= a <= c,
        0 <= b <= d,
    ensures
        a * b <= c * d,
{
    assert(a * b <= c * d) by (nonlinear_arith)
        requires
            0 <= a <= c,
            0 <= b <= d,
    ;
}

/// The magnitude of a truncating milli-scaled product is the scaled
/// product of the magnitudes.
pub proof fn lemma_scale_milli_mag(a: int, b: int)
    ensures
        mag(scale_milli_spec(a, b)) == (mag(a) * mag(b)) / 1000,
{
    lemma_mag_mul(a, b);
    let p = a * b;
    if p >= 0 {
        assert(p / 1000 >= 0) by (nonlinear_arith)
            requires
                p >= 0,
        ;
    } else {
        assert((-p) / 1000 >= 0) by (nonlinear_arith)
            requires
                -p >= 0,
        ;
    }
}

/// Truncating milli-scaled product on machine integers.
pub fn scale_milli(a: i64, b: i64) -> (r: i64)
    requires
        mag(a as int) <= 3_000_000_000,
        mag(b as int) <= 3_000_000_000,
    ensures
        r == scale_milli_spec(a as int, b as int),
{
    let am: u64 = if a >= 0 {
        a as u64
    } else {
        (-a) as u64
    };
    let bm: u64 = if b >= 0 {
        b as u64
    } else {
        (-b) as u64
    };
    proof {
        lemma_mul_bound(am as int, bm as int, 3_000_000_000, 3_000_000_000);
        lemma_mag_mul(a as int, b as int);
        assert(((a < 0) != (b < 0)) ==> (a as int) * (b as int) <= 0) by (nonlinear_arith);
        assert(!((a < 0) != (b < 0)) ==> (a as int) * (b as int) >= 0) by (nonlinear_arith);
    }
    let p: u64 = am * bm;
    let q: u64 = p / 1000;
    if (a < 0) != (b < 0) {
        -(q as i64)
    } else {
        q as i64
    }
}

/// Floor of the square root of a natural number.
pub open spec fn sqrt_floor(n: nat) -> nat
    decreases n,
{
    if n == 0 {
        0
    } else {
        let r = sqrt_floor((n - 1) as nat);
        if (r + 1) * (r + 1) <= n {
            r + 1
        } else {
            r
        }
    }
}

pub proof fn lemma_sqrt_floor_bounds(n: nat)
    ensures
        sqrt_floor(n) * sqrt_floor(n) <= n,
        n < (sqrt_floor(n) + 1) * (sqrt_floor(n) + 1),
    decreases n,
{
    if n == 0 {
        assert(sqrt_floor(0) == 0);
        assert((sqrt_floor(n) + 1) * (sqrt_floor(n) + 1) == 1) by (nonlinear_arith)
            requires
                sqrt_floor(n) == 0,
        ;
    } else {
        lemma_sqrt_floor_bounds((n - 1) as nat);
        let r = sqrt_floor((n - 1) as nat);
        if (r + 1) * (r + 1) <= n {
            assert(sqrt_floor(n) == r + 1);
            assert((r + 1) * (r + 1) < (r + 2) * (r + 2)) by (nonlinear_arith)
                requires
                    r >= 0,
            ;
        } else {
            assert(sqrt_floor(n) == r);
        }
    }
}


pub proof fn lemma_sqrt_floor_unique(n: nat, r: nat)
    requires
        r * r <= n,
        n < (r + 1) * (r + 1),
    ensures
        r == sqrt_floor(n),
{
    lemma_sqrt_floor_bounds(n);
    let s = sqrt_floor(n);
    if r < s {
        assert((r + 1) * (r + 1) <= s * s) by (nonlinear_arith)
            requires
                0 <= r,
                r + 1 <= s,
        ;
    } else if s < r {
        assert((s + 1) * (s + 1) <= r * r) by (nonlinear_arith)
            requires
                0 <= s,
                s + 1 <= r,
        ;
    }
}

/// Floor of the square root on machine integers, by bisection.
pub fn isqrt(n: u64) -> (r: u64)
    ensures
        r == sqrt_floor(n as nat),
{
    let mut lo: u64 = 0;
    let mut hi: u64 = if n < 4_294_967_296 {
        n
    } else {
        4_294_967_296
    };
    proof {
        if n >= 4_294_967_296 {
            assert((4_294_967_296int + 1) * (4_294_967_296int + 1) > u64::MAX as int)
                by (nonlinear_arith);
        } else {
            assert((n as int) < (n as int + 1) * (n as int + 1)) by (nonlinear_arith);
        }
    }
    while lo < hi
        invariant
            lo <= hi <= 4_294_967_296,
            (lo as int) * (lo as int) <= n as int,
            (n as int) < (hi as int + 1) * (hi as int + 1),
        decreases hi - lo,
    {
        let mid: u64 = lo + (hi - lo + 1) / 2;
        proof {
            assert((mid as int) * (mid as int) <= u128::MAX as int) by (nonlinear_arith)
                requires
                    0 <= mid <= 4_294_967_296,
            ;
        }
        let sq: u128 = (mid as u128) * (mid as u128);
        if sq <= n as u128 {
            lo = mid;
        } else {
            hi = mid - 1;
        }
    }
    proof {
        lemma_sqrt_floor_unique(n as nat, lo as nat);
    }
    lo
}

} // verus!
