//! Fixed-point scalars.
//!
//! Every coordinate, weight and energy in this crate is a real number held
//! as a signed 64-bit integer scaled by `SCALE` (a binary fixed-point value
//! with 20 fractional bits).  All arithmetic saturates at the `i64` range
//! instead of overflowing, and division truncates toward zero, so each
//! operation is total and has an exact mathematical description; the
//! contracts below state the stored integer of every result precisely.

use vstd::prelude::*;

verus! {

/// Number of raw units per 1.0 (2^20).
pub const SCALE: i64 = 1048576;

/// A real number `raw / SCALE`, stored as the integer `raw`.
#[derive(Clone, Copy, Debug)]
pub struct Fx {
    pub raw: i64,
}

/// Saturates an unbounded integer at the `i64` range.
pub open spec fn clip(v: int) -> int {
    if v > i64::MAX {
        i64::MAX as int
    } else if v < i64::MIN {
        i64::MIN as int
    } else {
        v
    }
}

/// Division truncating toward zero, as the executable `/` on signed
/// machine integers behaves (defined for `b != 0`).
pub open spec fn tdiv(a: int, b: int) -> int {
    if (a < 0) <==> (b < 0) {
        abs(a) / abs(b)
    } else {
        -(abs(a) / abs(b))
    }
}

pub open spec fn abs(a: int) -> int {
    if a < 0 {
        -a
    } else {
        a
    }
}

/// The fixed-point value whose raw integer is `v` saturated at `i64`.
pub open spec fn fx(v: int) -> Fx {
    Fx { raw: clip(v) as i64 }
}

pub open spec fn s_add(a: Fx, b: Fx) -> Fx {
    fx(a.raw + b.raw)
}

pub open spec fn s_sub(a: Fx, b: Fx) -> Fx {
    fx(a.raw - b.raw)
}

pub open spec fn s_neg(a: Fx) -> Fx {
    fx(-a.raw)
}

pub open spec fn s_mul(a: Fx, b: Fx) -> Fx {
    fx(tdiv(a.raw * b.raw, SCALE as int))
}

/// Division; a zero divisor saturates by the sign of the dividend, the
/// fixed-point analogue of the infinities a float division would give.
pub open spec fn s_div(a: Fx, b: Fx) -> Fx {
    if b.raw == 0 {
        if a.raw > 0 {
            Fx { raw: i64::MAX }
        } else if a.raw < 0 {
            Fx { raw: i64::MIN }
        } else {
            Fx { raw: 0 }
        }
    } else {
        fx(tdiv(a.raw * SCALE, b.raw as int))
    }
}

/// The integer square root: the unique `r >= 0` with `r^2 <= v < (r+1)^2`.
pub open spec fn sqrt_raw(v: int) -> int {
    choose|r: int| 0 <= r && #[trigger] (r * r) <= v < (r + 1) * (r + 1)
}

/// Square root of a fixed-point value; non-positive inputs give zero.
pub open spec fn s_sqrt(a: Fx) -> Fx {
    if a.raw <= 0 {
        Fx { raw: 0 }
    } else {
        Fx { raw: sqrt_raw(a.raw * SCALE) as i64 }
    }
}

/// The integer-square-root property determines its value uniquely, so an
/// executable root that satisfies it equals `sqrt_raw`.
pub proof fn lemma_sqrt_raw_is(v: int, r: int)
    requires
        0 <= r,
        r * r <= v,
        v < (r + 1) * (r + 1),
    ensures
        sqrt_raw(v) == r,
{
    assert(0 <= r && (r * r) <= v < (r + 1) * (r + 1));
    let c = choose|c: int| 0 <= c && #[trigger] (c * c) <= v < (c + 1) * (c + 1);
    assert(0 <= c && c * c <= v < (c + 1) * (c + 1));
    assert(c == r) by (nonlinear_arith)
        requires
            0 <= r,
            0 <= c,
            r * r <= v,
            v < (r + 1) * (r + 1),
            c * c <= v,
            v < (c + 1) * (c + 1),
    ;
}

/// Truncating signed division on wide intermediates, via magnitudes.
fn div_i128(a: i128, b: i128) -> (q: i128)
    requires
        b != 0,
        -0x40000000000000000000000000000000 <= a <= 0x40000000000000000000000000000000,
        -0x40000000000000000000000000000000 <= b <= 0x40000000000000000000000000000000,
    ensures
        q == tdiv(a as int, b as int),
{
    let am: u128 = if a < 0 {
        (-a) as u128
    } else {
        a as u128
    };
    let bm: u128 = if b < 0 {
        (-b) as u128
    } else {
        b as u128
    };
    let qm: u128 = am / bm;
    proof {
        assert(qm <= am) by (nonlinear_arith)
            requires
                bm >= 1,
                qm == am / bm,
        ;
    }
    if (a < 0) != (b < 0) {
        -(qm as i128)
    } else {
        qm as i128
    }
}

fn clamp64(v: i128) -> (r: i64)
    ensures
        r as int == clip(v as int),
{
    if v > i64::MAX as i128 {
        i64::MAX
    } else if v < i64::MIN as i128 {
        i64::MIN
    } else {
        v as i64
    }
}

impl Fx {
    pub fn zero() -> (r: Fx)
        ensures
            r == (Fx { raw: 0 }),
    {
        Fx { raw: 0 }
    }

    pub fn one() -> (r: Fx)
        ensures
            r == (Fx { raw: SCALE }),
    {
        Fx { raw: SCALE }
    }

    /// The fixed-point image of a small integer, exactly.
    pub fn from_int(n: i32) -> (r: Fx)
        ensures
            r == fx(n as int * SCALE),
    {
        Fx { raw: (n as i64) * SCALE }
    }

    pub fn add(self, o: Fx) -> (r: Fx)
        ensures
            r == s_add(self, o),
    {
        let s: i128 = self.raw as i128 + o.raw as i128;
        Fx { raw: clamp64(s) }
    }

    pub fn sub(self, o: Fx) -> (r: Fx)
        ensures
            r == s_sub(self, o),
    {
        let s: i128 = self.raw as i128 - o.raw as i128;
        Fx { raw: clamp64(s) }
    }

    pub fn neg(self) -> (r: Fx)
        ensures
            r == s_neg(self),
    {
        let s: i128 = -(self.raw as i128);
        Fx { raw: clamp64(s) }
    }

    pub fn mul(self, o: Fx) -> (r: Fx)
        ensures
            r == s_mul(self, o),
    {
        proof {
            lemma_i64_prod_fits(self.raw as int, o.raw as int);
        }
        let p: i128 = (self.raw as i128) * (o.raw as i128);
        let q: i128 = div_i128(p, SCALE as i128);
        Fx { raw: clamp64(q) }
    }

    pub fn div(self, o: Fx) -> (r: Fx)
        ensures
            r == s_div(self, o),
    {
        if o.raw == 0 {
            if self.raw > 0 {
                Fx { raw: i64::MAX }
            } else if self.raw < 0 {
                Fx { raw: i64::MIN }
            } else {
                Fx { raw: 0 }
            }
        } else {
            proof {
                lemma_i64_prod_fits(self.raw as int, SCALE as int);
            }
            let p: i128 = (self.raw as i128) * (SCALE as i128);
            let q: i128 = div_i128(p, o.raw as i128);
            Fx { raw: clamp64(q) }
        }
    }

    pub fn sqrt(self) -> (r: Fx)
        ensures
            r == s_sqrt(self),
    {
        if self.raw <= 0 {
            Fx { raw: 0 }
        } else {
            proof {
                lemma_i64_prod_fits(self.raw as int, SCALE as int);
            }
            let v: u128 = (self.raw as u128) * (SCALE as u128);
            let r: u128 = isqrt_u128(v);
            proof {
                assert(r * r <= v < 0x100000000000000000000000 ==> r < 0x800000000000)
                    by (nonlinear_arith);
                lemma_sqrt_raw_is(v as int, r as int);
            }
            Fx { raw: r as i64 }
        }
    }
}

proof fn lemma_i64_prod_fits(a: int, b: int)
    requires
        i64::MIN <= a <= i64::MAX,
        i64::MIN <= b <= i64::MAX,
    ensures
        -0x40000000000000000000000000000000 <= a * b <= 0x40000000000000000000000000000000,
{
    assert(-0x40000000000000000000000000000000 <= a * b
        <= 0x40000000000000000000000000000000) by (nonlinear_arith)
        requires
            -0x8000000000000000 <= a <= 0x7fffffffffffffff,
            -0x8000000000000000 <= b <= 0x7fffffffffffffff,
    ;
}

fn isqrt_u128(v: u128) -> (r: u128)
    ensures
        r * r <= v < (r + 1) * (r + 1),
{
    if v == 0 {
        return 0;
    }
    let mut lo: u128 = 0;
    let mut hi: u128 = 0x10000000000000000;
    proof {
        assert(v < 0x10000000000000000 * 0x10000000000000000) by (nonlinear_arith)
            requires
                v <= u128::MAX,
        ;
    }
    while hi - lo > 1
        invariant
            lo < hi,
            hi <= 0x10000000000000000,
            lo * lo <= v,
            v < hi * hi,
        decreases hi - lo,
    {
        let mid: u128 = lo + (hi - lo) / 2;
        proof {
            assert(mid * mid <= 0x10000000000000000 * 0x10000000000000000
                - 0x20000000000000000 + 1) by (nonlinear_arith)
                requires
                    mid < 0x10000000000000000,
            ;
        }
        if mid * mid <= v {
            lo = mid;
        } else {
            hi = mid;
        }
    }
    lo
}

/// Multiplying by the fixed-point one is exact.
pub proof fn lemma_mul_one(a: Fx)
    ensures
        s_mul(a, Fx { raw: SCALE }) == a,
{
    assert(abs(a.raw * SCALE) == abs(a.raw as int) * SCALE) by (nonlinear_arith)
        requires
            SCALE == 1048576,
    ;
    assert((abs(a.raw as int) * SCALE) / (SCALE as int) == abs(a.raw as int)) by (nonlinear_arith)
        requires
            SCALE == 1048576,
            abs(a.raw as int) >= 0,
    ;
}

/// Multiplying by the fixed-point zero gives exactly zero.
pub proof fn lemma_mul_zero(a: Fx)
    ensures
        s_mul(a, Fx { raw: 0 }) == (Fx { raw: 0 }),
        s_mul(Fx { raw: 0 }, a) == (Fx { raw: 0 }),
{
    assert(a.raw * 0 == 0) by (nonlinear_arith);
    assert(0 * a.raw == 0) by (nonlinear_arith);
}

} // verus!
