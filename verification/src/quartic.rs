//! Real roots of a quartic polynomial, located to fixed-point resolution.
//!
//! The solver scans a symmetric parameter range in fixed-width cells,
//! looking for a sign change of the (saturating fixed-point) evaluation,
//! and bisects every sign-change cell down to one raw unit.  Its contract
//! is exact at that resolution: each returned value `t` brackets a sign
//! change, i.e. the evaluations at `t` and at `t` plus one raw unit have
//! product at most zero, and the returned values strictly increase.

use vstd::prelude::*;

use crate::fx::{s_add, s_mul, Fx};

verus! {

/// The five coefficients `d4 t^4 + d3 t^3 + d2 t^2 + d1 t + d0`.
#[derive(Clone, Copy, Debug)]
pub struct QuarticCoefs {
    pub d4: Fx,
    pub d3: Fx,
    pub d2: Fx,
    pub d1: Fx,
    pub d0: Fx,
}

/// Horner evaluation of the quartic in fixed point.
pub open spec fn s_quartic_at(d: QuarticCoefs, t: Fx) -> Fx {
    s_add(
        s_mul(
            s_add(s_mul(s_add(s_mul(s_add(s_mul(d.d4, t), d.d3), t), d.d2), t), d.d1),
            t,
        ),
        d.d0,
    )
}

/// `t` brackets a sign change: the evaluations at `t` and one raw unit
/// above have product at most zero.
pub open spec fn s_root_bracket(d: QuarticCoefs, t: Fx) -> bool {
    s_quartic_at(d, t).raw * s_quartic_at(d, Fx { raw: (t.raw + 1) as i64 }).raw <= 0
}


/// Spec mirror of the bisection refinement: narrows a cell to one raw
/// unit, keeping a sign change on the left of the split when there is
/// one.
pub open spec fn s_bisect(d: QuarticCoefs, lo: Fx, hi: Fx) -> Fx
    decreases hi.raw - lo.raw,
{
    if hi.raw - lo.raw <= 1 {
        lo
    } else {
        let mid = Fx { raw: (lo.raw + (hi.raw - lo.raw) / 2) as i64 };
        if s_quartic_at(d, lo).raw * s_quartic_at(d, mid).raw <= 0 {
            s_bisect(d, lo, mid)
        } else {
            s_bisect(d, mid, hi)
        }
    }
}

/// Spec mirror of the scan: the roots located in the first `k` cells.
pub open spec fn s_scan_roots(d: QuarticCoefs, k: nat) -> Seq<Fx>
    decreases k,
{
    if k == 0 {
        Seq::empty()
    } else {
        let prev = s_scan_roots(d, (k - 1) as nat);
        let lo = Fx { raw: (-67108864 + (k - 1) * 131072) as i64 };
        let hi = Fx { raw: (-67108864 + k * 131072) as i64 };
        let elo = s_quartic_at(d, lo);
        let ehi = s_quartic_at(d, hi);
        if elo.raw == 0 {
            prev.push(lo)
        } else if elo.raw * ehi.raw < 0 {
            prev.push(s_bisect(d, lo, hi))
        } else {
            prev
        }
    }
}

/// The whole root list of the scan over `[-64, 64]`.
pub open spec fn s_quartic_roots(d: QuarticCoefs) -> Seq<Fx> {
    s_scan_roots(d, 1024)
}

fn quartic_at(d: &QuarticCoefs, t: Fx) -> (r: Fx)
    ensures
        r == s_quartic_at(*d, t),
{
    d.d4.mul(t).add(d.d3).mul(t).add(d.d2).mul(t).add(d.d1).mul(t).add(d.d0)
}

/// Whether the product of the two signed values is at most zero.
fn signs_opposite(a: i64, b: i64) -> (r: bool)
    ensures
        r == (a as int * b as int <= 0),
{
    let r = (a <= 0 && b >= 0) || (a >= 0 && b <= 0);
    proof {
        assert(r == (a as int * b as int <= 0)) by (nonlinear_arith)
            requires
                r == ((a <= 0 && b >= 0) || (a >= 0 && b <= 0)),
        ;
    }
    r
}

/// Whether the product of the two signed values is strictly negative.
fn signs_strictly_opposite(a: i64, b: i64) -> (r: bool)
    ensures
        r == ((a as int * b as int) < 0),
{
    let r = (a < 0 && b > 0) || (a > 0 && b < 0);
    proof {
        assert(r == ((a as int * b as int) < 0)) by (nonlinear_arith)
            requires
                r == ((a < 0 && b > 0) || (a > 0 && b < 0)),
        ;
    }
    r
}

/// Bisects a sign-change cell `[lo, hi]` down to one raw unit.
fn bisect(d: &QuarticCoefs, lo0: Fx, hi0: Fx) -> (t: Fx)
    requires
        -67108864 <= lo0.raw < hi0.raw <= 67108864,
        s_quartic_at(*d, lo0).raw * s_quartic_at(*d, hi0).raw <= 0,
    ensures
        s_root_bracket(*d, t),
        lo0.raw <= t.raw < hi0.raw,
        t == s_bisect(*d, lo0, hi0),
{
    let mut lo = lo0;
    let mut hi = hi0;
    let mut elo = quartic_at(d, lo);
    while hi.raw - lo.raw > 1
        invariant
            -67108864 <= lo0.raw,
            hi0.raw <= 67108864,
            lo0.raw <= lo.raw < hi.raw <= hi0.raw,
            elo == s_quartic_at(*d, lo),
            s_quartic_at(*d, lo).raw * s_quartic_at(*d, hi).raw <= 0,
            s_bisect(*d, lo, hi) == s_bisect(*d, lo0, hi0),
        decreases hi.raw - lo.raw,
    {
        let mid = Fx { raw: lo.raw + (hi.raw - lo.raw) / 2 };
        let emid = quartic_at(d, mid);
        proof {
            assert(s_bisect(*d, lo, hi) == (if s_quartic_at(*d, lo).raw * s_quartic_at(
                *d,
                mid,
            ).raw <= 0 {
                s_bisect(*d, lo, mid)
            } else {
                s_bisect(*d, mid, hi)
            }));
        }
        if signs_opposite(elo.raw, emid.raw) {
            hi = mid;
        } else {
            proof {
                lemma_sign_chain(
                    s_quartic_at(*d, lo).raw as int,
                    s_quartic_at(*d, mid).raw as int,
                    s_quartic_at(*d, hi).raw as int,
                );
            }
            lo = mid;
            elo = emid;
        }
    }
    proof {
        assert(hi.raw == lo.raw + 1);
    }
    lo
}

/// If `a*b > 0` and `a*c <= 0` then `b*c <= 0`.
proof fn lemma_sign_chain(a: int, b: int, c: int)
    requires
        a * b > 0,
        a * c <= 0,
    ensures
        b * c <= 0,
{
    assert(b * c <= 0) by (nonlinear_arith)
        requires
            a * b > 0,
            a * c <= 0,
    ;
}

/// Scans `[-64, 64]` in cells of 1/8: a cell whose left endpoint
/// evaluates to exactly zero yields that endpoint, and a cell whose
/// endpoint evaluations have strictly opposite signs is bisected.  Every
/// returned value brackets a sign change of the fixed-point evaluation,
/// and the values strictly increase, so a root falling on a cell
/// boundary is reported once.
pub fn find_real_roots(d: &QuarticCoefs) -> (roots: Vec<Fx>)
    ensures
        forall|j: int| 0 <= j < roots@.len() ==> s_root_bracket(*d, #[trigger] roots@[j]),
        forall|j: int|
            0 <= j < roots@.len() - 1 ==> (#[trigger] roots@[j]).raw < roots@[j + 1].raw,
        forall|j: int|
            0 <= j < roots@.len() ==> -67108864 <= (#[trigger] roots@[j]).raw < 67108864,
        roots@ == s_quartic_roots(*d),
{
    let cell: i64 = 131072;
    let mut roots: Vec<Fx> = Vec::new();
    let mut lo = Fx { raw: -67108864i64 };
    let mut elo = quartic_at(d, lo);
    let mut k: usize = 0;
    while k < 1024
        invariant
            cell == 131072,
            k <= 1024,
            lo.raw == -67108864 + k * 131072,
            elo == s_quartic_at(*d, lo),
            forall|j: int| 0 <= j < roots@.len() ==> s_root_bracket(*d, #[trigger] roots@[j]),
            forall|j: int|
                0 <= j < roots@.len() - 1 ==> (#[trigger] roots@[j]).raw < roots@[j + 1].raw,
            forall|j: int| 0 <= j < roots@.len() ==> (#[trigger] roots@[j]).raw < lo.raw,
            forall|j: int| 0 <= j < roots@.len() ==> (#[trigger] roots@[j]).raw >= -67108864,
            roots@ == s_scan_roots(*d, k as nat),
        decreases 1024 - k,
    {
        let hi = Fx { raw: lo.raw + cell };
        let ehi = quartic_at(d, hi);
        proof {
            assert(s_scan_roots(*d, (k + 1) as nat) == {
                let prev = s_scan_roots(*d, k as nat);
                if s_quartic_at(*d, lo).raw == 0 {
                    prev.push(lo)
                } else if s_quartic_at(*d, lo).raw * s_quartic_at(*d, hi).raw < 0 {
                    prev.push(s_bisect(*d, lo, hi))
                } else {
                    prev
                }
            });
        }
        if elo.raw == 0 {
            roots.push(lo);
        } else if signs_strictly_opposite(elo.raw, ehi.raw) {
            let t = bisect(d, lo, hi);
            roots.push(t);
        }
        lo = hi;
        elo = ehi;
        k = k + 1;
    }
    roots
}

} // verus!
