//! Uniform cubic Catmull-Rom spline through a list of control points.
//!
//! The fixed tension is 1/2, so every basis-matrix entry is an exact
//! fixed-point multiple of one half.  Each sliding window of four points
//! yields one cubic coefficient segment; a global parameter in `[0,1]` is
//! scaled by the segment count, its integer part clamped into range, and
//! the fractional remainder evaluates that segment.  A spline with fewer
//! than four points has no segments and evaluates to the origin.

use vstd::prelude::*;

use crate::curve::GenericCurve;
use crate::fx::{lemma_mul_zero, s_mul, tdiv, Fx, SCALE};
use crate::hermite::c_int;
use crate::linalg::{s_vadd, s_vscale, s_vsub, Vec3};

verus! {

/// One cubic segment: position is `c0 + c1 t + c2 t^2 + c3 t^3` in the
/// local parameter `t`.
#[derive(Clone, Copy, Debug)]
pub struct SegCoefs {
    pub c0: Vec3,
    pub c1: Vec3,
    pub c2: Vec3,
    pub c3: Vec3,
}

/// The coefficient segment of one four-point window under the uniform
/// Catmull-Rom basis with tension 1/2.
pub open spec fn s_catmull_coefs(p0: Vec3, p1: Vec3, p2: Vec3, p3: Vec3) -> SegCoefs {
    let half = Fx { raw: (SCALE / 2) as i64 };
    let three_halves = Fx { raw: (3 * SCALE / 2) as i64 };
    let five_halves = Fx { raw: (5 * SCALE / 2) as i64 };
    let two = Fx { raw: (2 * SCALE) as i64 };
    SegCoefs {
        c0: p1,
        c1: s_vscale(s_vsub(p2, p0), half),
        c2: s_vsub(
            s_vadd(p0, s_vscale(p2, two)),
            s_vadd(s_vscale(p1, five_halves), s_vscale(p3, half)),
        ),
        c3: s_vadd(s_vscale(s_vsub(p1, p2), three_halves), s_vscale(s_vsub(p3, p0), half)),
    }
}

/// Cubic position in the local parameter.
pub open spec fn s_eval_seg(c: SegCoefs, t: Fx) -> Vec3 {
    let t2 = s_mul(t, t);
    let t3 = s_mul(t2, t);
    s_vadd(s_vadd(s_vadd(c.c0, s_vscale(c.c1, t)), s_vscale(c.c2, t2)), s_vscale(c.c3, t3))
}

/// Local derivative `c1 + 2 c2 t + 3 c3 t^2`, before the chain-rule
/// rescale.
pub open spec fn s_deval_seg(c: SegCoefs, t: Fx) -> Vec3 {
    let t2 = s_mul(t, t);
    s_vadd(
        s_vadd(c.c1, s_vscale(c.c2, s_mul(c_int(2), t))),
        s_vscale(c.c3, s_mul(c_int(3), t2)),
    )
}

/// Local second derivative `2 c2 + 6 c3 t`, before the chain-rule rescale.
pub open spec fn s_d2eval_seg(c: SegCoefs, t: Fx) -> Vec3 {
    s_vadd(s_vscale(c.c2, c_int(2)), s_vscale(c.c3, s_mul(c_int(6), t)))
}

/// Maps a global parameter to a local parameter and a clamped segment
/// index: scale by the segment count `n`, take the floor for the index,
/// clamp it into `[0, n-1]`, and keep the remainder as the local
/// parameter.
pub open spec fn s_norm_cr(u: Fx, n: int) -> (Fx, int) {
    let scaled = s_mul(u, c_int(n));
    let fl = scaled.raw as int / (SCALE as int);
    let i = if fl < 0 {
        0
    } else if fl > n - 1 {
        n - 1
    } else {
        fl
    };
    (Fx { raw: (scaled.raw - i * SCALE) as i64 }, i)
}

pub open spec fn s_zero_v() -> Vec3 {
    Vec3 { x: Fx { raw: 0 }, y: Fx { raw: 0 }, z: Fx { raw: 0 } }
}

pub open spec fn s_p_cr(cr: CatmullRom3, u: Fx) -> Vec3 {
    if cr.coefs@.len() == 0 {
        s_zero_v()
    } else {
        let (t, i) = s_norm_cr(u, cr.coefs@.len() as int);
        s_eval_seg(cr.coefs@[i], t)
    }
}

pub open spec fn s_dp_cr(cr: CatmullRom3, u: Fx) -> Vec3 {
    if cr.coefs@.len() == 0 {
        s_zero_v()
    } else {
        let (t, i) = s_norm_cr(u, cr.coefs@.len() as int);
        s_vscale(s_deval_seg(cr.coefs@[i], t), c_int(cr.coefs@.len() as int))
    }
}

pub open spec fn s_d2p_cr(cr: CatmullRom3, u: Fx) -> Vec3 {
    if cr.coefs@.len() == 0 {
        s_zero_v()
    } else {
        let (t, i) = s_norm_cr(u, cr.coefs@.len() as int);
        let n = c_int(cr.coefs@.len() as int);
        s_vscale(s_d2eval_seg(cr.coefs@[i], t), s_mul(n, n))
    }
}

/// A global uniform Catmull-Rom spline: the control points and one
/// precomputed coefficient segment per four-point window.
pub struct CatmullRom3 {
    pub pts: Vec<Vec3>,
    pub coefs: Vec<SegCoefs>,
}

/// The spline's invariant, established by construction: one coefficient
/// segment per sliding four-point window, each the basis product of its
/// window.
pub open spec fn cr_well_formed(cr: CatmullRom3) -> bool {
    &&& cr.coefs@.len() == (if cr.pts@.len() >= 4 {
        cr.pts@.len() - 3
    } else {
        0
    })
    &&& forall|j: int|
        0 <= j < cr.coefs@.len() ==> #[trigger] cr.coefs@[j] == s_catmull_coefs(
            cr.pts@[j],
            cr.pts@[j + 1],
            cr.pts@[j + 2],
            cr.pts@[j + 3],
        )
}

/// The fixed-point image of a count, saturating far beyond any real
/// segment count.
fn from_count(n: usize) -> (r: Fx)
    ensures
        r == c_int(n as int),
{
    if n as u64 >= 8796093022208u64 {
        Fx { raw: i64::MAX }
    } else {
        Fx { raw: (n as i64) * SCALE }
    }
}

impl CatmullRom3 {
    /// Builds the spline: one coefficient segment per sliding window of
    /// four consecutive control points, so `N` points give `N - 3`
    /// segments (none when `N < 4`).
    pub fn new(pts: Vec<Vec3>) -> (r: CatmullRom3)
        ensures
            r.pts@ == pts@,
            r.coefs@.len() == (if pts@.len() >= 4 {
                pts@.len() - 3
            } else {
                0
            }),
            forall|j: int|
                0 <= j < r.coefs@.len() ==> r.coefs@[j] == s_catmull_coefs(
                    pts@[j],
                    pts@[j + 1],
                    pts@[j + 2],
                    pts@[j + 3],
                ),
            cr_well_formed(r),
    {
        let mut coefs: Vec<SegCoefs> = Vec::new();
        if pts.len() >= 4 {
            let m = pts.len() - 3;
            let mut j: usize = 0;
            while j < m
                invariant
                    m + 3 == pts@.len(),
                    pts@.len() <= usize::MAX,
                    j <= m,
                    coefs@.len() == j,
                    forall|k: int|
                        0 <= k < j ==> coefs@[k] == s_catmull_coefs(
                            pts@[k],
                            pts@[k + 1],
                            pts@[k + 2],
                            pts@[k + 3],
                        ),
                decreases m - j,
            {
                coefs.push(catmull_window(pts[j], pts[j + 1], pts[j + 2], pts[j + 3]));
                j = j + 1;
            }
        }
        CatmullRom3 { pts, coefs }
    }

    /// Global-to-local parameter map; the returned index is always in
    /// range, whatever `u` is.
    fn normalize(&self, u: Fx) -> (r: (Fx, usize))
        requires
            self.coefs@.len() > 0,
        ensures
            ({
                let (t, i) = s_norm_cr(u, self.coefs@.len() as int);
                r.0 == t && r.1 as int == i && r.1 < self.coefs@.len()
            }),
    {
        let n = self.coefs.len();
        let scaled = u.mul(from_count(n));
        if scaled.raw < 0 {
            (scaled, 0)
        } else {
            let fl: i64 = scaled.raw / SCALE;
            let i: usize = if fl as u64 >= (n - 1) as u64 {
                n - 1
            } else {
                fl as usize
            };
            proof {
                assert((i as i64) * SCALE <= scaled.raw) by (nonlinear_arith)
                    requires
                        0 <= i as i64 <= fl,
                        fl == scaled.raw as int / (SCALE as int),
                        scaled.raw >= 0,
                        SCALE == 1048576,
                ;
            }
            (Fx { raw: scaled.raw - (i as i64) * SCALE }, i)
        }
    }
}

fn catmull_window(p0: Vec3, p1: Vec3, p2: Vec3, p3: Vec3) -> (r: SegCoefs)
    ensures
        r == s_catmull_coefs(p0, p1, p2, p3),
{
    let half = Fx { raw: SCALE / 2 };
    let three_halves = Fx { raw: 3 * SCALE / 2 };
    let five_halves = Fx { raw: 5 * SCALE / 2 };
    let two = Fx { raw: 2 * SCALE };
    SegCoefs {
        c0: p1,
        c1: p2.sub(p0).scale(half),
        c2: p0.add(p2.scale(two)).sub(p1.scale(five_halves).add(p3.scale(half))),
        c3: p1.sub(p2).scale(three_halves).add(p3.sub(p0).scale(half)),
    }
}

impl GenericCurve for CatmullRom3 {
    open spec fn s_p(&self, u: Fx) -> Vec3 {
        s_p_cr(*self, u)
    }

    open spec fn s_dp(&self, u: Fx) -> Vec3 {
        s_dp_cr(*self, u)
    }

    open spec fn s_d2p(&self, u: Fx) -> Vec3 {
        s_d2p_cr(*self, u)
    }

    fn p(&self, u: Fx) -> (r: Vec3)
        ensures
            r == self.s_p(u),
    {
        if self.coefs.len() == 0 {
            return Vec3::zero();
        }
        let (t, i) = self.normalize(u);
        let c = self.coefs[i];
        let t2 = t.mul(t);
        let t3 = t2.mul(t);
        c.c0.add(c.c1.scale(t)).add(c.c2.scale(t2)).add(c.c3.scale(t3))
    }

    fn dp(&self, u: Fx) -> (r: Vec3)
        ensures
            r == self.s_dp(u),
    {
        if self.coefs.len() == 0 {
            return Vec3::zero();
        }
        let (t, i) = self.normalize(u);
        let c = self.coefs[i];
        let t2 = t.mul(t);
        let two = Fx::from_int(2);
        let three = Fx::from_int(3);
        c.c1.add(c.c2.scale(two.mul(t))).add(c.c3.scale(three.mul(t2))).scale(
            from_count(self.coefs.len()),
        )
    }

    fn d2p(&self, u: Fx) -> (r: Vec3)
        ensures
            r == self.s_d2p(u),
    {
        if self.coefs.len() == 0 {
            return Vec3::zero();
        }
        let (t, i) = self.normalize(u);
        let c = self.coefs[i];
        let two = Fx::from_int(2);
        let six = Fx::from_int(6);
        let nfx = from_count(self.coefs.len());
        c.c2.scale(two).add(c.c3.scale(six.mul(t))).scale(nfx.mul(nfx))
    }
}

/// Any global parameter maps to a segment index strictly inside the
/// coefficient list, including exactly 1 and values outside `[0, 1]`.
pub proof fn lemma_norm_index_in_range(u: Fx, n: int)
    requires
        n > 0,
    ensures
        0 <= s_norm_cr(u, n).1 < n,
{
}

/// Evaluating a segment at local parameter 0 gives exactly its constant
/// coefficient.
pub proof fn lemma_eval_seg_at_zero(c: SegCoefs)
    ensures
        s_eval_seg(c, Fx { raw: 0 }) == c.c0,
{
    lemma_mul_zero(c.c1.x);
    lemma_mul_zero(c.c1.y);
    lemma_mul_zero(c.c1.z);
    lemma_mul_zero(c.c2.x);
    lemma_mul_zero(c.c2.y);
    lemma_mul_zero(c.c2.z);
    lemma_mul_zero(c.c3.x);
    lemma_mul_zero(c.c3.y);
    lemma_mul_zero(c.c3.z);
}


/// On the unit interval the parameter map is the pure floor map: for
/// `0 <= u < 1` the index is `floor(u * n)` with no clamping, and the
/// local parameter lies in `[0, 1)`.
pub proof fn lemma_norm_on_unit_interval(u: Fx, n: int)
    requires
        0 <= u.raw < SCALE,
        0 < n <= 1000000,
    ensures
        s_norm_cr(u, n).1 == u.raw * n / (SCALE as int),
        0 <= s_norm_cr(u, n).0.raw < SCALE,
{
    assert(c_int(n).raw == n * SCALE);
    assert(u.raw * n <= 1048575 * 1000000) by (nonlinear_arith)
        requires
            0 <= u.raw < 1048576,
            0 < n <= 1000000,
    ;
    assert(u.raw * n >= 0) by (nonlinear_arith)
        requires
            0 <= u.raw,
            0 < n,
    ;
    assert(tdiv(u.raw * (n * SCALE), SCALE as int) == u.raw * n) by (nonlinear_arith)
        requires
            SCALE == 1048576,
            0 <= u.raw,
            0 < n,
    ;
    let scaled = s_mul(u, c_int(n));
    assert(scaled.raw == u.raw * n);
    assert(u.raw * n / 1048576 < n) by (nonlinear_arith)
        requires
            0 <= u.raw < 1048576,
            0 < n,
    ;
    assert(0 <= u.raw * n - (u.raw * n / 1048576) * 1048576 < 1048576) by (nonlinear_arith)
        requires
            u.raw * n >= 0,
    ;
}

/// The spline's position at global parameter 0 is segment 0 evaluated at
/// local parameter 0, which is that segment's constant coefficient: the
/// second control point.
pub proof fn lemma_catmull_position_at_zero(cr: CatmullRom3)
    requires
        cr.coefs@.len() > 0,
    ensures
        s_p_cr(cr, Fx { raw: 0 }) == s_eval_seg(cr.coefs@[0], Fx { raw: 0 }),
        s_p_cr(cr, Fx { raw: 0 }) == cr.coefs@[0].c0,
{
    let n = cr.coefs@.len() as int;
    assert(s_mul(Fx { raw: 0 }, c_int(n)) == (Fx { raw: 0 }));
    lemma_eval_seg_at_zero(cr.coefs@[0]);
}

/// The spline's position at global parameter 1 is the last segment
/// evaluated at local parameter 1.
pub proof fn lemma_catmull_position_at_one(cr: CatmullRom3)
    requires
        0 < cr.coefs@.len() <= 1000000,
    ensures
        s_p_cr(cr, Fx { raw: SCALE }) == s_eval_seg(
            cr.coefs@[cr.coefs@.len() - 1],
            Fx { raw: SCALE },
        ),
{
    let n = cr.coefs@.len() as int;
    let cn = c_int(n);
    assert(cn.raw == n * SCALE);
    assert((SCALE * (n * SCALE)) / (SCALE as int) == n * SCALE) by (nonlinear_arith)
        requires
            SCALE == 1048576,
            0 < n <= 1000000,
    ;
    assert(s_mul(Fx { raw: SCALE }, cn).raw == n * SCALE);
    assert((n * SCALE) / (SCALE as int) == n) by (nonlinear_arith)
        requires
            SCALE == 1048576,
            0 < n <= 1000000,
    ;
}

} // verus!
