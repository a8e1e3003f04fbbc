//! The closed-form quintic evaluation kernel of a Pythagorean-hodograph
//! segment.
//!
//! A `HermiteQuintic` holds the start position, the five Bernstein weights
//! of the speed polynomial and the five weighted tangent vectors.  Position
//! comes from the closed-form antiderivative of the weighted tangent
//! polynomial, so no numerical integration is involved; the bending energy
//! is the documented fixed 1000-sample left Riemann sum of squared
//! curvature times speed.

use vstd::prelude::*;

use crate::curve::{resample_ok, Resample};
use crate::fx::{abs, clip, fx, lemma_mul_one, lemma_mul_zero, s_add, s_div, s_mul, s_sub, Fx, SCALE};
use crate::linalg::{
    s_cross, s_length_squared, s_vadd, s_vdiv, s_vscale, s_vsub, Vec3,
};

verus! {

/// The fixed-point image of a small integer.
pub open spec fn c_int(n: int) -> Fx {
    fx(n * SCALE)
}

/// Degree-4 Bernstein blend weight for index 0: `(1-t)^4`.
pub open spec fn s_bw0(t: Fx) -> Fx {
    let s = s_sub(c_int(1), t);
    let s2 = s_mul(s, s);
    s_mul(s2, s2)
}

/// Blend weight for index 1: `4 t (1-t)^3`.
pub open spec fn s_bw1(t: Fx) -> Fx {
    let s = s_sub(c_int(1), t);
    let s2 = s_mul(s, s);
    let s3 = s_mul(s2, s);
    s_mul(s_mul(s3, t), c_int(4))
}

/// Blend weight for index 2: `6 ((1-t) t)^2`.
pub open spec fn s_bw2(t: Fx) -> Fx {
    let s = s_sub(c_int(1), t);
    let st = s_mul(s, t);
    s_mul(s_mul(st, st), c_int(6))
}

/// Blend weight for index 3: `4 (1-t) t^3`.
pub open spec fn s_bw3(t: Fx) -> Fx {
    let s = s_sub(c_int(1), t);
    let t2 = s_mul(t, t);
    let t3 = s_mul(t2, t);
    s_mul(s_mul(s, t3), c_int(4))
}

/// Blend weight for index 4: `t^4`.
pub open spec fn s_bw4(t: Fx) -> Fx {
    let t2 = s_mul(t, t);
    s_mul(t2, t2)
}

/// Antiderivative blend weight for index 0: `(t-1)^5 / 5`.
pub open spec fn s_iw0(t: Fx) -> Fx {
    let u = s_sub(t, c_int(1));
    let u2 = s_mul(u, u);
    let u5 = s_mul(s_mul(u2, u2), u);
    s_div(u5, c_int(5))
}

/// Antiderivative blend weight for index 1:
/// `4 (-t^5/5 + 3 t^4/4 - t^3 + t^2/2)`.
pub open spec fn s_iw1(t: Fx) -> Fx {
    let t2 = s_mul(t, t);
    let t3 = s_mul(t2, t);
    let t4 = s_mul(t2, t2);
    let t5 = s_mul(t4, t);
    let a = s_sub(s_sub(s_mul(t4, fx(3 * SCALE / 4)), s_div(t5, c_int(5))), t3);
    s_mul(s_add(a, s_mul(t2, fx(SCALE / 2))), c_int(4))
}

/// Antiderivative blend weight for index 2: `6 (t^5/5 - t^4/2 + t^3/3)`.
pub open spec fn s_iw2(t: Fx) -> Fx {
    let t2 = s_mul(t, t);
    let t3 = s_mul(t2, t);
    let t4 = s_mul(t2, t2);
    let t5 = s_mul(t4, t);
    s_mul(s_add(s_sub(s_div(t5, c_int(5)), s_mul(t4, fx(SCALE / 2))), s_div(t3, c_int(3))), c_int(6))
}

/// Antiderivative blend weight for index 3: `4 (t^4/4 - t^5/5)`.
pub open spec fn s_iw3(t: Fx) -> Fx {
    let t2 = s_mul(t, t);
    let t4 = s_mul(t2, t2);
    let t5 = s_mul(t4, t);
    s_mul(s_sub(s_mul(t4, fx(SCALE / 4)), s_div(t5, c_int(5))), c_int(4))
}

/// Antiderivative blend weight for index 4: `t^5 / 5`.
pub open spec fn s_iw4(t: Fx) -> Fx {
    let t2 = s_mul(t, t);
    let t5 = s_mul(s_mul(t2, t2), t);
    s_div(t5, c_int(5))
}

/// Derivative blend weight for index 0: `-4 (1-t)^3`.
pub open spec fn s_dw0(t: Fx) -> Fx {
    let s = s_sub(c_int(1), t);
    let s2 = s_mul(s, s);
    let s3 = s_mul(s2, s);
    s_mul(c_int(-4), s3)
}

/// Derivative blend weight for index 1: `4 (1 - 4t) (1-t)^2`.
pub open spec fn s_dw1(t: Fx) -> Fx {
    let s = s_sub(c_int(1), t);
    let s2 = s_mul(s, s);
    s_mul(s_mul(s_sub(c_int(1), s_mul(c_int(4), t)), s2), c_int(4))
}

/// Derivative blend weight for index 2: `6 * 2 (t-1) t (2t-1)`.
pub open spec fn s_dw2(t: Fx) -> Fx {
    let a = s_mul(s_mul(c_int(2), s_sub(t, c_int(1))), t);
    s_mul(s_mul(a, s_sub(s_mul(c_int(2), t), c_int(1))), c_int(6))
}

/// Derivative blend weight for index 3: `4 (3 - 4t) t^2`.
pub open spec fn s_dw3(t: Fx) -> Fx {
    let t2 = s_mul(t, t);
    s_mul(s_mul(s_sub(c_int(3), s_mul(c_int(4), t)), t2), c_int(4))
}

/// Derivative blend weight for index 4: `4 t^3`.
pub open spec fn s_dw4(t: Fx) -> Fx {
    let t2 = s_mul(t, t);
    let t3 = s_mul(t2, t);
    s_mul(c_int(4), t3)
}

/// The degree-4 Bernstein blend of five scalar coefficients.
pub open spec fn s_hpoly(c: [Fx; 5], t: Fx) -> Fx {
    s_add(
        s_add(
            s_add(s_add(s_mul(c[0], s_bw0(t)), s_mul(c[1], s_bw1(t))), s_mul(c[2], s_bw2(t))),
            s_mul(c[3], s_bw3(t)),
        ),
        s_mul(c[4], s_bw4(t)),
    )
}

/// The same blend applied to five vector coefficients.
pub open spec fn s_hpoly_v(c: [Vec3; 5], t: Fx) -> Vec3 {
    s_vadd(
        s_vadd(
            s_vadd(
                s_vadd(s_vscale(c[0], s_bw0(t)), s_vscale(c[1], s_bw1(t))),
                s_vscale(c[2], s_bw2(t)),
            ),
            s_vscale(c[3], s_bw3(t)),
        ),
        s_vscale(c[4], s_bw4(t)),
    )
}

/// The closed-form antiderivative of the vector blend.
pub open spec fn s_ihpoly_v(c: [Vec3; 5], t: Fx) -> Vec3 {
    s_vadd(
        s_vadd(
            s_vadd(
                s_vadd(s_vscale(c[0], s_iw0(t)), s_vscale(c[1], s_iw1(t))),
                s_vscale(c[2], s_iw2(t)),
            ),
            s_vscale(c[3], s_iw3(t)),
        ),
        s_vscale(c[4], s_iw4(t)),
    )
}

/// The derivative of the vector blend.
pub open spec fn s_dhpoly_v(c: [Vec3; 5], t: Fx) -> Vec3 {
    s_vadd(
        s_vadd(
            s_vadd(
                s_vadd(s_vscale(c[0], s_dw0(t)), s_vscale(c[1], s_dw1(t))),
                s_vscale(c[2], s_dw2(t)),
            ),
            s_vscale(c[3], s_dw3(t)),
        ),
        s_vscale(c[4], s_dw4(t)),
    )
}

fn bern4(t: Fx) -> (r: (Fx, Fx, Fx, Fx, Fx))
    ensures
        r.0 == s_bw0(t),
        r.1 == s_bw1(t),
        r.2 == s_bw2(t),
        r.3 == s_bw3(t),
        r.4 == s_bw4(t),
{
    let one = Fx::from_int(1);
    let four = Fx::from_int(4);
    let six = Fx::from_int(6);
    let s = one.sub(t);
    let s2 = s.mul(s);
    let s3 = s2.mul(s);
    let st = s.mul(t);
    let t2 = t.mul(t);
    let t3 = t2.mul(t);
    (
        s2.mul(s2),
        s3.mul(t).mul(four),
        st.mul(st).mul(six),
        s.mul(t3).mul(four),
        t2.mul(t2),
    )
}

fn ibern4(t: Fx) -> (r: (Fx, Fx, Fx, Fx, Fx))
    ensures
        r.0 == s_iw0(t),
        r.1 == s_iw1(t),
        r.2 == s_iw2(t),
        r.3 == s_iw3(t),
        r.4 == s_iw4(t),
{
    let one = Fx::from_int(1);
    let four = Fx::from_int(4);
    let five = Fx::from_int(5);
    let six = Fx::from_int(6);
    let three = Fx::from_int(3);
    let half = Fx { raw: SCALE / 2 };
    let quarter = Fx { raw: SCALE / 4 };
    let three_quarters = Fx { raw: 3 * SCALE / 4 };
    let u = t.sub(one);
    let u2 = u.mul(u);
    let u5 = u2.mul(u2).mul(u);
    let t2 = t.mul(t);
    let t3 = t2.mul(t);
    let t4 = t2.mul(t2);
    let t5 = t4.mul(t);
    let a1 = t4.mul(three_quarters).sub(t5.div(five)).sub(t3);
    (
        u5.div(five),
        a1.add(t2.mul(half)).mul(four),
        t5.div(five).sub(t4.mul(half)).add(t3.div(three)).mul(six),
        t4.mul(quarter).sub(t5.div(five)).mul(four),
        t5.div(five),
    )
}

fn dbern4(t: Fx) -> (r: (Fx, Fx, Fx, Fx, Fx))
    ensures
        r.0 == s_dw0(t),
        r.1 == s_dw1(t),
        r.2 == s_dw2(t),
        r.3 == s_dw3(t),
        r.4 == s_dw4(t),
{
    let one = Fx::from_int(1);
    let two = Fx::from_int(2);
    let three = Fx::from_int(3);
    let four = Fx::from_int(4);
    let six = Fx::from_int(6);
    let neg_four = Fx::from_int(-4);
    let s = one.sub(t);
    let s2 = s.mul(s);
    let s3 = s2.mul(s);
    let t2 = t.mul(t);
    let t3 = t2.mul(t);
    let a = two.mul(t.sub(one)).mul(t);
    (
        neg_four.mul(s3),
        one.sub(four.mul(t)).mul(s2).mul(four),
        a.mul(two.mul(t).sub(one)).mul(six),
        three.sub(four.mul(t)).mul(t2).mul(four),
        four.mul(t3),
    )
}

/// The Bernstein blend of five scalar coefficients at `t`.
pub(crate) fn hermite_quintic_polynomial(coefs: &[Fx; 5], t: Fx) -> (r: Fx)
    ensures
        r == s_hpoly(*coefs, t),
{
    let (b0, b1, b2, b3, b4) = bern4(t);
    coefs[0].mul(b0).add(coefs[1].mul(b1)).add(coefs[2].mul(b2)).add(coefs[3].mul(b3)).add(
        coefs[4].mul(b4),
    )
}

/// The Bernstein blend of five vector coefficients at `t`.
pub(crate) fn hermite_quintic_polynomial_v(coefs: &[Vec3; 5], t: Fx) -> (r: Vec3)
    ensures
        r == s_hpoly_v(*coefs, t),
{
    let (b0, b1, b2, b3, b4) = bern4(t);
    coefs[0].scale(b0).add(coefs[1].scale(b1)).add(coefs[2].scale(b2)).add(coefs[3].scale(b3)).add(
        coefs[4].scale(b4),
    )
}

/// The closed-form antiderivative of the vector blend at `t`.
pub(crate) fn hermite_quintic_polynomial_integral(coefs: &[Vec3; 5], t: Fx) -> (r: Vec3)
    ensures
        r == s_ihpoly_v(*coefs, t),
{
    let (b0, b1, b2, b3, b4) = ibern4(t);
    coefs[0].scale(b0).add(coefs[1].scale(b1)).add(coefs[2].scale(b2)).add(coefs[3].scale(b3)).add(
        coefs[4].scale(b4),
    )
}

/// The derivative of the vector blend at `t`.
pub(crate) fn hermite_quintic_polynomial_derivative(coefs: &[Vec3; 5], t: Fx) -> (r: Vec3)
    ensures
        r == s_dhpoly_v(*coefs, t),
{
    let (b0, b1, b2, b3, b4) = dbern4(t);
    coefs[0].scale(b0).add(coefs[1].scale(b1)).add(coefs[2].scale(b2)).add(coefs[3].scale(b3)).add(
        coefs[4].scale(b4),
    )
}

/// The quintic evaluation view of a constructed segment.
#[derive(Clone, Copy, Debug)]
pub struct HermiteQuintic {
    pub pi: Vec3,
    pub weights: [Fx; 5],
    pub weighted_tangents: [Vec3; 5],
}

/// Parametric speed: the Bernstein blend of the weights.
pub open spec fn s_speed(h: HermiteQuintic, u: Fx) -> Fx {
    s_hpoly(h.weights, u)
}

/// Position: start point plus the definite integral of the weighted
/// tangent polynomial from 0 to `u`.
pub open spec fn s_p_h(h: HermiteQuintic, u: Fx) -> Vec3 {
    s_vsub(s_vadd(h.pi, s_ihpoly_v(h.weighted_tangents, u)), s_ihpoly_v(h.weighted_tangents, Fx { raw: 0 }))
}

pub open spec fn s_dp_h(h: HermiteQuintic, u: Fx) -> Vec3 {
    s_hpoly_v(h.weighted_tangents, u)
}

pub open spec fn s_d2p_h(h: HermiteQuintic, u: Fx) -> Vec3 {
    s_dhpoly_v(h.weighted_tangents, u)
}

pub open spec fn s_tangent_h(h: HermiteQuintic, u: Fx) -> Vec3 {
    s_vdiv(s_hpoly_v(h.weighted_tangents, u), s_hpoly(h.weights, u))
}

/// Squared curvature `|dp x d2p|^2 / speed^6`, formed without a square
/// root of the speed.
pub open spec fn s_curvature_squared(h: HermiteQuintic, u: Fx) -> Fx {
    let num = s_length_squared(s_cross(s_dp_h(h, u), s_d2p_h(h, u)));
    let w = s_hpoly(h.weights, u);
    let w2 = s_mul(w, w);
    let w4 = s_mul(w2, w2);
    s_div(num, s_mul(w4, w2))
}

/// One term of the bending-energy Riemann sum, at sample index `i`.
#[verifier::opaque]
pub open spec fn s_energy_term(h: HermiteQuintic, i: int) -> Fx {
    let u = s_div(c_int(i), c_int(1000));
    s_mul(s_mul(s_curvature_squared(h, u), s_speed(h, u)), s_div(c_int(1), c_int(1000)))
}

/// The partial bending-energy sum over the first `n` of 1000 samples.
#[verifier::opaque]
pub open spec fn s_energy_upto(h: HermiteQuintic, n: nat) -> Fx
    decreases n,
{
    if n == 0 {
        Fx { raw: 0 }
    } else {
        s_add(s_energy_upto(h, (n - 1) as nat), s_energy_term(h, n - 1))
    }
}

/// The integrated bending energy: the full 1000-sample sum.
pub open spec fn s_energy(h: HermiteQuintic) -> Fx {
    s_energy_upto(h, 1000)
}

impl HermiteQuintic {
    /// Unit tangent direction `dp(u) / speed(u)`.
    pub fn tangent(&self, u: Fx) -> (r: Vec3)
        ensures
            r == s_tangent_h(*self, u),
    {
        hermite_quintic_polynomial_v(&self.weighted_tangents, u).div(
            hermite_quintic_polynomial(&self.weights, u),
        )
    }

    /// Parametric speed; positive on `[0,1]` for any well-constructed
    /// segment.
    pub fn speed(&self, u: Fx) -> (r: Fx)
        ensures
            r == s_speed(*self, u),
    {
        hermite_quintic_polynomial(&self.weights, u)
    }

    pub fn p(&self, u: Fx) -> (r: Vec3)
        ensures
            r == s_p_h(*self, u),
    {
        self.pi.add(hermite_quintic_polynomial_integral(&self.weighted_tangents, u)).sub(
            hermite_quintic_polynomial_integral(&self.weighted_tangents, Fx { raw: 0 }),
        )
    }

    pub fn dp(&self, u: Fx) -> (r: Vec3)
        ensures
            r == s_dp_h(*self, u),
    {
        hermite_quintic_polynomial_v(&self.weighted_tangents, u)
    }

    pub fn d2p(&self, u: Fx) -> (r: Vec3)
        ensures
            r == s_d2p_h(*self, u),
    {
        hermite_quintic_polynomial_derivative(&self.weighted_tangents, u)
    }

    /// The fixed 1000-sample left Riemann sum of squared curvature times
    /// speed, the candidate-selection criterion.
    #[verifier::rlimit(60)]
    pub fn elastic_bending_energy(&self) -> (r: Fx)
        ensures
            r == s_energy(*self),
    {
        let milli = Fx::from_int(1).div(Fx::from_int(1000));
        let thousand = Fx::from_int(1000);
        let mut acc = Fx { raw: 0 };
        proof {
            reveal_with_fuel(s_energy_upto, 1);
        }
        let mut i: usize = 0;
        while i < 1000
            invariant
                i <= 1000,
                thousand == c_int(1000),
                milli == s_div(c_int(1), c_int(1000)),
                acc == s_energy_upto(*self, i as nat),
            decreases 1000 - i,
        {
            let u = Fx::from_int(i as i32).div(thousand);
            let cs = self.curvature_squared(u);
            let sp = self.speed(u);
            proof {
                reveal_with_fuel(s_energy_upto, 2);
                reveal(s_energy_term);
                assert((i as i32) as int == i as int);
                assert(u == s_div(c_int(i as int), c_int(1000)));
                assert(s_energy_upto(*self, (i + 1) as nat) == s_add(
                    s_energy_upto(*self, i as nat),
                    s_energy_term(*self, i as int),
                ));
            }
            acc = acc.add(cs.mul(sp).mul(milli));
            i = i + 1;
        }
        acc
    }

    fn curvature_squared(&self, u: Fx) -> (r: Fx)
        ensures
            r == s_curvature_squared(*self, u),
    {
        let dp = self.dp(u);
        let d2p = self.d2p(u);
        let num = dp.cross(d2p).length_squared();
        let w = hermite_quintic_polynomial(&self.weights, u);
        let w2 = w.mul(w);
        let w4 = w2.mul(w2);
        num.div(w4.mul(w2))
    }
}

/// The arc-length sample sequence of the quintic from `u` on:
/// forward-Euler steps of `ds` over the speed polynomial, one raw unit
/// at least and saturating at the integer range, until `stop` is
/// reached.
pub open spec fn s_resample_h(h: HermiteQuintic, u: Fx, stop: Fx, ds: Fx) -> Seq<Fx>
    decreases
            (if u.raw < stop.raw {
                stop.raw - u.raw
            } else {
                0int
            }),
{
    if u.raw >= stop.raw {
        Seq::empty()
    } else {
        let du = s_div(ds, s_speed(h, u));
        let step: int = if du.raw < 1 {
            1
        } else {
            du.raw as int
        };
        seq![u] + s_resample_h(h, Fx { raw: clip(u.raw + step) as i64 }, stop, ds)
    }
}

impl Resample for HermiteQuintic {
    open spec fn s_resample(&self, u_start: Fx, u_stop: Fx, ds: Fx) -> Seq<Fx> {
        s_resample_h(*self, u_start, u_stop, ds)
    }

    /// Forward-Euler arc-length stepping driven by the speed polynomial;
    /// each step advances by at least one raw fixed-point unit, so the
    /// samples strictly increase whatever the speed does.
    fn resample(&self, u_start: Fx, u_stop: Fx, ds: Fx) -> (us: Vec<Fx>)
        ensures
            resample_ok(us@, u_start, u_stop),
            us@ == self.s_resample(u_start, u_stop, ds),
    {
        let mut us: Vec<Fx> = Vec::new();
        let mut u = u_start;
        while u.raw < u_stop.raw
            invariant
                us@.len() == 0 ==> u == u_start,
                us@.len() > 0 ==> us@[0] == u_start,
                us@.len() > 0 ==> us@[us@.len() - 1].raw < u.raw,
                forall|k: int| 0 <= k < us@.len() ==> (#[trigger] us@[k]).raw < u_stop.raw,
                forall|k: int|
                    0 <= k < us@.len() - 1 ==> (#[trigger] us@[k]).raw < us@[k + 1].raw,
                s_resample_h(*self, u_start, u_stop, ds) == us@ + s_resample_h(
                    *self,
                    u,
                    u_stop,
                    ds,
                ),
            decreases
                    (if u.raw < u_stop.raw {
                        u_stop.raw - u.raw
                    } else {
                        0int
                    }),
        {
            let ghost us0 = us@;
            let ghost u0 = u;
            us.push(u);
            let sp = self.speed(u);
            let du = ds.div(sp);
            let step: i64 = if du.raw < 1 {
                1
            } else {
                du.raw
            };
            let new_raw: i64 = if u.raw > i64::MAX - step {
                i64::MAX
            } else {
                u.raw + step
            };
            u = Fx { raw: new_raw };
            proof {
                assert(u.raw as int == clip(u0.raw + step));
                assert(s_resample_h(*self, u0, u_stop, ds) == seq![u0] + s_resample_h(
                    *self,
                    u,
                    u_stop,
                    ds,
                ));
                assert(us0 + (seq![u0] + s_resample_h(*self, u, u_stop, ds)) =~= us@
                    + s_resample_h(*self, u, u_stop, ds));
            }
        }
        proof {
            assert(s_resample_h(*self, u, u_stop, ds) =~= Seq::<Fx>::empty());
            assert(us@ + Seq::<Fx>::empty() =~= us@);
        }
        us
    }
}

/// At the parameter ends the Bernstein blend collapses exactly to the
/// first and last coefficients: the curve leaves along the first
/// weighted tangent with the first weight as speed, and arrives along
/// the last.
pub proof fn lemma_blend_at_ends(h: HermiteQuintic)
    ensures
        s_dp_h(h, Fx { raw: 0 }) == h.weighted_tangents[0],
        s_dp_h(h, Fx { raw: SCALE }) == h.weighted_tangents[4],
        s_speed(h, Fx { raw: 0 }) == h.weights[0],
        s_speed(h, Fx { raw: SCALE }) == h.weights[4],
{
    let zero = Fx { raw: 0 };
    let one = Fx { raw: SCALE };
    lemma_mul_one(one);
    lemma_mul_zero(one);
    lemma_mul_zero(zero);
    lemma_mul_zero(c_int(4));
    lemma_mul_zero(c_int(6));
    assert(s_sub(c_int(1), zero) == one);
    assert(s_sub(c_int(1), one) == zero);
    assert(s_bw0(zero) == one);
    assert(s_bw1(zero) == zero && s_bw2(zero) == zero && s_bw3(zero) == zero && s_bw4(zero)
        == zero);
    assert(s_bw4(one) == one);
    assert(s_bw0(one) == zero && s_bw1(one) == zero && s_bw2(one) == zero && s_bw3(one) == zero);
    let w = h.weighted_tangents;
    let ws = h.weights;
    lemma_mul_one(w[0].x);
    lemma_mul_one(w[0].y);
    lemma_mul_one(w[0].z);
    lemma_mul_one(w[4].x);
    lemma_mul_one(w[4].y);
    lemma_mul_one(w[4].z);
    lemma_mul_one(ws[0]);
    lemma_mul_one(ws[4]);
    lemma_mul_zero(w[0].x);
    lemma_mul_zero(w[0].y);
    lemma_mul_zero(w[0].z);
    lemma_mul_zero(ws[0]);
    lemma_mul_zero(w[1].x);
    lemma_mul_zero(w[1].y);
    lemma_mul_zero(w[1].z);
    lemma_mul_zero(ws[1]);
    lemma_mul_zero(w[2].x);
    lemma_mul_zero(w[2].y);
    lemma_mul_zero(w[2].z);
    lemma_mul_zero(ws[2]);
    lemma_mul_zero(w[3].x);
    lemma_mul_zero(w[3].y);
    lemma_mul_zero(w[3].z);
    lemma_mul_zero(ws[3]);
    lemma_mul_zero(w[4].x);
    lemma_mul_zero(w[4].y);
    lemma_mul_zero(w[4].z);
    lemma_mul_zero(ws[4]);
}

/// The curve starts exactly at its stored start point: the definite
/// integral from 0 to 0 cancels, so `p(0) == pi`, provided adding the
/// antiderivative's value at zero to the start point does not saturate.
pub proof fn lemma_position_at_start(h: HermiteQuintic)
    requires
        abs(h.pi.x.raw + s_ihpoly_v(h.weighted_tangents, Fx { raw: 0 }).x.raw) <= i64::MAX,
        abs(h.pi.y.raw + s_ihpoly_v(h.weighted_tangents, Fx { raw: 0 }).y.raw) <= i64::MAX,
        abs(h.pi.z.raw + s_ihpoly_v(h.weighted_tangents, Fx { raw: 0 }).z.raw) <= i64::MAX,
    ensures
        s_p_h(h, Fx { raw: 0 }) == h.pi,
{
}

} // verus!
