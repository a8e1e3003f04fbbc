//! Curve capability traits: position and derivatives, orthogonal moving
//! frames, and arc-length resampling.
//!
//! Each trait pairs its executable methods with spec methods giving the
//! exact value the implementation must return, so generic code keeps exact
//! contracts.

use vstd::prelude::*;

use crate::fx::{abs, clip, s_add, s_div, s_mul, s_neg, s_sqrt, s_sub, Fx, SCALE};
use crate::hermite::{c_int, lemma_blend_at_ends, lemma_position_at_start, s_energy, s_ihpoly_v, s_p_h, s_resample_h, s_speed, HermiteQuintic};
use crate::linalg::{
    lemma_qlength_squared_nonneg, s_cross, s_dot, s_length, s_length_squared, s_normalize,
    s_qadd, s_qconj, s_qdot, s_qlength_squared, s_qmul, s_qsandwich, s_qscale, s_qxyz, s_vadd,
    s_vdiv, s_vscale, s_vsub, Quat, Vec3,
};
use crate::quartic::{find_real_roots, s_quartic_roots, QuarticCoefs};

verus! {

/// An affine frame: three axis columns and a translation.
#[derive(Clone, Copy, Debug)]
pub struct Affine3 {
    pub x_axis: Vec3,
    pub y_axis: Vec3,
    pub z_axis: Vec3,
    pub translation: Vec3,
}

/// What every arc-length sample sequence promises: samples are emitted from
/// `start` on, strictly increase, and stay below `stop`; the sequence is
/// non-empty exactly when the interval is.
pub open spec fn resample_ok(us: Seq<Fx>, start: Fx, stop: Fx) -> bool {
    &&& (start.raw < stop.raw <==> us.len() > 0)
    &&& (us.len() > 0 ==> us[0] == start)
    &&& (forall|i: int| 0 <= i < us.len() ==> (#[trigger] us[i]).raw < stop.raw)
    &&& (forall|i: int| 0 <= i < us.len() - 1 ==> (#[trigger] us[i]).raw < us[i + 1].raw)
}

pub trait Frame {
    /// The frame this curve must produce at `u`.
    spec fn s_frame(&self, u: Fx) -> Affine3;

    fn frame(&self, u: Fx) -> (r: Affine3)
        ensures
            r == self.s_frame(u),
    ;
}

pub trait Resample {
    /// The exact sample sequence this curve must produce.
    spec fn s_resample(&self, u_start: Fx, u_stop: Fx, ds: Fx) -> Seq<Fx>;

    fn resample(&self, u_start: Fx, u_stop: Fx, ds: Fx) -> (us: Vec<Fx>)
        ensures
            resample_ok(us@, u_start, u_stop),
            us@ == self.s_resample(u_start, u_stop, ds),
    ;
}

pub trait GenericCurve {
    /// The exact position this curve must produce at `u`.
    spec fn s_p(&self, u: Fx) -> Vec3;

    /// The exact first derivative at `u`.
    spec fn s_dp(&self, u: Fx) -> Vec3;

    /// The exact second derivative at `u`.
    spec fn s_d2p(&self, u: Fx) -> Vec3;

    fn p(&self, u: Fx) -> (r: Vec3)
        ensures
            r == self.s_p(u),
    ;

    fn dp(&self, u: Fx) -> (r: Vec3)
        ensures
            r == self.s_dp(u),
    ;

    fn d2p(&self, u: Fx) -> (r: Vec3)
        ensures
            r == self.s_d2p(u),
    ;

    fn tangent(&self, u: Fx) -> (r: Vec3)
        ensures
            r == s_normalize(self.s_dp(u)),
    {
        self.dp(u).normalize()
    }

    fn normal(&self, u: Fx) -> (r: Vec3)
        ensures
            r == s_normalize(s_cross(self.s_dp(u), s_cross(self.s_d2p(u), self.s_dp(u)))),
    {
        let dpdu = self.dp(u);
        let d2pdu2 = self.d2p(u);
        dpdu.cross(d2pdu2.cross(dpdu)).normalize()
    }

    fn binormal(&self, u: Fx) -> (r: Vec3)
        ensures
            r == s_normalize(s_cross(self.s_dp(u), self.s_d2p(u))),
    {
        self.dp(u).cross(self.d2p(u)).normalize()
    }
}

/// Why a Pythagorean-hodograph segment cannot be built.
#[derive(Clone, Copy, Debug, PartialEq, Eq, Structural)]
pub enum CurveError {
    /// A supplied endpoint tangent has zero length.
    DegenerateBoundary,
    /// No quartic root yields positive squared curvature parameters.
    NoValidCurve,
}

/// A helical Pythagorean-hodograph quintic segment: shifted curvature
/// parameters, the two endpoint quaternions, and the endpoint positions.
#[derive(Clone, Copy, Debug)]
pub struct HelicalPHQuinticSplineSegment {
    pub c0: Fx,
    pub c2: Fx,
    pub a0: Quat,
    pub a2: Quat,
    pub pi: Vec3,
    pub pf: Vec3,
}

/// Pairs a segment with its derived quintic for frame evaluation.
#[derive(Clone, Copy, Debug)]
pub struct EulerRodriguesFrame {
    pub data: HelicalPHQuinticSplineSegment,
    pub curve: HermiteQuintic,
}

/// First quaternion of the square-root family of a direction `c`: any
/// solution of `A i A* = c` is `x cos t + y sin t` over this basis.
#[verifier::opaque]
pub open spec fn s_inverse_quat_x(c: Vec3) -> Quat {
    let n = s_normalize(c);
    let lp = s_add(c_int(1), n.x);
    let r = s_sqrt(s_mul(s_mul(Fx { raw: (SCALE / 2) as i64 }, lp), s_length(c)));
    s_qscale(
        Quat { x: c_int(1), y: s_div(n.y, lp), z: s_div(n.z, lp), w: Fx { raw: 0 } },
        r,
    )
}

/// Second quaternion of the same square-root family.
#[verifier::opaque]
pub open spec fn s_inverse_quat_y(c: Vec3) -> Quat {
    let n = s_normalize(c);
    let lp = s_add(c_int(1), n.x);
    let r = s_sqrt(s_mul(s_mul(Fx { raw: (SCALE / 2) as i64 }, lp), s_length(c)));
    s_qscale(
        Quat { x: Fx { raw: 0 }, y: s_div(n.z, lp), z: s_neg(s_div(n.y, lp)), w: c_int(-1) },
        r,
    )
}

/// First cross-term basis vector spanning the quaternion square-root
/// ambiguity plane of the two directions, scaled by `sqrt(|c0| |c1|)`.
#[verifier::opaque]
pub open spec fn s_cross_basis_u(c0: Vec3, c1: Vec3) -> Vec3 {
    let n0 = s_normalize(c0);
    let n1 = s_normalize(c1);
    let l0p = s_add(c_int(1), n0.x);
    let l1p = s_add(c_int(1), n1.x);
    let r = s_sqrt(s_mul(l0p, l1p));
    let sc = s_sqrt(s_mul(s_length(c0), s_length(c1)));
    s_vscale(
        s_vdiv(
            Vec3 {
                x: s_sub(s_mul(l1p, l0p), s_add(s_mul(n0.y, n1.y), s_mul(n0.z, n1.z))),
                y: s_add(s_mul(l1p, n0.y), s_mul(l0p, n1.y)),
                z: s_add(s_mul(l1p, n0.z), s_mul(l0p, n1.z)),
            },
            r,
        ),
        sc,
    )
}

/// Second cross-term basis vector of the same plane.
#[verifier::opaque]
pub open spec fn s_cross_basis_v(c0: Vec3, c1: Vec3) -> Vec3 {
    let n0 = s_normalize(c0);
    let n1 = s_normalize(c1);
    let l0p = s_add(c_int(1), n0.x);
    let l1p = s_add(c_int(1), n1.x);
    let r = s_sqrt(s_mul(l0p, l1p));
    let sc = s_sqrt(s_mul(s_length(c0), s_length(c1)));
    s_vscale(
        s_vdiv(
            Vec3 {
                x: s_sub(s_mul(n1.y, n0.z), s_mul(n0.y, n1.z)),
                y: s_sub(s_mul(l0p, n1.z), s_mul(l1p, n0.z)),
                z: s_sub(s_mul(l1p, n0.y), s_mul(l0p, n1.y)),
            },
            r,
        ),
        sc,
    )
}

/// The Hermite boundary combination `120 (pf - pi) - 15 (di + df)`.
pub open spec fn s_hvec(pi: Vec3, pf: Vec3, di: Vec3, df: Vec3) -> Vec3 {
    s_vsub(s_vscale(s_vsub(pf, pi), c_int(120)), s_vscale(s_vadd(di, df), c_int(15)))
}

/// The quartic in the half-angle tangent whose real roots give the
/// algebraically valid segment candidates.
#[verifier::opaque]
pub open spec fn s_ph_coeffs(pi: Vec3, pf: Vec3, di: Vec3, df: Vec3) -> QuarticCoefs {
    let ub = s_cross_basis_u(di, df);
    let vb = s_cross_basis_v(di, df);
    let h = s_hvec(pi, pf, di, df);
    let hdf_u = s_dot(s_cross(h, df), ub);
    let hdf_v = s_dot(s_cross(h, df), vb);
    let dih_u = s_dot(s_cross(di, h), ub);
    let dih_v = s_dot(s_cross(di, h), vb);
    let didf_v = s_dot(s_cross(di, df), vb);
    let hm5u = s_dot(s_cross(di, df), s_vsub(h, s_vscale(ub, c_int(5))));
    let hp5u = s_dot(s_cross(di, df), s_vadd(h, s_vscale(ub, c_int(5))));
    QuarticCoefs {
        d4: s_sub(s_mul(hdf_u, dih_u), s_mul(hm5u, hm5u)),
        d3: s_sub(
            s_sub(s_mul(s_mul(c_int(-2), hdf_u), dih_v), s_mul(s_mul(c_int(2), dih_u), hdf_v)),
            s_mul(s_mul(c_int(20), didf_v), hm5u),
        ),
        d2: s_sub(
            s_sub(
                s_add(
                    s_mul(s_mul(c_int(-2), hdf_u), dih_u),
                    s_mul(s_mul(c_int(4), hdf_v), dih_v),
                ),
                s_mul(c_int(100), s_mul(didf_v, didf_v)),
            ),
            s_mul(s_mul(c_int(2), hm5u), hp5u),
        ),
        d1: s_add(
            s_add(s_mul(s_mul(c_int(2), hdf_v), dih_u), s_mul(s_mul(c_int(2), dih_v), hdf_u)),
            s_mul(s_mul(c_int(-20), didf_v), hp5u),
        ),
        d0: s_sub(s_mul(hdf_u, dih_u), s_mul(hp5u, hp5u)),
    }
}

/// `cos` of the angle `2 atan t`, i.e. `(1 - t^2) / (1 + t^2)`.
pub open spec fn s_cos2atan(t: Fx) -> Fx {
    let t2 = s_mul(t, t);
    s_div(s_sub(c_int(1), t2), s_add(c_int(1), t2))
}

/// `sin` of the angle `2 atan t`, i.e. `2 t / (1 + t^2)`.
pub open spec fn s_sin2atan(t: Fx) -> Fx {
    let t2 = s_mul(t, t);
    s_div(s_mul(c_int(2), t), s_add(c_int(1), t2))
}

/// The ambiguity-plane direction selected by the root `t`.
pub open spec fn s_n_of(di: Vec3, df: Vec3, t: Fx) -> Vec3 {
    s_vadd(
        s_vscale(s_cross_basis_u(di, df), s_cos2atan(t)),
        s_vscale(s_cross_basis_v(di, df), s_sin2atan(t)),
    )
}

/// Squared start-curvature parameter of the candidate at root `t`.
#[verifier::opaque]
pub open spec fn s_k0sq(pi: Vec3, pf: Vec3, di: Vec3, df: Vec3, t: Fx) -> Fx {
    let h = s_hvec(pi, pf, di, df);
    let n = s_n_of(di, df, t);
    s_div(
        s_mul(Fx { raw: (SCALE / 16) as i64 }, s_dot(s_cross(h, df), n)),
        s_dot(s_cross(di, df), n),
    )
}

/// Squared end-curvature parameter of the candidate at root `t`.
#[verifier::opaque]
pub open spec fn s_k2sq(pi: Vec3, pf: Vec3, di: Vec3, df: Vec3, t: Fx) -> Fx {
    let h = s_hvec(pi, pf, di, df);
    let n = s_n_of(di, df, t);
    s_div(
        s_mul(Fx { raw: (SCALE / 16) as i64 }, s_dot(s_cross(di, h), n)),
        s_dot(s_cross(di, df), n),
    )
}

/// A root survives only with both squared curvature parameters positive.
pub open spec fn s_candidate_ok(pi: Vec3, pf: Vec3, di: Vec3, df: Vec3, t: Fx) -> bool {
    s_k0sq(pi, pf, di, df, t).raw > 0 && s_k2sq(pi, pf, di, df, t).raw > 0
}

/// The segment arises from some surviving root of the boundary data's
/// quartic, under one of the two curvature sign branches.
pub open spec fn s_is_candidate(
    pi: Vec3,
    pf: Vec3,
    di: Vec3,
    df: Vec3,
    seg: HelicalPHQuinticSplineSegment,
) -> bool {
    exists|t: Fx, n0: bool, n2: bool|
        s_candidate_ok(pi, pf, di, df, t) && seg == #[trigger] s_candidate(
            pi,
            pf,
            di,
            df,
            t,
            n0,
            n2,
        )
}

/// Which sign branch a surviving root takes: positive keeps the
/// curvature signs together, negative splits them.
#[verifier::opaque]
pub open spec fn s_branch_pos(pi: Vec3, pf: Vec3, di: Vec3, df: Vec3, t: Fx) -> bool {
    let h = s_hvec(pi, pf, di, df);
    let n = s_n_of(di, df, t);
    s_add(s_div(s_dot(s_cross(di, df), h), s_dot(s_cross(di, df), n)), c_int(5)).raw > 0
}

/// Cosine of the fixed phase constant 0.57 used to seed the quaternion
/// phases.
pub open spec fn s_cphi0() -> Fx {
    Fx { raw: 882797 }
}

/// Sine of the same fixed phase constant.
pub open spec fn s_sphi0() -> Fx {
    Fx { raw: 565845 }
}

/// The candidate segment derived from root `t` with the given sign
/// choices for the two curvature parameters.  The end phase is the seed
/// phase plus `2 atan t`, expanded by the angle-addition identity so that
/// only the rational half-angle forms of `t` appear.
#[verifier::opaque]
pub open spec fn s_candidate(
    pi: Vec3,
    pf: Vec3,
    di: Vec3,
    df: Vec3,
    t: Fx,
    neg0: bool,
    neg2: bool,
) -> HelicalPHQuinticSplineSegment {
    let k0 = s_sqrt(s_k0sq(pi, pf, di, df, t));
    let k2 = s_sqrt(s_k2sq(pi, pf, di, df, t));
    let k0s = if neg0 {
        s_neg(k0)
    } else {
        k0
    };
    let k2s = if neg2 {
        s_neg(k2)
    } else {
        k2
    };
    let cphi = s_cos2atan(t);
    let sphi = s_sin2atan(t);
    let cphi2 = s_sub(s_mul(s_cphi0(), cphi), s_mul(s_sphi0(), sphi));
    let sphi2 = s_add(s_mul(s_sphi0(), cphi), s_mul(s_cphi0(), sphi));
    HelicalPHQuinticSplineSegment {
        c0: s_sub(k0s, Fx { raw: (3 * SCALE / 4) as i64 }),
        c2: s_sub(k2s, Fx { raw: (3 * SCALE / 4) as i64 }),
        a0: s_qadd(
            s_qscale(s_inverse_quat_x(di), s_cphi0()),
            s_qscale(s_inverse_quat_y(di), s_sphi0()),
        ),
        a2: s_qadd(
            s_qscale(s_inverse_quat_x(df), cphi2),
            s_qscale(s_inverse_quat_y(df), sphi2),
        ),
        pi: pi,
        pf: pf,
    }
}

/// The candidates generated from the first `k` roots, in deterministic
/// order: roots outer, the two curvature sign branches inner.
pub open spec fn s_candidates_upto(
    pi: Vec3,
    pf: Vec3,
    di: Vec3,
    df: Vec3,
    roots: Seq<Fx>,
    k: nat,
) -> Seq<HelicalPHQuinticSplineSegment>
    decreases k,
{
    if k == 0 {
        Seq::empty()
    } else {
        let prev = s_candidates_upto(pi, pf, di, df, roots, (k - 1) as nat);
        let t = roots[k - 1];
        if s_candidate_ok(pi, pf, di, df, t) {
            if s_branch_pos(pi, pf, di, df, t) {
                prev.push(s_candidate(pi, pf, di, df, t, false, false)).push(
                    s_candidate(pi, pf, di, df, t, true, true),
                )
            } else {
                prev.push(s_candidate(pi, pf, di, df, t, true, false)).push(
                    s_candidate(pi, pf, di, df, t, false, true),
                )
            }
        } else {
            prev
        }
    }
}

/// The full candidate list of the boundary data: every surviving root of
/// its quartic, each contributing its two sign branches.
pub open spec fn s_candidates(pi: Vec3, pf: Vec3, di: Vec3, df: Vec3) -> Seq<
    HelicalPHQuinticSplineSegment,
> {
    let roots = s_quartic_roots(s_ph_coeffs(pi, pf, di, df));
    s_candidates_upto(pi, pf, di, df, roots, roots.len())
}

/// The quintic view derived from a segment: Bernstein weights from the
/// quaternion norms and cross terms, weighted tangents from conjugating
/// the first basis quaternion.  Each speed weight is its tangent weight's
/// formula with the symmetrized quaternion products replaced by the
/// corresponding dot products, so the speed polynomial is the Bernstein
/// expansion of the blended quaternion's squared length - the
/// Pythagorean-hodograph property that speed is the hodograph magnitude.
#[verifier::opaque]
pub open spec fn s_curve_of(seg: HelicalPHQuinticSplineSegment) -> HermiteQuintic {
    let half = Fx { raw: (SCALE / 2) as i64 };
    let sixth = s_div(c_int(1), c_int(6));
    let a0len2 = s_qlength_squared(seg.a0);
    let a2len2 = s_qlength_squared(seg.a2);
    let a0a2 = s_mul(c_int(2), s_qdot(seg.a0, seg.a2));
    let qi = Quat { x: c_int(1), y: Fx { raw: 0 }, z: Fx { raw: 0 }, w: Fx { raw: 0 } };
    let a0ia0 = s_qxyz(s_qsandwich(seg.a0, qi));
    let a2ia2 = s_qxyz(s_qsandwich(seg.a2, qi));
    let a0ia2 = s_qxyz(
        s_qadd(
            s_qmul(s_qmul(seg.a0, qi), s_qconj(seg.a2)),
            s_qmul(s_qmul(seg.a2, qi), s_qconj(seg.a0)),
        ),
    );
    let c0sq4 = s_mul(s_mul(c_int(4), seg.c0), seg.c0);
    let c2sq4 = s_mul(s_mul(c_int(4), seg.c2), seg.c2);
    let midw = s_add(c_int(1), s_mul(s_mul(c_int(4), seg.c0), seg.c2));
    HermiteQuintic {
        pi: seg.pi,
        weights: [
            a0len2,
            s_add(s_mul(seg.c0, a0len2), s_mul(s_mul(half, seg.c2), a0a2)),
            s_mul(
                sixth,
                s_add(
                    s_add(s_mul(c0sq4, a0len2), s_mul(midw, a0a2)),
                    s_mul(c2sq4, a2len2),
                ),
            ),
            s_add(s_mul(s_mul(half, seg.c0), a0a2), s_mul(seg.c2, a2len2)),
            a2len2,
        ],
        weighted_tangents: [
            a0ia0,
            s_vadd(s_vscale(a0ia0, seg.c0), s_vscale(a0ia2, s_mul(half, seg.c2))),
            s_vscale(
                s_vadd(
                    s_vadd(s_vscale(a0ia0, c0sq4), s_vscale(a0ia2, midw)),
                    s_vscale(a2ia2, c2sq4),
                ),
                sixth,
            ),
            s_vadd(s_vscale(a0ia2, s_mul(half, seg.c0)), s_vscale(a2ia2, seg.c2)),
            a2ia2,
        ],
    }
}

/// The bending energy of a candidate, through its derived quintic.
pub open spec fn s_seg_energy(seg: HelicalPHQuinticSplineSegment) -> Fx {
    s_energy(s_curve_of(seg))
}

/// `seg` is the earliest minimum-bending-energy element of the candidate
/// list: no candidate has lower energy, and every earlier one has
/// strictly higher energy.
pub open spec fn s_min_energy_pick(
    cands: Seq<HelicalPHQuinticSplineSegment>,
    seg: HelicalPHQuinticSplineSegment,
) -> bool {
    exists|k: int|
        0 <= k < cands.len() && seg == #[trigger] cands[k] && (forall|j: int|
            0 <= j < cands.len() ==> s_seg_energy(seg).raw <= s_seg_energy(
                #[trigger] cands[j],
            ).raw) && (forall|j: int|
            0 <= j < k ==> s_seg_energy(#[trigger] cands[j]).raw > s_seg_energy(seg).raw)
}


/// A constructed segment's derived curve starts exactly at the stored
/// start position, provided adding the antiderivative's value at zero to
/// it does not saturate.
pub proof fn lemma_segment_position_at_start(seg: HelicalPHQuinticSplineSegment)
    requires
        abs(seg.pi.x.raw + s_ihpoly_v(s_curve_of(seg).weighted_tangents, Fx { raw: 0 }).x.raw)
            <= i64::MAX,
        abs(seg.pi.y.raw + s_ihpoly_v(s_curve_of(seg).weighted_tangents, Fx { raw: 0 }).y.raw)
            <= i64::MAX,
        abs(seg.pi.z.raw + s_ihpoly_v(s_curve_of(seg).weighted_tangents, Fx { raw: 0 }).z.raw)
            <= i64::MAX,
    ensures
        s_p_h(s_curve_of(seg), Fx { raw: 0 }) == seg.pi,
{
    assert(s_curve_of(seg).pi == seg.pi) by {
        reveal(s_curve_of);
    }
    lemma_position_at_start(s_curve_of(seg));
}


/// At the parameter ends, any segment's derived speed is nonnegative:
/// there it is exactly the squared length of an endpoint quaternion.
/// (On the interior, positivity is a numeric property of the accepted
/// boundary data, checked by tests.)
pub proof fn lemma_end_speeds_nonneg(seg: HelicalPHQuinticSplineSegment)
    ensures
        s_speed(s_curve_of(seg), Fx { raw: 0 }).raw >= 0,
        s_speed(s_curve_of(seg), Fx { raw: SCALE }).raw >= 0,
{
    lemma_blend_at_ends(s_curve_of(seg));
    assert(s_curve_of(seg).weights[0] == s_qlength_squared(seg.a0) && s_curve_of(
        seg,
    ).weights[4] == s_qlength_squared(seg.a2)) by {
        reveal(s_curve_of);
    }
    lemma_qlength_squared_nonneg(seg.a0);
    lemma_qlength_squared_nonneg(seg.a2);
}

/// Generates the basis for the one-parameter family of solutions to
/// `A i A* = c`.
fn inverse_solve_quat(c: Vec3) -> (r: (Quat, Quat))
    ensures
        r.0 == s_inverse_quat_x(c),
        r.1 == s_inverse_quat_y(c),
{
    proof {
        reveal(s_inverse_quat_x);
        reveal(s_inverse_quat_y);
    }
    let half = Fx { raw: SCALE / 2 };
    let one = Fx::from_int(1);
    let n = c.normalize();
    let lp = one.add(n.x);
    let r = half.mul(lp).mul(c.length()).sqrt();
    (
        Quat { x: one, y: n.y.div(lp), z: n.z.div(lp), w: Fx { raw: 0 } }.scale(r),
        Quat { x: Fx { raw: 0 }, y: n.z.div(lp), z: n.y.div(lp).neg(), w: Fx::from_int(-1) }
            .scale(r),
    )
}

/// The two cross-term basis vectors of the ambiguity plane between the
/// two tangent directions.
fn quat_cross_term_basis(c0: Vec3, c1: Vec3) -> (r: (Vec3, Vec3))
    ensures
        r.0 == s_cross_basis_u(c0, c1),
        r.1 == s_cross_basis_v(c0, c1),
{
    proof {
        reveal(s_cross_basis_u);
        reveal(s_cross_basis_v);
    }
    let one = Fx::from_int(1);
    let n0 = c0.normalize();
    let n1 = c1.normalize();
    let l0p = one.add(n0.x);
    let l1p = one.add(n1.x);
    let r = l0p.mul(l1p).sqrt();
    let sc = c0.length().mul(c1.length()).sqrt();
    (
        Vec3 {
            x: l1p.mul(l0p).sub(n0.y.mul(n1.y).add(n0.z.mul(n1.z))),
            y: l1p.mul(n0.y).add(l0p.mul(n1.y)),
            z: l1p.mul(n0.z).add(l0p.mul(n1.z)),
        }.div(r).scale(sc),
        Vec3 {
            x: n1.y.mul(n0.z).sub(n0.y.mul(n1.z)),
            y: l0p.mul(n1.z).sub(l1p.mul(n0.z)),
            z: l1p.mul(n0.y).sub(l0p.mul(n1.y)),
        }.div(r).scale(sc),
    )
}

fn ph_coeffs(pi: Vec3, pf: Vec3, di: Vec3, df: Vec3) -> (r: QuarticCoefs)
    ensures
        r == s_ph_coeffs(pi, pf, di, df),
{
    proof {
        reveal(s_ph_coeffs);
    }
    let (ub, vb) = quat_cross_term_basis(di, df);
    let h = pf.sub(pi).scale(Fx::from_int(120)).sub(di.add(df).scale(Fx::from_int(15)));
    let hdf_u = h.cross(df).dot(ub);
    let hdf_v = h.cross(df).dot(vb);
    let dih_u = di.cross(h).dot(ub);
    let dih_v = di.cross(h).dot(vb);
    let didf_v = di.cross(df).dot(vb);
    let hm5u = di.cross(df).dot(h.sub(ub.scale(Fx::from_int(5))));
    let hp5u = di.cross(df).dot(h.add(ub.scale(Fx::from_int(5))));
    QuarticCoefs {
        d4: hdf_u.mul(dih_u).sub(hm5u.mul(hm5u)),
        d3: Fx::from_int(-2).mul(hdf_u).mul(dih_v).sub(Fx::from_int(2).mul(dih_u).mul(hdf_v)).sub(
            Fx::from_int(20).mul(didf_v).mul(hm5u),
        ),
        d2: Fx::from_int(-2).mul(hdf_u).mul(dih_u).add(Fx::from_int(4).mul(hdf_v).mul(dih_v)).sub(
            Fx::from_int(100).mul(didf_v.mul(didf_v)),
        ).sub(Fx::from_int(2).mul(hm5u).mul(hp5u)),
        d1: Fx::from_int(2).mul(hdf_v).mul(dih_u).add(Fx::from_int(2).mul(dih_v).mul(hdf_u)).add(
            Fx::from_int(-20).mul(didf_v).mul(hp5u),
        ),
        d0: hdf_u.mul(dih_u).sub(hp5u.mul(hp5u)),
    }
}

/// Builds the candidate for root `t` under the given curvature sign
/// choices.
fn build_candidate(
    pi: Vec3,
    pf: Vec3,
    di: Vec3,
    df: Vec3,
    t: Fx,
    neg0: bool,
    neg2: bool,
) -> (seg: HelicalPHQuinticSplineSegment)
    ensures
        seg == s_candidate(pi, pf, di, df, t, neg0, neg2),
        seg.pi == pi,
        seg.pf == pf,
{
    proof {
        reveal(s_candidate);
        reveal(s_k0sq);
        reveal(s_k2sq);
    }
    let one = Fx::from_int(1);
    let two = Fx::from_int(2);
    let sixteenth = Fx { raw: SCALE / 16 };
    let three_quarters = Fx { raw: 3 * SCALE / 4 };
    let cphi0 = Fx { raw: 882797 };
    let sphi0 = Fx { raw: 565845 };
    let (ub, vb) = quat_cross_term_basis(di, df);
    let h = pf.sub(pi).scale(Fx::from_int(120)).sub(di.add(df).scale(Fx::from_int(15)));
    let t2 = t.mul(t);
    let cphi = one.sub(t2).div(one.add(t2));
    let sphi = two.mul(t).div(one.add(t2));
    let n = ub.scale(cphi).add(vb.scale(sphi));
    let k0 = sixteenth.mul(h.cross(df).dot(n)).div(di.cross(df).dot(n)).sqrt();
    let k2 = sixteenth.mul(di.cross(h).dot(n)).div(di.cross(df).dot(n)).sqrt();
    let k0s = if neg0 {
        k0.neg()
    } else {
        k0
    };
    let k2s = if neg2 {
        k2.neg()
    } else {
        k2
    };
    let cphi2 = cphi0.mul(cphi).sub(sphi0.mul(sphi));
    let sphi2 = sphi0.mul(cphi).add(cphi0.mul(sphi));
    let (x0, y0) = inverse_solve_quat(di);
    let (x2, y2) = inverse_solve_quat(df);
    HelicalPHQuinticSplineSegment {
        c0: k0s.sub(three_quarters),
        c2: k2s.sub(three_quarters),
        a0: x0.scale(cphi0).add(y0.scale(sphi0)),
        a2: x2.scale(cphi2).add(y2.scale(sphi2)),
        pi,
        pf,
    }
}

/// All candidate segments for the boundary data, in deterministic order:
/// quartic roots ascending, the two curvature sign branches of each
/// surviving root adjacent.
pub fn candidates(pi: Vec3, pf: Vec3, di: Vec3, df: Vec3) -> (cands: Vec<
    HelicalPHQuinticSplineSegment,
>)
    ensures
        forall|j: int|
            0 <= j < cands@.len() ==> ((#[trigger] cands@[j]).pi == pi && cands@[j].pf == pf),
        forall|j: int|
            0 <= j < cands@.len() ==> s_is_candidate(pi, pf, di, df, #[trigger] cands@[j]),
        cands@ == s_candidates(pi, pf, di, df),
{
    let one = Fx::from_int(1);
    let two = Fx::from_int(2);
    let five = Fx::from_int(5);
    let sixteenth = Fx { raw: SCALE / 16 };
    let (ub, vb) = quat_cross_term_basis(di, df);
    let h = pf.sub(pi).scale(Fx::from_int(120)).sub(di.add(df).scale(Fx::from_int(15)));
    let qc = ph_coeffs(pi, pf, di, df);
    let roots = find_real_roots(&qc);
    let mut cands: Vec<HelicalPHQuinticSplineSegment> = Vec::new();
    let mut idx: usize = 0;
    while idx < roots.len()
        invariant
            forall|j: int|
                0 <= j < cands@.len() ==> ((#[trigger] cands@[j]).pi == pi && cands@[j].pf
                    == pf),
            forall|j: int|
                0 <= j < cands@.len() ==> s_is_candidate(pi, pf, di, df, #[trigger] cands@[j]),
            one == c_int(1),
            two == c_int(2),
            five == c_int(5),
            sixteenth == (Fx { raw: (SCALE / 16) as i64 }),
            ub == s_cross_basis_u(di, df),
            vb == s_cross_basis_v(di, df),
            h == s_hvec(pi, pf, di, df),
            idx <= roots@.len(),
            roots@ == s_quartic_roots(s_ph_coeffs(pi, pf, di, df)),
            cands@ == s_candidates_upto(pi, pf, di, df, roots@, idx as nat),
        decreases roots@.len() - idx,
    {
        let t = roots[idx];
        let t2 = t.mul(t);
        let cphi = one.sub(t2).div(one.add(t2));
        let sphi = two.mul(t).div(one.add(t2));
        let n = ub.scale(cphi).add(vb.scale(sphi));
        let k0sq = sixteenth.mul(h.cross(df).dot(n)).div(di.cross(df).dot(n));
        let k2sq = sixteenth.mul(di.cross(h).dot(n)).div(di.cross(df).dot(n));
        proof {
            reveal(s_k0sq);
            reveal(s_k2sq);
            assert(n == s_n_of(di, df, t));
            assert(k0sq == s_k0sq(pi, pf, di, df, t));
            assert(k2sq == s_k2sq(pi, pf, di, df, t));
            assert(s_candidates_upto(pi, pf, di, df, roots@, (idx + 1) as nat) == {
                let prev = s_candidates_upto(pi, pf, di, df, roots@, idx as nat);
                if s_candidate_ok(pi, pf, di, df, t) {
                    if s_branch_pos(pi, pf, di, df, t) {
                        prev.push(s_candidate(pi, pf, di, df, t, false, false)).push(
                            s_candidate(pi, pf, di, df, t, true, true),
                        )
                    } else {
                        prev.push(s_candidate(pi, pf, di, df, t, true, false)).push(
                            s_candidate(pi, pf, di, df, t, false, true),
                        )
                    }
                } else {
                    prev
                }
            });
        }
        if k0sq.raw > 0 && k2sq.raw > 0 {
            let x = di.cross(df).dot(h).div(di.cross(df).dot(n)).add(five);
            proof {
                reveal(s_branch_pos);
                assert((x.raw > 0) == s_branch_pos(pi, pf, di, df, t));
            }
            if x.raw > 0 {
                let sa = build_candidate(pi, pf, di, df, t, false, false);
                let sb = build_candidate(pi, pf, di, df, t, true, true);
                cands.push(sa);
                cands.push(sb);
                proof {
                    assert(s_candidate_ok(pi, pf, di, df, t) && sa == s_candidate(
                        pi,
                        pf,
                        di,
                        df,
                        t,
                        false,
                        false,
                    ));
                    assert(s_candidate_ok(pi, pf, di, df, t) && sb == s_candidate(
                        pi,
                        pf,
                        di,
                        df,
                        t,
                        true,
                        true,
                    ));
                    assert(s_is_candidate(pi, pf, di, df, sa));
                    assert(s_is_candidate(pi, pf, di, df, sb));
                }
            } else {
                let sa = build_candidate(pi, pf, di, df, t, true, false);
                let sb = build_candidate(pi, pf, di, df, t, false, true);
                cands.push(sa);
                cands.push(sb);
                proof {
                    assert(s_candidate_ok(pi, pf, di, df, t) && sa == s_candidate(
                        pi,
                        pf,
                        di,
                        df,
                        t,
                        true,
                        false,
                    ));
                    assert(s_candidate_ok(pi, pf, di, df, t) && sb == s_candidate(
                        pi,
                        pf,
                        di,
                        df,
                        t,
                        false,
                        true,
                    ));
                    assert(s_is_candidate(pi, pf, di, df, sa));
                    assert(s_is_candidate(pi, pf, di, df, sb));
                }
            }
        }
        idx = idx + 1;
    }
    cands
}

/// Picks the candidate of minimal bending energy; the earliest one wins
/// ties, making the selection deterministic in generation order.
pub fn select_min_energy(cands: &Vec<HelicalPHQuinticSplineSegment>) -> (k: usize)
    requires
        cands@.len() > 0,
    ensures
        k < cands@.len(),
        forall|j: int|
            0 <= j < cands@.len() ==> s_seg_energy(cands@[k as int]).raw <= s_seg_energy(
                #[trigger] cands@[j],
            ).raw,
        forall|j: int|
            0 <= j < k ==> s_seg_energy(#[trigger] cands@[j]).raw > s_seg_energy(cands@[k as int]).raw,
{
    let mut best: usize = 0;
    let mut best_e = cands[0].curve().elastic_bending_energy();
    let mut i: usize = 1;
    while i < cands.len()
        invariant
            cands@.len() > 0,
            best < i <= cands@.len(),
            best_e == s_seg_energy(cands@[best as int]),
            forall|j: int|
                0 <= j < i ==> s_seg_energy(cands@[best as int]).raw <= s_seg_energy(
                    #[trigger] cands@[j],
                ).raw,
            forall|j: int|
                0 <= j < best ==> s_seg_energy(#[trigger] cands@[j]).raw > s_seg_energy(
                    cands@[best as int],
                ).raw,
        decreases cands@.len() - i,
    {
        let e = cands[i].curve().elastic_bending_energy();
        if e.raw < best_e.raw {
            best = i;
            best_e = e;
        }
        i = i + 1;
    }
    best
}

impl HelicalPHQuinticSplineSegment {
    /// Builds the minimum-bending-energy helical segment interpolating
    /// the endpoint positions and tangents.  Zero-length tangents are
    /// rejected as `DegenerateBoundary`; boundary data whose quartic
    /// leaves no candidate with positive squared curvature parameters is
    /// rejected as `NoValidCurve`.  The root scan covers half-angle
    /// tangents in `[-64, 64]` and locates sign-change brackets and exact
    /// zeros on its grid, so boundary data whose only roots lie beyond
    /// that range (end tangent within about two degrees of reversal) or
    /// touch the axis without crossing it is also rejected as
    /// `NoValidCurve`.
    pub fn new(pi: Vec3, pf: Vec3, di: Vec3, df: Vec3) -> (r: Result<
        HelicalPHQuinticSplineSegment,
        CurveError,
    >)
        ensures
            (s_length_squared(di).raw == 0 || s_length_squared(df).raw == 0) <==> r
                == Err::<HelicalPHQuinticSplineSegment, CurveError>(
                CurveError::DegenerateBoundary,
            ),
            s_length_squared(di).raw != 0 && s_length_squared(df).raw != 0 ==> ((r is Ok)
                <==> s_candidates(pi, pf, di, df).len() > 0),
            r is Err ==> r == Err::<HelicalPHQuinticSplineSegment, CurveError>(
                CurveError::DegenerateBoundary,
            ) || r == Err::<HelicalPHQuinticSplineSegment, CurveError>(CurveError::NoValidCurve),
            r matches Ok(seg) ==> seg.pi == pi && seg.pf == pf,
            r matches Ok(seg) ==> s_is_candidate(pi, pf, di, df, seg),
            r matches Ok(seg) ==> s_min_energy_pick(s_candidates(pi, pf, di, df), seg),
    {
        if di.length_squared().raw == 0 || df.length_squared().raw == 0 {
            return Err(CurveError::DegenerateBoundary);
        }
        let cands = candidates(pi, pf, di, df);
        if cands.len() == 0 {
            return Err(CurveError::NoValidCurve);
        }
        let k = select_min_energy(&cands);
        let seg = cands[k];
        proof {
            assert(s_min_energy_pick(s_candidates(pi, pf, di, df), seg)) by {
                assert(0 <= k < cands@.len() && seg == cands@[k as int] && (forall|j: int|
                    0 <= j < cands@.len() ==> s_seg_energy(seg).raw <= s_seg_energy(
                        #[trigger] cands@[j],
                    ).raw) && (forall|j: int|
                    0 <= j < k ==> s_seg_energy(#[trigger] cands@[j]).raw > s_seg_energy(
                        seg,
                    ).raw));
            }
        }
        Ok(seg)
    }

    /// The rotation-frame evaluator over this segment.
    pub fn euler_rodrigues_frame(&self) -> (r: EulerRodriguesFrame)
        ensures
            r.data == *self,
            r.curve == s_curve_of(*self),
    {
        EulerRodriguesFrame { data: *self, curve: self.curve() }
    }

    /// The derived quintic evaluation view of this segment.
    pub fn curve(&self) -> (r: HermiteQuintic)
        ensures
            r == s_curve_of(*self),
            r.pi == self.pi,
    {
        proof {
            reveal(s_curve_of);
        }
        let half = Fx { raw: SCALE / 2 };
        let one = Fx::from_int(1);
        let four = Fx::from_int(4);
        let sixth = one.div(Fx::from_int(6));
        let a0len2 = self.a0.length_squared();
        let a2len2 = self.a2.length_squared();
        let a0a2 = Fx::from_int(2).mul(self.a0.dot(self.a2));
        let qi = Quat { x: one, y: Fx { raw: 0 }, z: Fx { raw: 0 }, w: Fx { raw: 0 } };
        let a0ia0 = self.a0.sandwich(qi).xyz();
        let a2ia2 = self.a2.sandwich(qi).xyz();
        let a0ia2 = self.a0.mul(qi).mul(self.a2.conjugate()).add(
            self.a2.mul(qi).mul(self.a0.conjugate()),
        ).xyz();
        let c0sq4 = four.mul(self.c0).mul(self.c0);
        let c2sq4 = four.mul(self.c2).mul(self.c2);
        let midw = one.add(four.mul(self.c0).mul(self.c2));
        let w0 = a0len2;
        let w1 = self.c0.mul(a0len2).add(half.mul(self.c2).mul(a0a2));
        let w2 = sixth.mul(c0sq4.mul(a0len2).add(midw.mul(a0a2)).add(c2sq4.mul(a2len2)));
        let w3 = half.mul(self.c0).mul(a0a2).add(self.c2.mul(a2len2));
        let w4 = a2len2;
        let wt0 = a0ia0;
        let wt1 = a0ia0.scale(self.c0).add(a0ia2.scale(half.mul(self.c2)));
        let wt2 = a0ia0.scale(c0sq4).add(a0ia2.scale(midw)).add(a2ia2.scale(c2sq4)).scale(sixth);
        let wt3 = a0ia2.scale(half.mul(self.c0)).add(a2ia2.scale(self.c2));
        let wt4 = a2ia2;
        HermiteQuintic {
            pi: self.pi,
            weights: [w0, w1, w2, w3, w4],
            weighted_tangents: [wt0, wt1, wt2, wt3, wt4],
        }
    }
}

/// The quadratic Bernstein blend of the segment's control quaternions at
/// `u`.
pub open spec fn s_er_blend(seg: HelicalPHQuinticSplineSegment, u: Fx) -> Quat {
    let omu = s_sub(c_int(1), u);
    s_qadd(
        s_qadd(
            s_qscale(seg.a0, s_mul(omu, omu)),
            s_qscale(
                s_qscale(s_qadd(s_qscale(seg.a0, seg.c0), s_qscale(seg.a2, seg.c2)), u),
                omu,
            ),
        ),
        s_qscale(seg.a2, s_mul(u, u)),
    )
}

/// One frame axis: the basis quaternion `q` conjugated by the blend and
/// divided by the blend's squared length.
pub open spec fn s_er_axis(seg: HelicalPHQuinticSplineSegment, u: Fx, q: Quat) -> Vec3 {
    let a = s_er_blend(seg, u);
    s_vdiv(s_qxyz(s_qsandwich(a, q)), s_qlength_squared(a))
}

impl Frame for EulerRodriguesFrame {
    /// The Euler-Rodrigues frame: the three fixed orthogonal basis
    /// quaternions conjugated by the blended quaternion, divided by its
    /// squared length, with the curve position as translation.  No
    /// normalization or orthogonalization step is involved, which is what
    /// keeps the frame from flipping at inflection points.
    open spec fn s_frame(&self, u: Fx) -> Affine3 {
        let qi = Quat { x: c_int(1), y: Fx { raw: 0 }, z: Fx { raw: 0 }, w: Fx { raw: 0 } };
        let qj = Quat { x: Fx { raw: 0 }, y: c_int(1), z: Fx { raw: 0 }, w: Fx { raw: 0 } };
        let qk = Quat { x: Fx { raw: 0 }, y: Fx { raw: 0 }, z: c_int(1), w: Fx { raw: 0 } };
        Affine3 {
            x_axis: s_er_axis(self.data, u, qi),
            y_axis: s_er_axis(self.data, u, qj),
            z_axis: s_er_axis(self.data, u, qk),
            translation: s_p_h(self.curve, u),
        }
    }

    fn frame(&self, u: Fx) -> (r: Affine3)
        ensures
            r == self.s_frame(u),
    {
        let one = Fx::from_int(1);
        let zero = Fx { raw: 0 };
        let omu = one.sub(u);
        let a = self.data.a0.scale(omu.mul(omu)).add(
            self.data.a0.scale(self.data.c0).add(self.data.a2.scale(self.data.c2)).scale(u)
                .scale(omu),
        ).add(self.data.a2.scale(u.mul(u)));
        let qi = Quat { x: one, y: zero, z: zero, w: zero };
        let qj = Quat { x: zero, y: one, z: zero, w: zero };
        let qk = Quat { x: zero, y: zero, z: one, w: zero };
        let len2 = a.length_squared();
        Affine3 {
            x_axis: a.sandwich(qi).xyz().div(len2),
            y_axis: a.sandwich(qj).xyz().div(len2),
            z_axis: a.sandwich(qk).xyz().div(len2),
            translation: self.curve.p(u),
        }
    }
}

impl Resample for EulerRodriguesFrame {
    /// The embedded quintic's sample sequence, exactly.
    open spec fn s_resample(&self, u_start: Fx, u_stop: Fx, ds: Fx) -> Seq<Fx> {
        s_resample_h(self.curve, u_start, u_stop, ds)
    }

    /// Delegates entirely to the underlying quintic's speed.
    fn resample(&self, u_start: Fx, u_stop: Fx, ds: Fx) -> (us: Vec<Fx>)
        ensures
            resample_ok(us@, u_start, u_stop),
            us@ == self.s_resample(u_start, u_stop, ds),
    {
        self.curve.resample(u_start, u_stop, ds)
    }
}

impl<T: GenericCurve> Frame for T {
    /// The Frenet-style frame of a generic curve: binormal, normal and
    /// tangent columns over the position.
    open spec fn s_frame(&self, u: Fx) -> Affine3 {
        Affine3 {
            x_axis: s_normalize(s_cross(self.s_dp(u), self.s_d2p(u))),
            y_axis: s_normalize(s_cross(self.s_dp(u), s_cross(self.s_d2p(u), self.s_dp(u)))),
            z_axis: s_normalize(self.s_dp(u)),
            translation: self.s_p(u),
        }
    }

    fn frame(&self, u: Fx) -> (r: Affine3)
        ensures
            r == self.s_frame(u),
    {
        Affine3 {
            x_axis: self.binormal(u),
            y_axis: self.normal(u),
            z_axis: self.tangent(u),
            translation: self.p(u),
        }
    }
}

/// The arc-length sample sequence of a generic curve from `u` on:
/// forward-Euler steps of `ds` times the reciprocal of the derivative's
/// length, one raw unit at least and saturating at the integer range,
/// until `stop` is reached.
pub open spec fn s_resample_curve<T: GenericCurve>(curve: &T, u: Fx, stop: Fx, ds: Fx) -> Seq<
    Fx,
>
    decreases
            (if u.raw < stop.raw {
                stop.raw - u.raw
            } else {
                0int
            }),
{
    if u.raw >= stop.raw {
        Seq::empty()
    } else {
        let du = s_mul(ds, s_div(c_int(1), s_length(curve.s_dp(u))));
        let step: int = if du.raw < 1 {
            1
        } else {
            du.raw as int
        };
        seq![u] + s_resample_curve(curve, Fx { raw: clip(u.raw + step) as i64 }, stop, ds)
    }
}

impl<T: GenericCurve> Resample for T {
    open spec fn s_resample(&self, u_start: Fx, u_stop: Fx, ds: Fx) -> Seq<Fx> {
        s_resample_curve(self, u_start, u_stop, ds)
    }

    /// Forward-Euler arc-length stepping with the first-derivative length
    /// as the speed; each step advances by at least one raw fixed-point
    /// unit, so the samples strictly increase whatever the derivative is.
    fn resample(&self, u_start: Fx, u_stop: Fx, ds: Fx) -> (us: Vec<Fx>)
        ensures
            resample_ok(us@, u_start, u_stop),
            us@ == self.s_resample(u_start, u_stop, ds),
    {
        let mut us: Vec<Fx> = Vec::new();
        let mut u = u_start;
        while u.raw < u_stop.raw
            invariant
                us@.len() == 0 ==> u == u_start,
                us@.len() > 0 ==> us@[0] == u_start,
                us@.len() > 0 ==> us@[us@.len() - 1].raw < u.raw,
                forall|k: int| 0 <= k < us@.len() ==> (#[trigger] us@[k]).raw < u_stop.raw,
                forall|k: int|
                    0 <= k < us@.len() - 1 ==> (#[trigger] us@[k]).raw < us@[k + 1].raw,
                s_resample_curve(self, u_start, u_stop, ds) == us@ + s_resample_curve(
                    self,
                    u,
                    u_stop,
                    ds,
                ),
            decreases
                    (if u.raw < u_stop.raw {
                        u_stop.raw - u.raw
                    } else {
                        0int
                    }),
        {
            let ghost us0 = us@;
            let ghost u0 = u;
            us.push(u);
            let dpdu = self.dp(u);
            let du = ds.mul(Fx::from_int(1).div(dpdu.length()));
            let step: i64 = if du.raw < 1 {
                1
            } else {
                du.raw
            };
            let new_raw: i64 = if u.raw > i64::MAX - step {
                i64::MAX
            } else {
                u.raw + step
            };
            u = Fx { raw: new_raw };
            proof {
                assert(u.raw as int == clip(u0.raw + step));
                assert(s_resample_curve(self, u0, u_stop, ds) == seq![u0] + s_resample_curve(
                    self,
                    u,
                    u_stop,
                    ds,
                ));
                assert(us0 + (seq![u0] + s_resample_curve(self, u, u_stop, ds)) =~= us@
                    + s_resample_curve(self, u, u_stop, ds));
            }
        }
        proof {
            assert(s_resample_curve(self, u, u_stop, ds) =~= Seq::<Fx>::empty());
            assert(us@ + Seq::<Fx>::empty() =~= us@);
        }
        us
    }
}

} // verus!
