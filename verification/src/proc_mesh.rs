//! Ribbon tessellation data along a framed curve.
//!
//! For every arc-length sample the curve's frame yields two vertices
//! offset to either side of the center-line along the frame's third axis,
//! both sharing the frame's second axis as their normal; texture
//! coordinates alternate in a two-by-two checkerboard, and the index list
//! is the ascending vertex order concatenated with its reverse (without
//! the duplicated final vertex), a closed double-sided triangle strip.

use vstd::prelude::*;

use crate::curve::{Affine3, Frame, GenericCurve, Resample};
use crate::fx::{s_add, s_div, Fx};
use crate::hermite::c_int;
use crate::linalg::{s_length, s_vadd, s_vscale, s_vsub, Vec3};

verus! {

/// The cursor's advance at parameter `u`: the arc-length step divided by
/// the derivative's length, never less than one raw unit.
pub open spec fn s_cursor_step<T: GenericCurve>(curve: &T, u: Fx, ds: Fx) -> Fx {
    let du = s_div(ds, s_length(curve.s_dp(u)));
    if du.raw < 1 {
        Fx { raw: 1 }
    } else {
        du
    }
}

/// A restartable arc-length stepping cursor over a generic curve.
pub struct Resampler<'a, T: GenericCurve> {
    pub curve: &'a T,
    pub u: Fx,
    pub ds: Fx,
    pub limit: Fx,
}

impl<'a, T: GenericCurve> Resampler<'a, T> {
    pub fn new(curve: &'a T, u_start: Fx, u_stop: Fx, ds: Fx) -> (r: Resampler<'a, T>)
        ensures
            r.curve == curve,
            r.u == u_start,
            r.ds == ds,
            r.limit == u_stop,
    {
        Resampler { curve, u: u_start, ds, limit: u_stop }
    }

    /// Emits the current parameter and advances it by exactly the
    /// arc-length step (one raw unit at least, saturating at the integer
    /// range); `None` once the limit is reached, with the state kept.
    pub fn next(&mut self) -> (r: Option<Fx>)
        ensures
            old(self).u.raw >= old(self).limit.raw ==> r is None && final(self).u == old(self).u,
            old(self).u.raw < old(self).limit.raw ==> r == Some(old(self).u) && final(self).u
                == s_add(
                old(self).u,
                s_cursor_step(old(self).curve, old(self).u, old(self).ds),
            ) && final(self).u.raw > old(self).u.raw,
            final(self).curve == old(self).curve,
            final(self).ds == old(self).ds,
            final(self).limit == old(self).limit,
    {
        if self.u.raw >= self.limit.raw {
            None
        } else {
            let prev = self.u;
            let dpdu = self.curve.dp(self.u);
            let du = self.ds.div(dpdu.length());
            let step: i64 = if du.raw < 1 {
                1
            } else {
                du.raw
            };
            let new_raw: i64 = if self.u.raw > i64::MAX - step {
                i64::MAX
            } else {
                self.u.raw + step
            };
            self.u = Fx { raw: new_raw };
            Some(prev)
        }
    }
}

/// The left ribbon vertex of a frame: translation minus half the width
/// along the frame's third axis.
pub open spec fn s_ribbon_left(f: Affine3, w2: Fx) -> Vec3 {
    s_vsub(f.translation, s_vscale(f.z_axis, w2))
}

/// The right ribbon vertex of the same frame.
pub open spec fn s_ribbon_right(f: Affine3, w2: Fx) -> Vec3 {
    s_vadd(f.translation, s_vscale(f.z_axis, w2))
}

/// The vertex and normal lists arise from the given sample sequence: two
/// offset vertices per sample, the frame's second axis as both normals.
pub open spec fn s_ribbon_from<T: Frame>(
    curve: &T,
    us: Seq<Fx>,
    w2: Fx,
    positions: Seq<Vec3>,
    normals: Seq<Vec3>,
) -> bool {
    &&& positions.len() == 2 * us.len()
    &&& normals.len() == positions.len()
    &&& forall|k: int|
        0 <= k < us.len() ==> {
            let f = curve.s_frame(#[trigger] us[k]);
            positions[2 * k] == s_ribbon_left(f, w2) && positions[2 * k + 1] == s_ribbon_right(
                f,
                w2,
            ) && normals[2 * k] == f.y_axis && normals[2 * k + 1] == f.y_axis
        }
}

/// Ribbon tessellation output: vertex positions, per-vertex normals,
/// checkerboard texture coordinates and the double-sided strip indices.
pub struct RibbonData {
    pub positions: Vec<Vec3>,
    pub normals: Vec<Vec3>,
    pub uvs: Vec<(Fx, Fx)>,
    pub indices: Vec<usize>,
}

/// Tessellates the curve into a double-sided ribbon strip of the given
/// width, sampled near-uniformly in arc length.
pub fn ribbon<T: Frame + Resample>(curve: &T, u_start: Fx, u_end: Fx, ds: Fx, width: Fx) -> (r:
    RibbonData)
    ensures
        s_ribbon_from(
            curve,
            curve.s_resample(u_start, u_end, ds),
            s_div(width, c_int(2)),
            r.positions@,
            r.normals@,
        ),
        r.normals@.len() == r.positions@.len(),
        r.uvs@.len() == r.positions@.len(),
        forall|i: int|
            0 <= i < r.uvs@.len() ==> #[trigger] r.uvs@[i] == (
                (if i % 2 == 1 {
                    c_int(1)
                } else {
                    c_int(0)
                }),
                (if (i / 2) % 2 == 1 {
                    c_int(1)
                } else {
                    c_int(0)
                }),
            ),
        r.indices@.len() == (if r.positions@.len() > 0 {
            2 * r.positions@.len() - 1
        } else {
            0
        }),
        forall|i: int|
            0 <= i < r.positions@.len() ==> #[trigger] r.indices@[i] == i,
        forall|i: int|
            r.positions@.len() <= i < r.indices@.len() ==> #[trigger] r.indices@[i] == 2
                * r.positions@.len() - 2 - i,
{
    let w2 = width.div(Fx::from_int(2));
    let us = curve.resample(u_start, u_end, ds);
    let mut positions: Vec<Vec3> = Vec::new();
    let mut normals: Vec<Vec3> = Vec::new();
    let mut k: usize = 0;
    while k < us.len()
        invariant
            w2 == s_div(width, c_int(2)),
            k <= us@.len(),
            positions@.len() == 2 * k,
            normals@.len() == 2 * k,
            forall|j: int|
                0 <= j < k ==> {
                    let f = curve.s_frame(#[trigger] us@[j]);
                    positions@[2 * j] == s_ribbon_left(f, w2) && positions@[2 * j + 1]
                        == s_ribbon_right(f, w2) && normals@[2 * j] == f.y_axis && normals@[2 * j
                        + 1] == f.y_axis
                },
        decreases us@.len() - k,
    {
        let f = curve.frame(us[k]);
        positions.push(f.translation.sub(f.z_axis.scale(w2)));
        positions.push(f.translation.add(f.z_axis.scale(w2)));
        normals.push(f.y_axis);
        normals.push(f.y_axis);
        k = k + 1;
    }
    proof {
        assert(s_ribbon_from(curve, us@, w2, positions@, normals@));
    }
    let n = positions.len();
    let mut uvs: Vec<(Fx, Fx)> = Vec::new();
    let mut i: usize = 0;
    while i < n
        invariant
            uvs@.len() == i <= n,
            forall|j: int|
                0 <= j < i ==> #[trigger] uvs@[j] == (
                    (if j % 2 == 1 {
                        c_int(1)
                    } else {
                        c_int(0)
                    }),
                    (if (j / 2) % 2 == 1 {
                        c_int(1)
                    } else {
                        c_int(0)
                    }),
                ),
        decreases n - i,
    {
        let a = if i % 2 == 1 {
            Fx::from_int(1)
        } else {
            Fx::from_int(0)
        };
        let b = if (i / 2) % 2 == 1 {
            Fx::from_int(1)
        } else {
            Fx::from_int(0)
        };
        uvs.push((a, b));
        i = i + 1;
    }
    let mut indices: Vec<usize> = Vec::new();
    let mut i: usize = 0;
    while i < n
        invariant
            indices@.len() == i <= n,
            forall|j: int| 0 <= j < i ==> #[trigger] indices@[j] == j,
        decreases n - i,
    {
        indices.push(i);
        i = i + 1;
    }
    if n > 0 {
        let mut j: usize = n - 1;
        while j > 0
            invariant
                n > 0,
                j < n,
                indices@.len() == n + (n - 1 - j),
                forall|m: int| 0 <= m < n ==> #[trigger] indices@[m] == m,
                forall|m: int|
                    n <= m < indices@.len() ==> #[trigger] indices@[m] == 2 * n - 2 - m,
            decreases j,
        {
            indices.push(j - 1);
            proof {
                assert(indices@[indices@.len() - 1] == 2 * n - 2 - (indices@.len() - 1));
            }
            j = j - 1;
        }
    }
    RibbonData { positions, normals, uvs, indices }
}

} // verus!
