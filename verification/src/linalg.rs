//! Three-component vectors and quaternions over fixed-point scalars.
//!
//! Each executable operation is matched by a spec function that states its
//! result exactly, component by component, in terms of the fixed-point
//! scalar model.

use vstd::prelude::*;

use crate::fx::{s_add, s_div, s_mul, s_neg, s_sqrt, s_sub, Fx};

verus! {

#[derive(Clone, Copy, Debug)]
pub struct Vec3 {
    pub x: Fx,
    pub y: Fx,
    pub z: Fx,
}

#[derive(Clone, Copy, Debug)]
pub struct Quat {
    pub x: Fx,
    pub y: Fx,
    pub z: Fx,
    pub w: Fx,
}

pub open spec fn s_vadd(a: Vec3, b: Vec3) -> Vec3 {
    Vec3 { x: s_add(a.x, b.x), y: s_add(a.y, b.y), z: s_add(a.z, b.z) }
}

pub open spec fn s_vsub(a: Vec3, b: Vec3) -> Vec3 {
    Vec3 { x: s_sub(a.x, b.x), y: s_sub(a.y, b.y), z: s_sub(a.z, b.z) }
}

pub open spec fn s_vneg(a: Vec3) -> Vec3 {
    Vec3 { x: s_neg(a.x), y: s_neg(a.y), z: s_neg(a.z) }
}

pub open spec fn s_vscale(a: Vec3, k: Fx) -> Vec3 {
    Vec3 { x: s_mul(a.x, k), y: s_mul(a.y, k), z: s_mul(a.z, k) }
}

pub open spec fn s_vdiv(a: Vec3, k: Fx) -> Vec3 {
    Vec3 { x: s_div(a.x, k), y: s_div(a.y, k), z: s_div(a.z, k) }
}

pub open spec fn s_dot(a: Vec3, b: Vec3) -> Fx {
    s_add(s_add(s_mul(a.x, b.x), s_mul(a.y, b.y)), s_mul(a.z, b.z))
}

pub open spec fn s_cross(a: Vec3, b: Vec3) -> Vec3 {
    Vec3 {
        x: s_sub(s_mul(a.y, b.z), s_mul(a.z, b.y)),
        y: s_sub(s_mul(a.z, b.x), s_mul(a.x, b.z)),
        z: s_sub(s_mul(a.x, b.y), s_mul(a.y, b.x)),
    }
}

pub open spec fn s_length_squared(a: Vec3) -> Fx {
    s_dot(a, a)
}

pub open spec fn s_length(a: Vec3) -> Fx {
    s_sqrt(s_dot(a, a))
}

/// The unit vector along `a`: each component divided by the length.
pub open spec fn s_normalize(a: Vec3) -> Vec3 {
    s_vdiv(a, s_length(a))
}

impl Vec3 {
    pub fn new(x: Fx, y: Fx, z: Fx) -> (r: Vec3)
        ensures
            r == (Vec3 { x, y, z }),
    {
        Vec3 { x, y, z }
    }

    pub fn zero() -> (r: Vec3)
        ensures
            r == (Vec3 { x: Fx { raw: 0 }, y: Fx { raw: 0 }, z: Fx { raw: 0 } }),
    {
        Vec3 { x: Fx { raw: 0 }, y: Fx { raw: 0 }, z: Fx { raw: 0 } }
    }

    pub fn add(self, o: Vec3) -> (r: Vec3)
        ensures
            r == s_vadd(self, o),
    {
        Vec3 { x: self.x.add(o.x), y: self.y.add(o.y), z: self.z.add(o.z) }
    }

    pub fn sub(self, o: Vec3) -> (r: Vec3)
        ensures
            r == s_vsub(self, o),
    {
        Vec3 { x: self.x.sub(o.x), y: self.y.sub(o.y), z: self.z.sub(o.z) }
    }

    pub fn neg(self) -> (r: Vec3)
        ensures
            r == s_vneg(self),
    {
        Vec3 { x: self.x.neg(), y: self.y.neg(), z: self.z.neg() }
    }

    pub fn scale(self, k: Fx) -> (r: Vec3)
        ensures
            r == s_vscale(self, k),
    {
        Vec3 { x: self.x.mul(k), y: self.y.mul(k), z: self.z.mul(k) }
    }

    pub fn div(self, k: Fx) -> (r: Vec3)
        ensures
            r == s_vdiv(self, k),
    {
        Vec3 { x: self.x.div(k), y: self.y.div(k), z: self.z.div(k) }
    }

    pub fn dot(self, o: Vec3) -> (r: Fx)
        ensures
            r == s_dot(self, o),
    {
        self.x.mul(o.x).add(self.y.mul(o.y)).add(self.z.mul(o.z))
    }

    pub fn cross(self, o: Vec3) -> (r: Vec3)
        ensures
            r == s_cross(self, o),
    {
        Vec3 {
            x: self.y.mul(o.z).sub(self.z.mul(o.y)),
            y: self.z.mul(o.x).sub(self.x.mul(o.z)),
            z: self.x.mul(o.y).sub(self.y.mul(o.x)),
        }
    }

    pub fn length_squared(self) -> (r: Fx)
        ensures
            r == s_length_squared(self),
    {
        self.dot(self)
    }

    pub fn length(self) -> (r: Fx)
        ensures
            r == s_length(self),
    {
        self.dot(self).sqrt()
    }

    pub fn normalize(self) -> (r: Vec3)
        ensures
            r == s_normalize(self),
    {
        self.div(self.length())
    }
}

pub open spec fn s_qadd(a: Quat, b: Quat) -> Quat {
    Quat { x: s_add(a.x, b.x), y: s_add(a.y, b.y), z: s_add(a.z, b.z), w: s_add(a.w, b.w) }
}

pub open spec fn s_qscale(a: Quat, k: Fx) -> Quat {
    Quat { x: s_mul(a.x, k), y: s_mul(a.y, k), z: s_mul(a.z, k), w: s_mul(a.w, k) }
}

/// The Hamilton product, with `w` the real part.
pub open spec fn s_qmul(a: Quat, b: Quat) -> Quat {
    Quat {
        x: s_add(s_sub(s_add(s_mul(a.w, b.x), s_mul(a.x, b.w)), s_mul(a.z, b.y)), s_mul(a.y, b.z)),
        y: s_add(s_sub(s_add(s_mul(a.w, b.y), s_mul(a.y, b.w)), s_mul(a.x, b.z)), s_mul(a.z, b.x)),
        z: s_add(s_sub(s_add(s_mul(a.w, b.z), s_mul(a.z, b.w)), s_mul(a.y, b.x)), s_mul(a.x, b.y)),
        w: s_sub(s_sub(s_sub(s_mul(a.w, b.w), s_mul(a.x, b.x)), s_mul(a.y, b.y)), s_mul(a.z, b.z)),
    }
}

pub open spec fn s_qconj(a: Quat) -> Quat {
    Quat { x: s_neg(a.x), y: s_neg(a.y), z: s_neg(a.z), w: a.w }
}

pub open spec fn s_qdot(a: Quat, b: Quat) -> Fx {
    s_add(
        s_add(s_add(s_mul(a.x, b.x), s_mul(a.y, b.y)), s_mul(a.z, b.z)),
        s_mul(a.w, b.w),
    )
}

pub open spec fn s_qlength_squared(a: Quat) -> Fx {
    s_qdot(a, a)
}

pub open spec fn s_qxyz(a: Quat) -> Vec3 {
    Vec3 { x: a.x, y: a.y, z: a.z }
}

/// Conjugation `a q a*` of a quaternion `q` by `a`.
pub open spec fn s_qsandwich(a: Quat, q: Quat) -> Quat {
    s_qmul(s_qmul(a, q), s_qconj(a))
}

impl Quat {
    pub fn from_xyzw(x: Fx, y: Fx, z: Fx, w: Fx) -> (r: Quat)
        ensures
            r == (Quat { x, y, z, w }),
    {
        Quat { x, y, z, w }
    }

    pub fn add(self, o: Quat) -> (r: Quat)
        ensures
            r == s_qadd(self, o),
    {
        Quat {
            x: self.x.add(o.x),
            y: self.y.add(o.y),
            z: self.z.add(o.z),
            w: self.w.add(o.w),
        }
    }

    pub fn scale(self, k: Fx) -> (r: Quat)
        ensures
            r == s_qscale(self, k),
    {
        Quat {
            x: self.x.mul(k),
            y: self.y.mul(k),
            z: self.z.mul(k),
            w: self.w.mul(k),
        }
    }

    pub fn mul(self, o: Quat) -> (r: Quat)
        ensures
            r == s_qmul(self, o),
    {
        Quat {
            x: self.w.mul(o.x).add(self.x.mul(o.w)).sub(self.z.mul(o.y)).add(self.y.mul(o.z)),
            y: self.w.mul(o.y).add(self.y.mul(o.w)).sub(self.x.mul(o.z)).add(self.z.mul(o.x)),
            z: self.w.mul(o.z).add(self.z.mul(o.w)).sub(self.y.mul(o.x)).add(self.x.mul(o.y)),
            w: self.w.mul(o.w).sub(self.x.mul(o.x)).sub(self.y.mul(o.y)).sub(self.z.mul(o.z)),
        }
    }

    pub fn conjugate(self) -> (r: Quat)
        ensures
            r == s_qconj(self),
    {
        Quat { x: self.x.neg(), y: self.y.neg(), z: self.z.neg(), w: self.w }
    }

    pub fn dot(self, o: Quat) -> (r: Fx)
        ensures
            r == s_qdot(self, o),
    {
        self.x.mul(o.x).add(self.y.mul(o.y)).add(self.z.mul(o.z)).add(self.w.mul(o.w))
    }

    pub fn length_squared(self) -> (r: Fx)
        ensures
            r == s_qlength_squared(self),
    {
        self.dot(self)
    }

    pub fn xyz(self) -> (r: Vec3)
        ensures
            r == s_qxyz(self),
    {
        Vec3 { x: self.x, y: self.y, z: self.z }
    }

    /// Conjugates `q` by `self`: the product `self * q * self.conjugate()`.
    pub fn sandwich(self, q: Quat) -> (r: Quat)
        ensures
            r == s_qsandwich(self, q),
    {
        self.mul(q).mul(self.conjugate())
    }
}

/// A quaternion's squared length is nonnegative: every term is a square
/// scaled down by the truncating fixed-point product.
pub proof fn lemma_qlength_squared_nonneg(a: Quat)
    ensures
        s_qlength_squared(a).raw >= 0,
{
    lemma_square_nonneg(a.x);
    lemma_square_nonneg(a.y);
    lemma_square_nonneg(a.z);
    lemma_square_nonneg(a.w);
}

proof fn lemma_square_nonneg(a: Fx)
    ensures
        s_mul(a, a).raw >= 0,
{
    assert(a.raw * a.raw >= 0) by (nonlinear_arith);
}

} // verus!
