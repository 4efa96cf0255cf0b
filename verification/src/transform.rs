//! Affine transforms: a 4x4 fixed-point matrix with its precomputed
//! inverse and a cached handedness-swap flag. Points use the full affine
//! map, vectors only its linear part, and normals the inverse-transpose of
//! the linear part, which stays correct under non-uniform scaling and
//! shear.

use crate::bounds::{corner_s, from_point_s, union_s, Bounds3};
use crate::fx::{lemma_tdiv_bound_by, tdiv128, tdiv_s, FX_ONE};
use crate::ray::{Ray, RayDifferential};
use crate::vector::{lemma_mul_bound, v3_wide_ok, Point3, Vector3, COORD_MAX};
use vstd::prelude::*;

verus! {

/// Bound on the components of vectors fed through a transform; derived
/// quantities such as partial derivatives stay below it.
pub const VEC_XFORM_MAX: i64 = 0x2000_0000_0000;

/// A 4x4 fixed-point matrix, row major: `mRC` is row R, column C.
#[derive(Clone, Copy, PartialEq, Eq, Structural, Debug)]
pub struct Matrix4 {
    pub m00: i64,
    pub m01: i64,
    pub m02: i64,
    pub m03: i64,
    pub m10: i64,
    pub m11: i64,
    pub m12: i64,
    pub m13: i64,
    pub m20: i64,
    pub m21: i64,
    pub m22: i64,
    pub m23: i64,
    pub m30: i64,
    pub m31: i64,
    pub m32: i64,
    pub m33: i64,
}

/// Every entry is within the kernel's accepted coordinate range.
pub open spec fn m4_in_range(m: Matrix4) -> bool {
    &&& -COORD_MAX <= m.m00 <= COORD_MAX && -COORD_MAX <= m.m01 <= COORD_MAX
    &&& -COORD_MAX <= m.m02 <= COORD_MAX && -COORD_MAX <= m.m03 <= COORD_MAX
    &&& -COORD_MAX <= m.m10 <= COORD_MAX && -COORD_MAX <= m.m11 <= COORD_MAX
    &&& -COORD_MAX <= m.m12 <= COORD_MAX && -COORD_MAX <= m.m13 <= COORD_MAX
    &&& -COORD_MAX <= m.m20 <= COORD_MAX && -COORD_MAX <= m.m21 <= COORD_MAX
    &&& -COORD_MAX <= m.m22 <= COORD_MAX && -COORD_MAX <= m.m23 <= COORD_MAX
    &&& -COORD_MAX <= m.m30 <= COORD_MAX && -COORD_MAX <= m.m31 <= COORD_MAX
    &&& -COORD_MAX <= m.m32 <= COORD_MAX && -COORD_MAX <= m.m33 <= COORD_MAX
}

/// The vector's components are small enough to feed through a transform.
pub open spec fn v3_xform_ok(v: Vector3) -> bool {
    &&& -VEC_XFORM_MAX <= v.x <= VEC_XFORM_MAX
    &&& -VEC_XFORM_MAX <= v.y <= VEC_XFORM_MAX
    &&& -VEC_XFORM_MAX <= v.z <= VEC_XFORM_MAX
}

/// The point's components are small enough to feed through a transform.
pub open spec fn p3_xform_ok(p: Point3) -> bool {
    &&& -VEC_XFORM_MAX <= p.x <= VEC_XFORM_MAX
    &&& -VEC_XFORM_MAX <= p.y <= VEC_XFORM_MAX
    &&& -VEC_XFORM_MAX <= p.z <= VEC_XFORM_MAX
}

/// The determinant of the upper-left 3x3 linear block (at triple scale;
/// only its sign is ever read).
pub open spec fn det3_s(m: Matrix4) -> int {
    m.m00 * (m.m11 * m.m22 - m.m12 * m.m21) - m.m01 * (m.m10 * m.m22 - m.m12 * m.m20) + m.m02 * (
    m.m10 * m.m21 - m.m11 * m.m20)
}

/// One row of an affine application: `(a*x + b*y + c*z) / FX_ONE + t`.
pub open spec fn xf_row_s(a: i64, b: i64, c: i64, t: i64, x: i64, y: i64, z: i64) -> int {
    tdiv_s(a * x + b * y + c * z, FX_ONE as int) + t
}

/// The full affine map applied to a point.
pub open spec fn xform_point_s(m: Matrix4, p: Point3) -> Point3 {
    Point3 {
        x: xf_row_s(m.m00, m.m01, m.m02, m.m03, p.x, p.y, p.z) as i64,
        y: xf_row_s(m.m10, m.m11, m.m12, m.m13, p.x, p.y, p.z) as i64,
        z: xf_row_s(m.m20, m.m21, m.m22, m.m23, p.x, p.y, p.z) as i64,
    }
}

/// The linear part applied to a vector (no translation).
pub open spec fn xform_vector_s(m: Matrix4, v: Vector3) -> Vector3 {
    Vector3 {
        x: xf_row_s(m.m00, m.m01, m.m02, 0, v.x, v.y, v.z) as i64,
        y: xf_row_s(m.m10, m.m11, m.m12, 0, v.x, v.y, v.z) as i64,
        z: xf_row_s(m.m20, m.m21, m.m22, 0, v.x, v.y, v.z) as i64,
    }
}

/// The transpose of the linear part of `inv` applied to a normal: with
/// `inv` the inverse of the forward matrix this is the inverse-transpose
/// map that keeps normals perpendicular under any affine transform.
pub open spec fn xform_normal_s(inv: Matrix4, n: Vector3) -> Vector3 {
    Vector3 {
        x: xf_row_s(inv.m00, inv.m10, inv.m20, 0, n.x, n.y, n.z) as i64,
        y: xf_row_s(inv.m01, inv.m11, inv.m21, 0, n.x, n.y, n.z) as i64,
        z: xf_row_s(inv.m02, inv.m12, inv.m22, 0, n.x, n.y, n.z) as i64,
    }
}

/// A ray through the affine map: origin as a point, direction as a vector
/// (not renormalized), everything else carried through unchanged.
pub open spec fn xform_ray_s(m: Matrix4, r: Ray) -> Ray {
    Ray {
        origin: xform_point_s(m, r.origin),
        direction: xform_vector_s(m, r.direction),
        t_max: r.t_max,
        time: r.time,
        medium: r.medium,
    }
}

/// A box through the affine map: the union of its eight transformed
/// corners — correct for any affine map, though not tight for rotations.
pub open spec fn warp_bounds_s(m: Matrix4, b: Bounds3) -> Bounds3 {
    match b {
        Bounds3::Empty => Bounds3::Empty,
        Bounds3::Corners { min, max } => {
            let b0 = from_point_s(xform_point_s(m, min));
            let b1 = union_s(b0, from_point_s(xform_point_s(m, corner_s(min, max, 0))));
            let b2 = union_s(b1, from_point_s(xform_point_s(m, corner_s(min, max, 1))));
            let b3 = union_s(b2, from_point_s(xform_point_s(m, corner_s(min, max, 2))));
            let b4 = union_s(b3, from_point_s(xform_point_s(m, corner_s(min, max, 3))));
            let b5 = union_s(b4, from_point_s(xform_point_s(m, corner_s(min, max, 4))));
            let b6 = union_s(b5, from_point_s(xform_point_s(m, corner_s(min, max, 5))));
            let b7 = union_s(b6, from_point_s(xform_point_s(m, corner_s(min, max, 6))));
            union_s(b7, from_point_s(xform_point_s(m, corner_s(min, max, 7))))
        },
    }
}

/// One row of an affine application.
fn xf_row(a: i64, b: i64, c: i64, t: i64, x: i64, y: i64, z: i64) -> (r: i64)
    requires
        -COORD_MAX <= a <= COORD_MAX,
        -COORD_MAX <= b <= COORD_MAX,
        -COORD_MAX <= c <= COORD_MAX,
        -COORD_MAX <= t <= COORD_MAX,
        -VEC_XFORM_MAX <= x <= VEC_XFORM_MAX,
        -VEC_XFORM_MAX <= y <= VEC_XFORM_MAX,
        -VEC_XFORM_MAX <= z <= VEC_XFORM_MAX,
    ensures
        r as int == xf_row_s(a, b, c, t, x, y, z),
{
    proof {
        lemma_mul_bound(a as int, x as int, COORD_MAX as int, VEC_XFORM_MAX as int);
        lemma_mul_bound(b as int, y as int, COORD_MAX as int, VEC_XFORM_MAX as int);
        lemma_mul_bound(c as int, z as int, COORD_MAX as int, VEC_XFORM_MAX as int);
    }
    let s: i128 = (a as i128) * (x as i128) + (b as i128) * (y as i128) + (c as i128) * (z as i128);
    let q = tdiv128(s, FX_ONE as i128);
    proof {
        lemma_tdiv_bound_by(s as int, FX_ONE as int, 0x6000_0000_0000_0000);
    }
    (q as i64) + t
}

impl Matrix4 {
    /// The bottom row leaves homogeneous coordinates unchanged: this is an
    /// affine map.
    pub open spec fn wf(self) -> bool {
        self.m30 == 0 && self.m31 == 0 && self.m32 == 0 && self.m33 == FX_ONE
    }

    /// The identity matrix.
    pub fn identity() -> (r: Matrix4)
        ensures
            r.wf(),
            m4_in_range(r),
            forall|p: Point3| p3_xform_ok(p) ==> xform_point_s(r, p) == p,
            forall|v: Vector3| v3_xform_ok(v) ==> xform_vector_s(r, v) == v,
            forall|n: Vector3| v3_xform_ok(n) ==> xform_normal_s(r, n) == n,
            det3_s(r) > 0,
    {
        let r = Matrix4 {
            m00: FX_ONE,
            m01: 0,
            m02: 0,
            m03: 0,
            m10: 0,
            m11: FX_ONE,
            m12: 0,
            m13: 0,
            m20: 0,
            m21: 0,
            m22: FX_ONE,
            m23: 0,
            m30: 0,
            m31: 0,
            m32: 0,
            m33: FX_ONE,
        };
        proof {
            assert forall|p: Point3| p3_xform_ok(p) implies xform_point_s(r, p) == p by {
                lemma_identity_row(p.x, p.y, p.z);
            }
            assert forall|v: Vector3| v3_xform_ok(v) implies xform_vector_s(r, v) == v by {
                lemma_identity_row(v.x, v.y, v.z);
            }
            assert forall|n: Vector3| v3_xform_ok(n) implies xform_normal_s(r, n) == n by {
                lemma_identity_row(n.x, n.y, n.z);
            }
        }
        r
    }

    /// The determinant of the upper-left 3x3 linear block.
    pub fn det3(&self) -> (r: i128)
        requires
            m4_in_range(*self),
        ensures
            r as int == det3_s(*self),
    {
        proof {
            lemma_mul_bound(self.m11 as int, self.m22 as int, COORD_MAX as int, COORD_MAX as int);
            lemma_mul_bound(self.m12 as int, self.m21 as int, COORD_MAX as int, COORD_MAX as int);
            lemma_mul_bound(self.m10 as int, self.m22 as int, COORD_MAX as int, COORD_MAX as int);
            lemma_mul_bound(self.m12 as int, self.m20 as int, COORD_MAX as int, COORD_MAX as int);
            lemma_mul_bound(self.m10 as int, self.m21 as int, COORD_MAX as int, COORD_MAX as int);
            lemma_mul_bound(self.m11 as int, self.m20 as int, COORD_MAX as int, COORD_MAX as int);
        }
        let c0: i128 = (self.m11 as i128) * (self.m22 as i128) - (self.m12 as i128) * (self.m21
            as i128);
        let c1: i128 = (self.m10 as i128) * (self.m22 as i128) - (self.m12 as i128) * (self.m20
            as i128);
        let c2: i128 = (self.m10 as i128) * (self.m21 as i128) - (self.m11 as i128) * (self.m20
            as i128);
        proof {
            lemma_mul_bound(
                self.m00 as int,
                c0 as int,
                COORD_MAX as int,
                0x2000_0000_0000_0000_0000,
            );
            lemma_mul_bound(
                self.m01 as int,
                c1 as int,
                COORD_MAX as int,
                0x2000_0000_0000_0000_0000,
            );
            lemma_mul_bound(
                self.m02 as int,
                c2 as int,
                COORD_MAX as int,
                0x2000_0000_0000_0000_0000,
            );
        }
        (self.m00 as i128) * c0 - (self.m01 as i128) * c1 + (self.m02 as i128) * c2
    }

    /// The full affine map applied to a point.
    pub fn transform_point(&self, p: &Point3) -> (r: Point3)
        requires
            m4_in_range(*self),
            p3_xform_ok(*p),
        ensures
            r == xform_point_s(*self, *p),
    {
        Point3 {
            x: xf_row(self.m00, self.m01, self.m02, self.m03, p.x, p.y, p.z),
            y: xf_row(self.m10, self.m11, self.m12, self.m13, p.x, p.y, p.z),
            z: xf_row(self.m20, self.m21, self.m22, self.m23, p.x, p.y, p.z),
        }
    }

    /// The linear part applied to a vector.
    pub fn transform_vector(&self, v: &Vector3) -> (r: Vector3)
        requires
            m4_in_range(*self),
            v3_xform_ok(*v),
        ensures
            r == xform_vector_s(*self, *v),
    {
        Vector3 {
            x: xf_row(self.m00, self.m01, self.m02, 0, v.x, v.y, v.z),
            y: xf_row(self.m10, self.m11, self.m12, 0, v.x, v.y, v.z),
            z: xf_row(self.m20, self.m21, self.m22, 0, v.x, v.y, v.z),
        }
    }

    /// The transpose of this matrix's linear part applied to a normal;
    /// call it on the inverse of the forward matrix.
    pub fn transform_normal_transposed(&self, n: &Vector3) -> (r: Vector3)
        requires
            m4_in_range(*self),
            v3_xform_ok(*n),
        ensures
            r == xform_normal_s(*self, *n),
    {
        Vector3 {
            x: xf_row(self.m00, self.m10, self.m20, 0, n.x, n.y, n.z),
            y: xf_row(self.m01, self.m11, self.m21, 0, n.x, n.y, n.z),
            z: xf_row(self.m02, self.m12, self.m22, 0, n.x, n.y, n.z),
        }
    }
}

proof fn lemma_identity_row(x: i64, y: i64, z: i64)
    requires
        -VEC_XFORM_MAX <= x <= VEC_XFORM_MAX,
        -VEC_XFORM_MAX <= y <= VEC_XFORM_MAX,
        -VEC_XFORM_MAX <= z <= VEC_XFORM_MAX,
    ensures
        xf_row_s(FX_ONE, 0, 0, 0, x, y, z) == x,
        xf_row_s(0, FX_ONE, 0, 0, x, y, z) == y,
        xf_row_s(0, 0, FX_ONE, 0, x, y, z) == z,
{
    crate::fx::lemma_tdiv_mag(FX_ONE as int * x, FX_ONE as int);
    crate::fx::lemma_tdiv_mag(FX_ONE as int * y, FX_ONE as int);
    crate::fx::lemma_tdiv_mag(FX_ONE as int * z, FX_ONE as int);
    assert(tdiv_s(FX_ONE as int * x, FX_ONE as int) == x) by (nonlinear_arith)
        requires
            FX_ONE == 65536,
    ;
    assert(tdiv_s(FX_ONE as int * y, FX_ONE as int) == y) by (nonlinear_arith)
        requires
            FX_ONE == 65536,
    ;
    assert(tdiv_s(FX_ONE as int * z, FX_ONE as int) == z) by (nonlinear_arith)
        requires
            FX_ONE == 65536,
    ;
}

proof fn lemma_xf_row_wide(a: i64, b: i64, c: i64, x: i64, y: i64, z: i64)
    requires
        -COORD_MAX <= a <= COORD_MAX,
        -COORD_MAX <= b <= COORD_MAX,
        -COORD_MAX <= c <= COORD_MAX,
        -VEC_XFORM_MAX <= x <= VEC_XFORM_MAX,
        -VEC_XFORM_MAX <= y <= VEC_XFORM_MAX,
        -VEC_XFORM_MAX <= z <= VEC_XFORM_MAX,
    ensures
        -0x1800_0000_0000_0000 <= xf_row_s(a, b, c, 0, x, y, z) <= 0x1800_0000_0000_0000,
{
    lemma_mul_bound(a as int, x as int, COORD_MAX as int, VEC_XFORM_MAX as int);
    lemma_mul_bound(b as int, y as int, COORD_MAX as int, VEC_XFORM_MAX as int);
    lemma_mul_bound(c as int, z as int, COORD_MAX as int, VEC_XFORM_MAX as int);
    lemma_tdiv_bound_by(a * x + b * y + c * z, FX_ONE as int, 0x1800_0000_0000_0000);
}

/// Transformed vectors and normals of acceptable inputs stay small enough
/// to be normalized afterwards.
pub proof fn lemma_xform_wide(m: Matrix4, v: Vector3)
    requires
        m4_in_range(m),
        v3_xform_ok(v),
    ensures
        v3_wide_ok(xform_vector_s(m, v)),
        v3_wide_ok(xform_normal_s(m, v)),
{
    lemma_xf_row_wide(m.m00, m.m01, m.m02, v.x, v.y, v.z);
    lemma_xf_row_wide(m.m10, m.m11, m.m12, v.x, v.y, v.z);
    lemma_xf_row_wide(m.m20, m.m21, m.m22, v.x, v.y, v.z);
    lemma_xf_row_wide(m.m00, m.m10, m.m20, v.x, v.y, v.z);
    lemma_xf_row_wide(m.m01, m.m11, m.m21, v.x, v.y, v.z);
    lemma_xf_row_wide(m.m02, m.m12, m.m22, v.x, v.y, v.z);
}

/// An affine transformation that can be applied to a value of type `T`.
pub trait Transform<T> {
    /// The inputs this transform accepts.
    spec fn transform_pre(&self, t: &T) -> bool;

    /// The exact result of the transform.
    spec fn transform_s(&self, t: &T) -> T;

    fn transform(&self, t: &T) -> (r: T)
        requires
            self.transform_pre(t),
        ensures
            r == self.transform_s(t),
    ;
}

/// An affine transformation that can say whether it swaps the handedness
/// of the coordinate system.
pub trait SwapHandedness {
    /// The inputs on which the question can be answered.
    spec fn swaps_handedness_pre(&self) -> bool;

    /// Whether the linear part's determinant is negative.
    spec fn swaps_handedness_s(&self) -> bool;

    /// Returns whether the transform swaps the coordinate system
    /// handedness.
    fn swaps_handedness(&self) -> (r: bool)
        requires
            self.swaps_handedness_pre(),
        ensures
            r == self.swaps_handedness_s(),
    ;
}

impl SwapHandedness for Matrix4 {
    open spec fn swaps_handedness_pre(&self) -> bool {
        m4_in_range(*self)
    }

    open spec fn swaps_handedness_s(&self) -> bool {
        det3_s(*self) < 0
    }

    fn swaps_handedness(&self) -> (r: bool) {
        self.det3() < 0
    }
}

/// A forward affine matrix together with its precomputed inverse (assumed
/// consistent and never independently mutated) and the cached
/// handedness-swap flag.
#[derive(Clone, Copy, Debug)]
pub struct AffineTransform {
    m: Matrix4,
    m_inv: Matrix4,
    swaps: bool,
}

impl AffineTransform {
    /// The forward matrix.
    pub closed spec fn matrix_s(self) -> Matrix4 {
        self.m
    }

    /// The precomputed inverse matrix.
    pub closed spec fn inverse_s(self) -> Matrix4 {
        self.m_inv
    }

    /// Both matrices are affine and in range, and the cached flag is the
    /// sign of the forward determinant.
    pub closed spec fn wf(self) -> bool {
        &&& self.m.wf()
        &&& self.m_inv.wf()
        &&& m4_in_range(self.m)
        &&& m4_in_range(self.m_inv)
        &&& self.swaps == (det3_s(self.m) < 0)
    }

    /// What well-formedness guarantees about the two matrices.
    pub proof fn lemma_wf_facts(self)
        requires
            self.wf(),
        ensures
            self.matrix_s().wf(),
            self.inverse_s().wf(),
            m4_in_range(self.matrix_s()),
            m4_in_range(self.inverse_s()),
            self.swaps_handedness_s() == (det3_s(self.matrix_s()) < 0),
    {
    }

    /// Pairs a forward matrix with its precomputed inverse and caches the
    /// handedness-swap flag, computed once here rather than per query.
    pub fn new(m: Matrix4, m_inv: Matrix4) -> (r: AffineTransform)
        requires
            m.wf(),
            m_inv.wf(),
            m4_in_range(m),
            m4_in_range(m_inv),
        ensures
            r.wf(),
            r.matrix_s() == m,
            r.inverse_s() == m_inv,
    {
        let d = m.det3();
        AffineTransform { m, m_inv, swaps: d < 0 }
    }

    /// The identity transform.
    pub fn identity() -> (r: AffineTransform)
        ensures
            r.wf(),
            !r.swaps_handedness_s(),
            forall|p: Point3| p3_xform_ok(p) ==> xform_point_s(r.matrix_s(), p) == p,
            forall|v: Vector3| v3_xform_ok(v) ==> xform_vector_s(r.matrix_s(), v) == v,
            forall|p: Point3| p3_xform_ok(p) ==> xform_point_s(r.inverse_s(), p) == p,
            forall|v: Vector3| v3_xform_ok(v) ==> xform_vector_s(r.inverse_s(), v) == v,
            forall|n: Vector3| v3_xform_ok(n) ==> xform_normal_s(r.inverse_s(), n) == n,
    {
        AffineTransform::new(Matrix4::identity(), Matrix4::identity())
    }

    /// The forward matrix.
    pub fn matrix(&self) -> (r: Matrix4)
        ensures
            r == self.matrix_s(),
    {
        self.m
    }

    /// The precomputed inverse matrix.
    pub fn inverse(&self) -> (r: Matrix4)
        ensures
            r == self.inverse_s(),
    {
        self.m_inv
    }

    /// The forward map applied to a point.
    pub fn transform_point(&self, p: &Point3) -> (r: Point3)
        requires
            self.wf(),
            p3_xform_ok(*p),
        ensures
            r == xform_point_s(self.matrix_s(), *p),
    {
        self.m.transform_point(p)
    }

    /// The forward linear part applied to a vector.
    pub fn transform_vector(&self, v: &Vector3) -> (r: Vector3)
        requires
            self.wf(),
            v3_xform_ok(*v),
        ensures
            r == xform_vector_s(self.matrix_s(), *v),
    {
        self.m.transform_vector(v)
    }

    /// The forward map for normals: the inverse matrix transposed.
    pub fn transform_normal(&self, n: &Vector3) -> (r: Vector3)
        requires
            self.wf(),
            v3_xform_ok(*n),
        ensures
            r == xform_normal_s(self.inverse_s(), *n),
    {
        self.m_inv.transform_normal_transposed(n)
    }

    /// The inverse map applied to a point.
    pub fn inv_transform_point(&self, p: &Point3) -> (r: Point3)
        requires
            self.wf(),
            p3_xform_ok(*p),
        ensures
            r == xform_point_s(self.inverse_s(), *p),
    {
        self.m_inv.transform_point(p)
    }

    /// The inverse linear part applied to a vector.
    pub fn inv_transform_vector(&self, v: &Vector3) -> (r: Vector3)
        requires
            self.wf(),
            v3_xform_ok(*v),
        ensures
            r == xform_vector_s(self.inverse_s(), *v),
    {
        self.m_inv.transform_vector(v)
    }

    /// The inverse map applied to a ray (into the object's local frame).
    pub fn inv_transform_ray(&self, r: &Ray) -> (rr: Ray)
        requires
            self.wf(),
            p3_xform_ok(r.origin),
            v3_xform_ok(r.direction),
        ensures
            rr == xform_ray_s(self.inverse_s(), *r),
    {
        Ray {
            origin: self.m_inv.transform_point(&r.origin),
            direction: self.m_inv.transform_vector(&r.direction),
            t_max: r.t_max,
            time: r.time,
            medium: r.medium,
        }
    }
}

impl SwapHandedness for AffineTransform {
    open spec fn swaps_handedness_pre(&self) -> bool {
        self.wf()
    }

    open spec fn swaps_handedness_s(&self) -> bool {
        det3_s(self.matrix_s()) < 0
    }

    fn swaps_handedness(&self) -> (r: bool) {
        self.swaps
    }
}

impl Transform<Ray> for AffineTransform {
    open spec fn transform_pre(&self, r: &Ray) -> bool {
        &&& self.wf()
        &&& p3_xform_ok(r.origin)
        &&& v3_xform_ok(r.direction)
    }

    open spec fn transform_s(&self, r: &Ray) -> Ray {
        xform_ray_s(self.matrix_s(), *r)
    }

    fn transform(&self, r: &Ray) -> (rr: Ray) {
        Ray {
            origin: self.m.transform_point(&r.origin),
            direction: self.m.transform_vector(&r.direction),
            t_max: r.t_max,
            time: r.time,
            medium: r.medium,
        }
    }
}

impl Transform<RayDifferential> for AffineTransform {
    open spec fn transform_pre(&self, rd: &RayDifferential) -> bool {
        &&& self.wf()
        &&& p3_xform_ok(rd.primary.origin)
        &&& v3_xform_ok(rd.primary.direction)
        &&& p3_xform_ok(rd.dx_origin)
        &&& v3_xform_ok(rd.dx_direction)
        &&& p3_xform_ok(rd.dy_origin)
        &&& v3_xform_ok(rd.dy_direction)
    }

    open spec fn transform_s(&self, rd: &RayDifferential) -> RayDifferential {
        RayDifferential {
            primary: xform_ray_s(self.matrix_s(), rd.primary),
            has_differentials: rd.has_differentials,
            dx_origin: xform_point_s(self.matrix_s(), rd.dx_origin),
            dx_direction: xform_vector_s(self.matrix_s(), rd.dx_direction),
            dy_origin: xform_point_s(self.matrix_s(), rd.dy_origin),
            dy_direction: xform_vector_s(self.matrix_s(), rd.dy_direction),
        }
    }

    fn transform(&self, rd: &RayDifferential) -> (r: RayDifferential) {
        RayDifferential {
            primary: Ray {
                origin: self.m.transform_point(&rd.primary.origin),
                direction: self.m.transform_vector(&rd.primary.direction),
                t_max: rd.primary.t_max,
                time: rd.primary.time,
                medium: rd.primary.medium,
            },
            has_differentials: rd.has_differentials,
            dx_origin: self.m.transform_point(&rd.dx_origin),
            dx_direction: self.m.transform_vector(&rd.dx_direction),
            dy_origin: self.m.transform_point(&rd.dy_origin),
            dy_direction: self.m.transform_vector(&rd.dy_direction),
        }
    }
}

impl Transform<Bounds3> for AffineTransform {
    open spec fn transform_pre(&self, b: &Bounds3) -> bool {
        &&& self.wf()
        &&& b.wf()
        &&& b.in_range()
    }

    open spec fn transform_s(&self, b: &Bounds3) -> Bounds3 {
        warp_bounds_s(self.matrix_s(), *b)
    }

    fn transform(&self, b: &Bounds3) -> (r: Bounds3) {
        match *b {
            Bounds3::Empty => Bounds3::Empty,
            Bounds3::Corners { min, max } => {
                let mut acc = Bounds3::from_point(self.m.transform_point(&min));
                let c0 = Point3 { x: min.x, y: min.y, z: min.z };
                let c1 = Point3 { x: max.x, y: min.y, z: min.z };
                let c2 = Point3 { x: min.x, y: max.y, z: min.z };
                let c3 = Point3 { x: max.x, y: max.y, z: min.z };
                let c4 = Point3 { x: min.x, y: min.y, z: max.z };
                let c5 = Point3 { x: max.x, y: min.y, z: max.z };
                let c6 = Point3 { x: min.x, y: max.y, z: max.z };
                let c7 = Point3 { x: max.x, y: max.y, z: max.z };
                proof {
                    assert(c0 == corner_s(min, max, 0));
                    assert(c1 == corner_s(min, max, 1));
                    assert(c2 == corner_s(min, max, 2));
                    assert(c3 == corner_s(min, max, 3));
                    assert(c4 == corner_s(min, max, 4));
                    assert(c5 == corner_s(min, max, 5));
                    assert(c6 == corner_s(min, max, 6));
                    assert(c7 == corner_s(min, max, 7));
                }
                acc = acc.union_with_point(&self.m.transform_point(&c0));
                acc = acc.union_with_point(&self.m.transform_point(&c1));
                acc = acc.union_with_point(&self.m.transform_point(&c2));
                acc = acc.union_with_point(&self.m.transform_point(&c3));
                acc = acc.union_with_point(&self.m.transform_point(&c4));
                acc = acc.union_with_point(&self.m.transform_point(&c5));
                acc = acc.union_with_point(&self.m.transform_point(&c6));
                acc = acc.union_with_point(&self.m.transform_point(&c7));
                acc
            },
        }
    }
}

} // verus!
