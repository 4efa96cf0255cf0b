//! Points and vectors over the fixed-point scalar, with exact dot and cross
//! products (widened internally so no intermediate rounds), rounding-aware
//! normalization, and the hemisphere test `face_forward`.

use crate::fx::{fx_div_s, fx_mul, fx_mul_s, fx_div, isqrt, sqrt_floor, tdiv128, tdiv_s, FX_ONE};
use crate::fx::{abs_s, is_sqrt_floor, lemma_sqrt_floor, lemma_tdiv_mag};
use crate::fx::{lemma_tdiv_bound_by, lemma_tdiv_sign};
use vstd::prelude::*;

verus! {

/// Bound under which the widened (128-bit) products and sums of this module
/// cannot overflow. Every realistic scene coordinate is far below it.
pub const WIDE_MAX: i64 = 0x4000_0000_0000_0000;

/// Bound on the geometry the kernel accepts: coordinates of points fed to
/// shapes, boxes and rays stay within `COORD_MAX` units so that every
/// derived quantity (dot products, quadratic discriminants) provably fits
/// the machine integers it is computed in.
pub const COORD_MAX: i64 = 0x4000_0000;

/// Bound on the components of partial-derivative vectors: large enough for
/// any derivative of in-range geometry, small enough that their cross
/// products can still be normalized.
pub const DERIV_MAX: i64 = 0x40_0000_0000;

/// The vector's components are within the accepted derivative range.
pub open spec fn v3_deriv_ok(v: Vector3) -> bool {
    &&& -DERIV_MAX <= v.x <= DERIV_MAX
    &&& -DERIV_MAX <= v.y <= DERIV_MAX
    &&& -DERIV_MAX <= v.z <= DERIV_MAX
}

/// The point's coordinates are within the kernel's accepted range.
pub open spec fn p3_in_range(p: Point3) -> bool {
    &&& -COORD_MAX <= p.x <= COORD_MAX
    &&& -COORD_MAX <= p.y <= COORD_MAX
    &&& -COORD_MAX <= p.z <= COORD_MAX
}

/// The vector's components are within the kernel's accepted range.
pub open spec fn v3_in_range(v: Vector3) -> bool {
    &&& -COORD_MAX <= v.x <= COORD_MAX
    &&& -COORD_MAX <= v.y <= COORD_MAX
    &&& -COORD_MAX <= v.z <= COORD_MAX
}

/// A location in two dimensions (used for UV parameter coordinates).
#[derive(Clone, Copy, PartialEq, Eq, Structural, Debug)]
pub struct Point2 {
    pub x: i64,
    pub y: i64,
}

/// A location in three dimensions.
#[derive(Clone, Copy, PartialEq, Eq, Structural, Debug)]
pub struct Point3 {
    pub x: i64,
    pub y: i64,
    pub z: i64,
}

/// A displacement in three dimensions.
#[derive(Clone, Copy, PartialEq, Eq, Structural, Debug)]
pub struct Vector3 {
    pub x: i64,
    pub y: i64,
    pub z: i64,
}

/// All components small enough for widened products (see `WIDE_MAX`).
pub open spec fn v3_wide_ok(v: Vector3) -> bool {
    &&& -WIDE_MAX <= v.x <= WIDE_MAX
    &&& -WIDE_MAX <= v.y <= WIDE_MAX
    &&& -WIDE_MAX <= v.z <= WIDE_MAX
}

/// The dot product at double scale (no rounding).
pub open spec fn dot_s(a: Vector3, b: Vector3) -> int {
    a.x * b.x + a.y * b.y + a.z * b.z
}

/// The cross product brought back to single scale, rounding toward zero
/// once per component.
pub open spec fn cross_s(a: Vector3, b: Vector3) -> Vector3 {
    Vector3 {
        x: tdiv_s(a.y * b.z - a.z * b.y, FX_ONE as int) as i64,
        y: tdiv_s(a.z * b.x - a.x * b.z, FX_ONE as int) as i64,
        z: tdiv_s(a.x * b.y - a.y * b.x, FX_ONE as int) as i64,
    }
}

/// Componentwise negation.
pub open spec fn neg3_s(v: Vector3) -> Vector3 {
    Vector3 { x: -v.x as i64, y: -v.y as i64, z: -v.z as i64 }
}

/// The fixed-point length: floor of the exact Euclidean norm.
pub open spec fn length_s(v: Vector3) -> int {
    sqrt_floor(dot_s(v, v))
}

/// The unit-length direction of `v`, each component rounded toward zero;
/// the zero vector is left unchanged.
pub open spec fn normalize_s(v: Vector3) -> Vector3 {
    if v.x == 0 && v.y == 0 && v.z == 0 {
        v
    } else {
        Vector3 {
            x: tdiv_s(v.x * FX_ONE, length_s(v)) as i64,
            y: tdiv_s(v.y * FX_ONE, length_s(v)) as i64,
            z: tdiv_s(v.z * FX_ONE, length_s(v)) as i64,
        }
    }
}

/// Bounds on two factors bound their product.
pub proof fn lemma_mul_bound(a: int, b: int, m: int, n: int)
    requires
        -m <= a <= m,
        -n <= b <= n,
        0 <= m,
        0 <= n,
    ensures
        -(m * n) <= a * b <= m * n,
{
    assert(-(m * n) <= a * b <= m * n) by (nonlinear_arith)
        requires
            -m <= a <= m,
            -n <= b <= n,
            0 <= m,
            0 <= n,
    ;
}

impl Vector3 {
    pub fn add(self, o: Vector3) -> (r: Vector3)
        requires
            i64::MIN <= self.x + o.x <= i64::MAX,
            i64::MIN <= self.y + o.y <= i64::MAX,
            i64::MIN <= self.z + o.z <= i64::MAX,
        ensures
            r.x == self.x + o.x,
            r.y == self.y + o.y,
            r.z == self.z + o.z,
    {
        Vector3 { x: self.x + o.x, y: self.y + o.y, z: self.z + o.z }
    }

    pub fn sub(self, o: Vector3) -> (r: Vector3)
        requires
            i64::MIN <= self.x - o.x <= i64::MAX,
            i64::MIN <= self.y - o.y <= i64::MAX,
            i64::MIN <= self.z - o.z <= i64::MAX,
        ensures
            r.x == self.x - o.x,
            r.y == self.y - o.y,
            r.z == self.z - o.z,
    {
        Vector3 { x: self.x - o.x, y: self.y - o.y, z: self.z - o.z }
    }

    pub fn neg(self) -> (r: Vector3)
        requires
            self.x != i64::MIN,
            self.y != i64::MIN,
            self.z != i64::MIN,
        ensures
            r == neg3_s(self),
    {
        Vector3 { x: -self.x, y: -self.y, z: -self.z }
    }

    /// Scale by a fixed-point factor, rounding toward zero per component.
    pub fn scale(self, s: i64) -> (r: Vector3)
        requires
            i64::MIN <= fx_mul_s(self.x as int, s as int) <= i64::MAX,
            i64::MIN <= fx_mul_s(self.y as int, s as int) <= i64::MAX,
            i64::MIN <= fx_mul_s(self.z as int, s as int) <= i64::MAX,
        ensures
            r.x == fx_mul_s(self.x as int, s as int),
            r.y == fx_mul_s(self.y as int, s as int),
            r.z == fx_mul_s(self.z as int, s as int),
    {
        Vector3 { x: fx_mul(self.x, s), y: fx_mul(self.y, s), z: fx_mul(self.z, s) }
    }

    /// The exact double-scale dot product.
    pub fn dot_wide(self, o: Vector3) -> (r: i128)
        requires
            v3_wide_ok(self),
            v3_wide_ok(o),
        ensures
            r as int == dot_s(self, o),
    {
        proof {
            lemma_mul_bound(self.x as int, o.x as int, WIDE_MAX as int, WIDE_MAX as int);
            lemma_mul_bound(self.y as int, o.y as int, WIDE_MAX as int, WIDE_MAX as int);
            lemma_mul_bound(self.z as int, o.z as int, WIDE_MAX as int, WIDE_MAX as int);
        }
        (self.x as i128) * (o.x as i128) + (self.y as i128) * (o.y as i128) + (self.z as i128)
            * (o.z as i128)
    }

    /// The cross product, rounded toward zero once per component.
    pub fn cross(self, o: Vector3) -> (r: Vector3)
        requires
            v3_wide_ok(self),
            v3_wide_ok(o),
        ensures
            r == cross_s(self, o),
    {
        proof {
            lemma_mul_bound(self.y as int, o.z as int, WIDE_MAX as int, WIDE_MAX as int);
            lemma_mul_bound(self.z as int, o.y as int, WIDE_MAX as int, WIDE_MAX as int);
            lemma_mul_bound(self.z as int, o.x as int, WIDE_MAX as int, WIDE_MAX as int);
            lemma_mul_bound(self.x as int, o.z as int, WIDE_MAX as int, WIDE_MAX as int);
            lemma_mul_bound(self.x as int, o.y as int, WIDE_MAX as int, WIDE_MAX as int);
            lemma_mul_bound(self.y as int, o.x as int, WIDE_MAX as int, WIDE_MAX as int);
        }
        let cx = (self.y as i128) * (o.z as i128) - (self.z as i128) * (o.y as i128);
        let cy = (self.z as i128) * (o.x as i128) - (self.x as i128) * (o.z as i128);
        let cz = (self.x as i128) * (o.y as i128) - (self.y as i128) * (o.x as i128);
        let rx = tdiv128(cx, FX_ONE as i128);
        let ry = tdiv128(cy, FX_ONE as i128);
        let rz = tdiv128(cz, FX_ONE as i128);
        proof {
            lemma_tdiv_mag(cx as int, FX_ONE as int);
            lemma_tdiv_mag(cy as int, FX_ONE as int);
            lemma_tdiv_mag(cz as int, FX_ONE as int);
        }
        Vector3 { x: rx as i64, y: ry as i64, z: rz as i64 }
    }

    /// Floor of the exact Euclidean length.
    pub fn length(self) -> (r: i64)
        requires
            v3_wide_ok(self),
        ensures
            r as int == length_s(self),
            r >= 0,
            is_sqrt_floor(dot_s(self, self), r as int),
            abs_s(self.x as int) <= r as int,
            abs_s(self.y as int) <= r as int,
            abs_s(self.z as int) <= r as int,
    {
        proof {
            lemma_dot_self_bounds(self);
        }
        let d = self.dot_wide(self);
        let root = isqrt(d as u128);
        proof {
            lemma_sqrt_component_bound(self.x as int, d as int, root as int);
            lemma_sqrt_component_bound(self.y as int, d as int, root as int);
            lemma_sqrt_component_bound(self.z as int, d as int, root as int);
            lemma_root_fits(d as int, root as int);
        }
        root as i64
    }

    /// Direction of `v` at unit length (components rounded toward zero);
    /// the zero vector is returned unchanged. Rounding toward zero keeps
    /// the sign of every component.
    pub fn normalize(self) -> (r: Vector3)
        requires
            v3_wide_ok(self),
        ensures
            r == normalize_s(self),
            -FX_ONE <= r.x <= FX_ONE,
            -FX_ONE <= r.y <= FX_ONE,
            -FX_ONE <= r.z <= FX_ONE,
            self.x >= 0 ==> r.x >= 0,
            self.x <= 0 ==> r.x <= 0,
            self.y >= 0 ==> r.y >= 0,
            self.y <= 0 ==> r.y <= 0,
            self.z >= 0 ==> r.z >= 0,
            self.z <= 0 ==> r.z <= 0,
    {
        if self.x == 0 && self.y == 0 && self.z == 0 {
            self
        } else {
            let len = self.length();
            proof {
                lemma_nonzero_length_positive(self, len as int);
                lemma_normalize_component_fits(self.x as int, len as int);
                lemma_normalize_component_fits(self.y as int, len as int);
                lemma_normalize_component_fits(self.z as int, len as int);
                lemma_tdiv_sign(self.x as int * FX_ONE, len as int);
                lemma_tdiv_sign(self.y as int * FX_ONE, len as int);
                lemma_tdiv_sign(self.z as int * FX_ONE, len as int);
            }
            Vector3 { x: fx_div(self.x, len), y: fx_div(self.y, len), z: fx_div(self.z, len) }
        }
    }
}

proof fn lemma_dot_self_bounds(v: Vector3)
    requires
        v3_wide_ok(v),
    ensures
        0 <= dot_s(v, v),
        dot_s(v, v) <= u128::MAX,
        dot_s(v, v) < i128::MAX,
        dot_s(v, v) <= 0x3000_0000_0000_0000_0000_0000_0000_0000,
        v.x * v.x <= dot_s(v, v),
        v.y * v.y <= dot_s(v, v),
        v.z * v.z <= dot_s(v, v),
        v.x != 0 || v.y != 0 || v.z != 0 ==> 1 <= dot_s(v, v),
{
    assert(0 <= v.x * v.x && (v.x != 0 ==> 1 <= v.x * v.x)) by (nonlinear_arith);
    assert(0 <= v.y * v.y && (v.y != 0 ==> 1 <= v.y * v.y)) by (nonlinear_arith);
    assert(0 <= v.z * v.z && (v.z != 0 ==> 1 <= v.z * v.z)) by (nonlinear_arith);
    lemma_mul_bound(v.x as int, v.x as int, WIDE_MAX as int, WIDE_MAX as int);
    lemma_mul_bound(v.y as int, v.y as int, WIDE_MAX as int, WIDE_MAX as int);
    lemma_mul_bound(v.z as int, v.z as int, WIDE_MAX as int, WIDE_MAX as int);
}

/// A component is bounded by the floor square root of a sum of squares
/// it contributes to.
pub proof fn lemma_sqrt_component_bound(c: int, d: int, root: int)
    requires
        is_sqrt_floor(d, root),
        c * c <= d,
    ensures
        abs_s(c) <= root,
        root * root <= d,
{
    assert(abs_s(c) <= root) by (nonlinear_arith)
        requires
            0 <= root,
            d < (root + 1) * (root + 1),
            c * c <= d,
    ;
}

proof fn lemma_root_fits(d: int, root: int)
    requires
        is_sqrt_floor(d, root),
        d <= 0x3000_0000_0000_0000_0000_0000_0000_0000,
    ensures
        0 <= root <= i64::MAX,
{
    assert(root <= i64::MAX) by (nonlinear_arith)
        requires
            0 <= root,
            root * root <= 0x3000_0000_0000_0000_0000_0000_0000_0000,
    ;
}

proof fn lemma_nonzero_length_positive(v: Vector3, len: int)
    requires
        v3_wide_ok(v),
        is_sqrt_floor(dot_s(v, v), len),
        v.x != 0 || v.y != 0 || v.z != 0,
    ensures
        1 <= len,
{
    lemma_dot_self_bounds(v);
    assert(1 <= len) by (nonlinear_arith)
        requires
            0 <= len,
            1 <= dot_s(v, v),
            dot_s(v, v) < (len + 1) * (len + 1),
    ;
}

proof fn lemma_normalize_component_fits(c: int, len: int)
    requires
        1 <= len,
        abs_s(c) <= len,
    ensures
        i64::MIN <= fx_div_s(c, len) <= i64::MAX,
        abs_s(fx_div_s(c, len)) <= FX_ONE,
{
    lemma_tdiv_mag(c * FX_ONE, len);
    assert(abs_s(c * FX_ONE) == abs_s(c) * FX_ONE) by (nonlinear_arith);
    vstd::arithmetic::div_mod::lemma_div_is_ordered(abs_s(c) * FX_ONE, len * FX_ONE, len);
    assert(abs_s(c) * FX_ONE <= len * FX_ONE) by (nonlinear_arith)
        requires
            abs_s(c) <= len,
    ;
    vstd::arithmetic::div_mod::lemma_div_multiples_vanish(FX_ONE as int, len);
}

impl Point3 {
    /// The displacement from `o` to `self`.
    pub fn sub(self, o: Point3) -> (r: Vector3)
        requires
            i64::MIN <= self.x - o.x <= i64::MAX,
            i64::MIN <= self.y - o.y <= i64::MAX,
            i64::MIN <= self.z - o.z <= i64::MAX,
        ensures
            r.x == self.x - o.x,
            r.y == self.y - o.y,
            r.z == self.z - o.z,
    {
        Vector3 { x: self.x - o.x, y: self.y - o.y, z: self.z - o.z }
    }

    /// The point displaced by `v`.
    pub fn add_v(self, v: Vector3) -> (r: Point3)
        requires
            i64::MIN <= self.x + v.x <= i64::MAX,
            i64::MIN <= self.y + v.y <= i64::MAX,
            i64::MIN <= self.z + v.z <= i64::MAX,
        ensures
            r.x == self.x + v.x,
            r.y == self.y + v.y,
            r.z == self.z + v.z,
    {
        Point3 { x: self.x + v.x, y: self.y + v.y, z: self.z + v.z }
    }
}

/// `v1` if its angle with `v2` is at most 90 degrees, else `v1` flipped.
pub open spec fn face_forward_s(v1: Vector3, v2: Vector3) -> Vector3 {
    if dot_s(v1, v2) < 0 {
        neg3_s(v1)
    } else {
        v1
    }
}

/// The cross product of two derivative-range vectors can be normalized.
pub proof fn lemma_cross_s_wide_ok(a: Vector3, b: Vector3)
    requires
        v3_deriv_ok(a),
        v3_deriv_ok(b),
    ensures
        v3_wide_ok(cross_s(a, b)),
{
    lemma_mul_bound(a.y as int, b.z as int, DERIV_MAX as int, DERIV_MAX as int);
    lemma_mul_bound(a.z as int, b.y as int, DERIV_MAX as int, DERIV_MAX as int);
    lemma_mul_bound(a.z as int, b.x as int, DERIV_MAX as int, DERIV_MAX as int);
    lemma_mul_bound(a.x as int, b.z as int, DERIV_MAX as int, DERIV_MAX as int);
    lemma_mul_bound(a.x as int, b.y as int, DERIV_MAX as int, DERIV_MAX as int);
    lemma_mul_bound(a.y as int, b.x as int, DERIV_MAX as int, DERIV_MAX as int);
    lemma_tdiv_bound_by(a.y * b.z - a.z * b.y, FX_ONE as int, WIDE_MAX as int);
    lemma_tdiv_bound_by(a.z * b.x - a.x * b.z, FX_ONE as int, WIDE_MAX as int);
    lemma_tdiv_bound_by(a.x * b.y - a.y * b.x, FX_ONE as int, WIDE_MAX as int);
}

/// Normalization stays within the unit range and preserves every
/// component's sign.
pub proof fn lemma_normalize_s_bounds(v: Vector3)
    requires
        v3_wide_ok(v),
    ensures
        -FX_ONE <= normalize_s(v).x <= FX_ONE,
        -FX_ONE <= normalize_s(v).y <= FX_ONE,
        -FX_ONE <= normalize_s(v).z <= FX_ONE,
        v.x >= 0 ==> normalize_s(v).x >= 0,
        v.x <= 0 ==> normalize_s(v).x <= 0,
        v.y >= 0 ==> normalize_s(v).y >= 0,
        v.y <= 0 ==> normalize_s(v).y <= 0,
        v.z >= 0 ==> normalize_s(v).z >= 0,
        v.z <= 0 ==> normalize_s(v).z <= 0,
{
    if !(v.x == 0 && v.y == 0 && v.z == 0) {
        lemma_dot_self_bounds(v);
        lemma_sqrt_floor(dot_s(v, v));
        let len = sqrt_floor(dot_s(v, v));
        lemma_nonzero_length_positive(v, len);
        lemma_sqrt_component_bound(v.x as int, dot_s(v, v), len);
        lemma_sqrt_component_bound(v.y as int, dot_s(v, v), len);
        lemma_sqrt_component_bound(v.z as int, dot_s(v, v), len);
        lemma_normalize_component_fits(v.x as int, len);
        lemma_normalize_component_fits(v.y as int, len);
        lemma_normalize_component_fits(v.z as int, len);
        lemma_tdiv_sign(v.x as int * FX_ONE, len);
        lemma_tdiv_sign(v.y as int * FX_ONE, len);
        lemma_tdiv_sign(v.z as int * FX_ONE, len);
    }
}

/// If the angle between `v1` and `v2` is at most 90 degrees, return `v1`;
/// otherwise return `v1` flipped, so that the result lies in the same
/// hemisphere as `v2`.
pub fn face_forward(v1: Vector3, v2: Vector3) -> (r: Vector3)
    requires
        v3_wide_ok(v1),
        v3_wide_ok(v2),
    ensures
        r == face_forward_s(v1, v2),
        dot_s(r, v2) == abs_s(dot_s(v1, v2)),
{
    let d = v1.dot_wide(v2);
    if d < 0 {
        proof {
            assert(dot_s(neg3_s(v1), v2) == -dot_s(v1, v2)) by (nonlinear_arith)
                requires
                    neg3_s(v1).x == -v1.x && neg3_s(v1).y == -v1.y && neg3_s(v1).z == -v1.z,
            ;
        }
        v1.neg()
    } else {
        v1
    }
}

} // verus!
