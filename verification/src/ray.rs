//! Rays and ray differentials. A ray is a parametric segment
//! `origin + t * direction` for `0 < t < t_max`; a ray differential carries
//! two auxiliary rays offset by one image-plane sample, used only for
//! texture-filter footprint estimation.

use crate::fx::{fx_mul_s, fx_mul, tdiv128, tdiv_s, lemma_tdiv_bound_by, FX_ONE};
use crate::scalar::Scalar;
use crate::vector::{p3_in_range, v3_in_range, Point3, Vector3, COORD_MAX};
use vstd::prelude::*;

verus! {

/// Largest ray parameter the kernel computes with: every slab or quadric
/// parameter of in-range geometry provably stays below it.
pub const T_MAX_FX: i64 = 0x8000_0000_0000;

/// An opaque handle to a participating medium. The kernel stores and
/// forwards it; it never inspects the medium itself.
#[derive(Clone, Copy, PartialEq, Eq, Structural, Debug)]
pub struct Medium {
    pub id: u64,
}

/// The media on the two sides of a surface, by opaque handle.
#[derive(Clone, Copy, PartialEq, Eq, Structural, Debug)]
pub struct MediumInterface {
    pub inside: Option<Medium>,
    pub outside: Option<Medium>,
}

/// A parametric line segment with an upper parameter bound, a time value
/// for animated scenes, and the medium containing the origin.
#[derive(Clone, Copy, Debug)]
pub struct Ray {
    pub origin: Point3,
    pub direction: Vector3,
    /// The upper bound of t in the ray's parametric equation,
    /// r(t) = o + t*d, 0 < t < t_max. May be `PosInf` for an unbounded ray;
    /// never unorderable.
    pub t_max: Scalar,
    /// A time value used when rendering an animated scene.
    pub time: i64,
    /// The medium containing the ray's origin, used to account for effects
    /// when a ray passes from one medium into another.
    pub medium: Option<Medium>,
}

/// The ray's geometry is within the kernel's accepted range and its
/// parameter bound is orderable.
pub open spec fn ray_in_range(r: Ray) -> bool {
    &&& p3_in_range(r.origin)
    &&& v3_in_range(r.direction)
    &&& !r.t_max.is_nan()
}

/// The point `origin + t * direction`, each component rounded toward zero.
pub open spec fn ray_at_s(r: Ray, t: int) -> Point3 {
    Point3 {
        x: (r.origin.x + tdiv_s(t * r.direction.x, FX_ONE as int)) as i64,
        y: (r.origin.y + tdiv_s(t * r.direction.y, FX_ONE as int)) as i64,
        z: (r.origin.z + tdiv_s(t * r.direction.z, FX_ONE as int)) as i64,
    }
}

impl Ray {
    /// The position along the ray at parameter `t`.
    pub fn at_t(&self, t: i64) -> (p: Point3)
        requires
            ray_in_range(*self),
            -T_MAX_FX <= t <= T_MAX_FX,
        ensures
            p == ray_at_s(*self, t as int),
    {
        let x = at_component(self.origin.x, self.direction.x, t);
        let y = at_component(self.origin.y, self.direction.y, t);
        let z = at_component(self.origin.z, self.direction.z, t);
        Point3 { x, y, z }
    }
}

/// One component of `origin + t * direction`.
fn at_component(o: i64, d: i64, t: i64) -> (r: i64)
    requires
        -COORD_MAX <= o <= COORD_MAX,
        -COORD_MAX <= d <= COORD_MAX,
        -T_MAX_FX <= t <= T_MAX_FX,
    ensures
        r as int == o + tdiv_s(t * d, FX_ONE as int),
{
    proof {
        assert(-0x2000_0000_0000_0000_0000 <= (t as int) * (d as int)
            <= 0x2000_0000_0000_0000_0000) by (nonlinear_arith)
            requires
                -COORD_MAX <= d <= COORD_MAX,
                -T_MAX_FX <= t <= T_MAX_FX,
        ;
    }
    let wide: i128 = (t as i128) * (d as i128);
    let q = tdiv128(wide, FX_ONE as i128);
    proof {
        lemma_tdiv_bound_by(wide as int, FX_ONE as int, 0x2000_0000_0000_0000);
    }
    o + (q as i64)
}

impl Default for Ray {
    /// The zero ray: origin and direction at the origin, an empty
    /// parameter range, time zero, no medium.
    fn default() -> (r: Ray)
        ensures
            r.origin == (Point3 { x: 0, y: 0, z: 0 }),
            r.direction == (Vector3 { x: 0, y: 0, z: 0 }),
            r.t_max == Scalar::Finite(0),
            r.time == 0,
            r.medium is None,
    {
        Ray {
            origin: Point3 { x: 0, y: 0, z: 0 },
            direction: Vector3 { x: 0, y: 0, z: 0 },
            t_max: Scalar::Finite(0),
            time: 0,
            medium: None,
        }
    }
}

/// A primary ray along with two auxiliary rays, offset from the primary
/// ray by one sample in the x and y directions on the film plane.
#[derive(Clone, Copy, Debug)]
pub struct RayDifferential {
    pub primary: Ray,
    pub has_differentials: bool,
    /// Origin of the ray offset by one sample in x on the film plane.
    pub dx_origin: Point3,
    /// Direction of the ray offset by one sample in x on the film plane.
    pub dx_direction: Vector3,
    /// Origin of the ray offset by one sample in y on the film plane.
    pub dy_origin: Point3,
    /// Direction of the ray offset by one sample in y on the film plane.
    pub dy_direction: Vector3,
}

/// `base + (aux - base) * factor`, one component at a time.
pub open spec fn recentre_s(base: int, aux: int, factor: int) -> int {
    base + fx_mul_s(aux - base, factor)
}

impl RayDifferential {
    /// Scale the sample distance between the auxiliary rays and the primary
    /// ray by the given fixed-point factor.
    pub fn scale_sample_distance(&mut self, factor: i64)
        requires
            p3_in_range(old(self).primary.origin),
            v3_in_range(old(self).primary.direction),
            p3_in_range(old(self).dx_origin),
            p3_in_range(old(self).dy_origin),
            v3_in_range(old(self).dx_direction),
            v3_in_range(old(self).dy_direction),
            -COORD_MAX <= factor <= COORD_MAX,
        ensures
            final(self).primary == old(self).primary,
            final(self).has_differentials == old(self).has_differentials,
            final(self).dx_origin.x == recentre_s(
                old(self).primary.origin.x as int,
                old(self).dx_origin.x as int,
                factor as int,
            ),
            final(self).dx_origin.y == recentre_s(
                old(self).primary.origin.y as int,
                old(self).dx_origin.y as int,
                factor as int,
            ),
            final(self).dx_origin.z == recentre_s(
                old(self).primary.origin.z as int,
                old(self).dx_origin.z as int,
                factor as int,
            ),
            final(self).dy_origin.x == recentre_s(
                old(self).primary.origin.x as int,
                old(self).dy_origin.x as int,
                factor as int,
            ),
            final(self).dy_origin.y == recentre_s(
                old(self).primary.origin.y as int,
                old(self).dy_origin.y as int,
                factor as int,
            ),
            final(self).dy_origin.z == recentre_s(
                old(self).primary.origin.z as int,
                old(self).dy_origin.z as int,
                factor as int,
            ),
            final(self).dx_direction.x == recentre_s(
                old(self).primary.direction.x as int,
                old(self).dx_direction.x as int,
                factor as int,
            ),
            final(self).dx_direction.y == recentre_s(
                old(self).primary.direction.y as int,
                old(self).dx_direction.y as int,
                factor as int,
            ),
            final(self).dx_direction.z == recentre_s(
                old(self).primary.direction.z as int,
                old(self).dx_direction.z as int,
                factor as int,
            ),
            final(self).dy_direction.x == recentre_s(
                old(self).primary.direction.x as int,
                old(self).dy_direction.x as int,
                factor as int,
            ),
            final(self).dy_direction.y == recentre_s(
                old(self).primary.direction.y as int,
                old(self).dy_direction.y as int,
                factor as int,
            ),
            final(self).dy_direction.z == recentre_s(
                old(self).primary.direction.z as int,
                old(self).dy_direction.z as int,
                factor as int,
            ),
    {
        self.dx_origin = Point3 {
            x: recentre(self.primary.origin.x, self.dx_origin.x, factor),
            y: recentre(self.primary.origin.y, self.dx_origin.y, factor),
            z: recentre(self.primary.origin.z, self.dx_origin.z, factor),
        };
        self.dy_origin = Point3 {
            x: recentre(self.primary.origin.x, self.dy_origin.x, factor),
            y: recentre(self.primary.origin.y, self.dy_origin.y, factor),
            z: recentre(self.primary.origin.z, self.dy_origin.z, factor),
        };
        self.dx_direction = Vector3 {
            x: recentre(self.primary.direction.x, self.dx_direction.x, factor),
            y: recentre(self.primary.direction.y, self.dx_direction.y, factor),
            z: recentre(self.primary.direction.z, self.dx_direction.z, factor),
        };
        self.dy_direction = Vector3 {
            x: recentre(self.primary.direction.x, self.dy_direction.x, factor),
            y: recentre(self.primary.direction.y, self.dy_direction.y, factor),
            z: recentre(self.primary.direction.z, self.dy_direction.z, factor),
        };
    }
}

/// One component of re-centring an auxiliary value around a base value.
fn recentre(base: i64, aux: i64, factor: i64) -> (r: i64)
    requires
        -COORD_MAX <= base <= COORD_MAX,
        -COORD_MAX <= aux <= COORD_MAX,
        -COORD_MAX <= factor <= COORD_MAX,
    ensures
        r as int == recentre_s(base as int, aux as int, factor as int),
{
    proof {
        lemma_recentre_fits(base as int, aux as int, factor as int);
    }
    let scaled = fx_mul(aux - base, factor);
    base + scaled
}

proof fn lemma_recentre_fits(base: int, aux: int, factor: int)
    requires
        -COORD_MAX <= base <= COORD_MAX,
        -COORD_MAX <= aux <= COORD_MAX,
        -COORD_MAX <= factor <= COORD_MAX,
    ensures
        i64::MIN <= fx_mul_s(aux - base, factor) <= i64::MAX,
        i64::MIN <= base + fx_mul_s(aux - base, factor) <= i64::MAX,
{
    assert(-0x2000_0000_0000_0000 <= (aux - base) * factor <= 0x2000_0000_0000_0000)
        by (nonlinear_arith)
        requires
            -2 * COORD_MAX <= aux - base <= 2 * COORD_MAX,
            -COORD_MAX <= factor <= COORD_MAX,
    ;
    lemma_tdiv_bound_by((aux - base) * factor, FX_ONE as int, 0x2000_0000_0000_0000);
}

impl Default for RayDifferential {
    /// The zero ray differential: a default primary ray, no differentials,
    /// and zero auxiliary origins and directions.
    fn default() -> (r: RayDifferential)
        ensures
            r.primary.origin == (Point3 { x: 0, y: 0, z: 0 }),
            r.primary.direction == (Vector3 { x: 0, y: 0, z: 0 }),
            r.primary.t_max == Scalar::Finite(0),
            r.primary.time == 0,
            r.primary.medium is None,
            !r.has_differentials,
            r.dx_origin == (Point3 { x: 0, y: 0, z: 0 }),
            r.dx_direction == (Vector3 { x: 0, y: 0, z: 0 }),
            r.dy_origin == (Point3 { x: 0, y: 0, z: 0 }),
            r.dy_direction == (Vector3 { x: 0, y: 0, z: 0 }),
    {
        RayDifferential {
            primary: Ray::default(),
            has_differentials: false,
            dx_origin: Point3 { x: 0, y: 0, z: 0 },
            dx_direction: Vector3 { x: 0, y: 0, z: 0 },
            dy_origin: Point3 { x: 0, y: 0, z: 0 },
            dy_direction: Vector3 { x: 0, y: 0, z: 0 },
        }
    }
}

} // verus!
