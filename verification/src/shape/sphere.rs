//! Spheres, centred at the origin of their object space and optionally
//! clipped to a z range and an azimuthal sweep. Ray intersection solves
//! the quadric equation exactly on wide integers; the only rounding sites
//! are the discriminant's square root (enclosed by its floor) and the
//! final division, so clip tests and root selection are deterministic and
//! fully specified.

use crate::bounds::{from_corners_s, max_i, min_i, Bounds3};
use crate::fx::{
    fx_div, fx_div_s, fx_mul, fx_mul_s, isqrt, lemma_tdiv_bound_by, lemma_tdiv_sign, sqrt_floor,
    tdiv128, tdiv_s, FX_ONE,
};
use crate::interaction::{hit_err, hit_err_s, make_si_s, xform_interaction_s, SurfaceInteraction};
use crate::ray::{ray_at_s, ray_in_range, Ray, T_MAX_FX};
use crate::scalar::Scalar;
use crate::shape::{GenericShape, TransformArena};
use crate::transform::{
    warp_bounds_s, xform_point_s, xform_ray_s, xform_vector_s, AffineTransform, Matrix4,
    SwapHandedness, Transform, VEC_XFORM_MAX,
};
use crate::vector::{
    dot_s, lemma_mul_bound, lemma_sqrt_component_bound, neg3_s, p3_in_range, v3_in_range, Point2,
    Point3, Vector3, COORD_MAX,
};
use vstd::prelude::*;

verus! {

/// A sphere of the given radius centred at the origin in object space,
/// optionally clipped to `[z_min, z_max]` and to an azimuthal sweep.
pub struct Sphere {
    /// Handle of the object-to-world transform pair in the arena.
    pub object_to_world: usize,
    /// Whether normals are flipped to point toward the shape's outside.
    pub reverse_orientation: bool,
    /// Cached: whether the object-to-world transform swaps handedness.
    pub object_to_world_swaps_handedness: bool,
    /// The sphere's radius.
    pub radius: i64,
    /// Lower z clip, clamped into `[-radius, radius]` at construction.
    pub z_min: i64,
    /// Upper z clip, clamped into `[-radius, radius]` at construction.
    pub z_max: i64,
    /// The azimuthal sweep as an angle in fixed-point radians, in
    /// `[0, 2 pi]`; read only by `surface_area`.
    pub phi_max: i64,
    /// The same azimuthal sweep in the kernel's exact azimuth measure
    /// (see `azimuth_s`), in `[0, 4]` at fixed-point scale; decides the
    /// clip test and the u coordinate.
    pub sweep: i64,
}

/// The exact, division-free azimuth measure: a strictly increasing,
/// piecewise-rational surrogate for the angle of (x, y), running from 0
/// (along +x) to 4 (back to +x) at fixed-point scale as the angle runs
/// from 0 to 2 pi. One quarter turn spans one unit.
pub open spec fn azimuth_s(x: i64, y: i64) -> int {
    if x == 0 && y == 0 {
        0
    } else if x >= 0 && y >= 0 {
        tdiv_s(y * FX_ONE, x + y)
    } else if x < 0 && y >= 0 {
        FX_ONE + tdiv_s(-x * FX_ONE, -x + y)
    } else if x < 0 && y < 0 {
        2 * FX_ONE + tdiv_s(-y * FX_ONE, -x - y)
    } else {
        3 * FX_ONE + tdiv_s(x * FX_ONE, x - y)
    }
}

/// The exact azimuth measure of (x, y).
pub fn azimuth(x: i64, y: i64) -> (r: i64)
    requires
        -COORD_MAX <= x <= COORD_MAX,
        -COORD_MAX <= y <= COORD_MAX,
    ensures
        r as int == azimuth_s(x, y),
        0 <= r <= 4 * FX_ONE,
{
    if x == 0 && y == 0 {
        0
    } else if x >= 0 && y >= 0 {
        proof {
            lemma_azimuth_frac(y as int, x + y);
        }
        tdiv128((y as i128) * (FX_ONE as i128), (x + y) as i128) as i64
    } else if x < 0 && y >= 0 {
        proof {
            lemma_azimuth_frac(-x as int, -x + y);
        }
        FX_ONE + (tdiv128((-x as i128) * (FX_ONE as i128), (-x + y) as i128) as i64)
    } else if x < 0 && y < 0 {
        proof {
            lemma_azimuth_frac(-y as int, -x - y);
        }
        2 * FX_ONE + (tdiv128((-y as i128) * (FX_ONE as i128), (-x - y) as i128) as i64)
    } else {
        proof {
            lemma_azimuth_frac(x as int, x - y);
        }
        3 * FX_ONE + (tdiv128((x as i128) * (FX_ONE as i128), (x - y) as i128) as i64)
    }
}

proof fn lemma_azimuth_frac(n: int, d: int)
    requires
        0 <= n <= d,
        1 <= d,
    ensures
        0 <= tdiv_s(n * FX_ONE, d) <= FX_ONE,
{
    lemma_tdiv_sign(n * FX_ONE, d);
    assert(n * FX_ONE <= FX_ONE as int * d) by (nonlinear_arith)
        requires
            0 <= n <= d,
    ;
    lemma_tdiv_bound_by(n * FX_ONE, d, FX_ONE as int);
}

impl Sphere {
    /// The orientation attributes the sphere carries.
    pub open spec fn shape_s(self) -> GenericShape {
        GenericShape {
            reverse_orientation: self.reverse_orientation,
            transform_swaps_handedness: self.object_to_world_swaps_handedness,
        }
    }

    /// The parameters are within the kernel's accepted ranges, with the z
    /// clips ordered and inside the radius.
    pub open spec fn wf_data(self) -> bool {
        &&& 0 <= self.radius <= COORD_MAX
        &&& -self.radius <= self.z_min <= self.z_max <= self.radius
        &&& 0 <= self.sweep <= 4 * FX_ONE
        &&& 0 <= self.phi_max <= 7 * FX_ONE
    }

    /// The sphere's transform handle is valid in the arena and the cached
    /// handedness flag matches the stored transform.
    pub open spec fn wf_with(self, arena: TransformArena) -> bool {
        &&& arena.wf()
        &&& arena.valid_handle(self.object_to_world)
        &&& self.object_to_world_swaps_handedness == arena.seq_s()[
            self.object_to_world as int
        ].swaps_handedness_s()
    }

    /// Builds a sphere, sorting and clamping the z clips into
    /// `[-radius, radius]` and caching the transform's handedness flag.
    pub fn new(
        arena: &TransformArena,
        object_to_world: usize,
        reverse_orientation: bool,
        radius: i64,
        z_min: i64,
        z_max: i64,
        phi_max: i64,
        sweep: i64,
    ) -> (r: Sphere)
        requires
            arena.wf(),
            arena.valid_handle(object_to_world),
            0 <= radius <= COORD_MAX,
            -COORD_MAX <= z_min <= COORD_MAX,
            -COORD_MAX <= z_max <= COORD_MAX,
            0 <= sweep <= 4 * FX_ONE,
            0 <= phi_max <= 7 * FX_ONE,
        ensures
            r.object_to_world == object_to_world,
            r.reverse_orientation == reverse_orientation,
            r.radius == radius,
            r.z_min == max_i((-radius) as i64, min_i(min_i(z_min, z_max), radius)),
            r.z_max == max_i((-radius) as i64, min_i(max_i(z_min, z_max), radius)),
            r.phi_max == phi_max,
            r.sweep == sweep,
            r.wf_data(),
            r.wf_with(*arena),
    {
        let lo = if z_min <= z_max {
            z_min
        } else {
            z_max
        };
        let hi = if z_min <= z_max {
            z_max
        } else {
            z_min
        };
        let lo = if lo > radius {
            radius
        } else if lo < -radius {
            -radius
        } else {
            lo
        };
        let hi = if hi > radius {
            radius
        } else if hi < -radius {
            -radius
        } else {
            hi
        };
        let swaps = arena.get(object_to_world).swaps_handedness();
        Sphere {
            object_to_world,
            reverse_orientation,
            object_to_world_swaps_handedness: swaps,
            radius,
            z_min: lo,
            z_max: hi,
            phi_max,
            sweep,
        }
    }

    /// The matrix that takes the sphere from object space to world space.
    pub fn object_to_world(&self, arena: &TransformArena) -> (r: Matrix4)
        requires
            self.wf_with(*arena),
        ensures
            r == arena.seq_s()[self.object_to_world as int].matrix_s(),
    {
        arena.get(self.object_to_world).matrix()
    }

    /// The matrix that takes the sphere from world space to object space.
    pub fn world_to_object(&self, arena: &TransformArena) -> (r: Matrix4)
        requires
            self.wf_with(*arena),
        ensures
            r == arena.seq_s()[self.object_to_world as int].inverse_s(),
    {
        arena.get(self.object_to_world).inverse()
    }

    /// Whether the sphere's transform swaps coordinate-system handedness.
    pub fn object_to_world_swaps_handedness(&self) -> (r: bool)
        ensures
            r == self.object_to_world_swaps_handedness,
    {
        self.object_to_world_swaps_handedness
    }

    /// Whether the sphere's normals are flipped to point outside.
    pub fn reverse_orientation(&self) -> (r: bool)
        ensures
            r == self.reverse_orientation,
    {
        self.reverse_orientation
    }

    /// The box the sphere occupies in its object space.
    pub open spec fn object_bound_s(self) -> Bounds3 {
        from_corners_s(
            Point3 { x: (-self.radius) as i64, y: (-self.radius) as i64, z: self.z_min },
            Point3 { x: self.radius, y: self.radius, z: self.z_max },
        )
    }

    /// Returns an axis-aligned bounding box in the sphere's object space.
    pub fn object_bound(&self) -> (r: Bounds3)
        requires
            self.wf_data(),
        ensures
            r == self.object_bound_s(),
            r.wf(),
            r.in_range(),
    {
        Bounds3::from_corners(
            Point3 { x: -self.radius, y: -self.radius, z: self.z_min },
            Point3 { x: self.radius, y: self.radius, z: self.z_max },
        )
    }

    /// Returns an axis-aligned bounding box in world space, by warping
    /// the object-space box through the transform.
    pub fn world_bound(&self, arena: &TransformArena) -> (r: Bounds3)
        requires
            self.wf_data(),
            self.wf_with(*arena),
        ensures
            r == warp_bounds_s(
                arena.seq_s()[self.object_to_world as int].matrix_s(),
                self.object_bound_s(),
            ),
    {
        let t = arena.get(self.object_to_world);
        let ob = self.object_bound();
        t.transform(&ob)
    }

    /// The sphere's surface area: sweep times radius times the z extent.
    pub fn surface_area(&self) -> (r: i64)
        requires
            self.wf_data(),
        ensures
            r == fx_mul_s(fx_mul_s(self.phi_max as int, self.radius as int), self.z_max - self.z_min),
    {
        proof {
            lemma_mul_bound(
                self.phi_max as int,
                self.radius as int,
                7 * FX_ONE as int,
                COORD_MAX as int,
            );
            lemma_tdiv_bound_by(self.phi_max * self.radius, FX_ONE as int, 7 * COORD_MAX as int);
            lemma_mul_bound(
                fx_mul_s(self.phi_max as int, self.radius as int),
                self.z_max - self.z_min,
                7 * COORD_MAX as int,
                2 * COORD_MAX as int,
            );
            lemma_tdiv_bound_by(
                fx_mul_s(self.phi_max as int, self.radius as int) * (self.z_max - self.z_min),
                FX_ONE as int,
                0xE000_0000_0000,
            );
        }
        fx_mul(fx_mul(self.phi_max, self.radius), self.z_max - self.z_min)
    }

    /// Whether the candidate parameter is an accepted hit: inside
    /// (0, t_max) and the representable range, with the hit point in
    /// range and passing the z and azimuth clips.
    pub open spec fn accept_s(self, oray: Ray, t: int) -> bool {
        let p = ray_at_s(oray, t);
        &&& 0 < t <= T_MAX_FX
        &&& Scalar::Finite(t as i64).lt_spec(oray.t_max)
        &&& p3_in_range(p)
        &&& self.z_min <= p.z <= self.z_max
        &&& (self.sweep >= 4 * FX_ONE || azimuth_s(p.x, p.y) <= self.sweep)
    }

    /// The accepted root of the quadric, if any: the nearer root first,
    /// and the farther root still tried when the nearer one fails a clip.
    pub open spec fn hit_choice_s(self, oray: Ray) -> Option<int> {
        let o = Vector3 { x: oray.origin.x, y: oray.origin.y, z: oray.origin.z };
        let d = oray.direction;
        let a = dot_s(d, d);
        let b = 2 * dot_s(o, d);
        let c = dot_s(o, o) - self.radius * self.radius;
        if a == 0 {
            None
        } else {
            let disc = b * b - 4 * (a * c);
            if disc < 0 {
                None
            } else {
                let root = sqrt_floor(disc);
                let t0 = tdiv_s((-b - root) * FX_ONE, 2 * a);
                let t1 = tdiv_s((-b + root) * FX_ONE, 2 * a);
                if self.accept_s(oray, t0) {
                    Some(t0)
                } else if self.accept_s(oray, t1) {
                    Some(t1)
                } else {
                    None
                }
            }
        }
    }

    /// The position partials of the sphere's parameterization at an
    /// object-space point: u along the azimuth, v along z. Their cross
    /// product points out of the sphere; at a pole a fixed tangent frame
    /// with the same property stands in.
    pub open spec fn partials_s(p: Point3) -> (Vector3, Vector3) {
        if p.x == 0 && p.y == 0 {
            (Vector3 { x: FX_ONE, y: 0, z: 0 }, Vector3 { x: 0, y: p.z, z: 0 })
        } else {
            let rxy = sqrt_floor(p.x * p.x + p.y * p.y);
            (
                Vector3 { x: (-p.y) as i64, y: p.x, z: 0 },
                Vector3 {
                    x: (-tdiv_s(p.x * p.z, rxy)) as i64,
                    y: (-tdiv_s(p.y * p.z, rxy)) as i64,
                    z: rxy as i64,
                },
            )
        }
    }

    /// The normal partials: the position partials shrunk by the radius,
    /// or zero for a sphere too small to divide by.
    pub open spec fn normal_partials_s(self, dpdu: Vector3, dpdv: Vector3) -> (Vector3, Vector3) {
        if self.radius < 2 {
            (Vector3 { x: 0, y: 0, z: 0 }, Vector3 { x: 0, y: 0, z: 0 })
        } else {
            let du = Vector3 {
                x: fx_div_s(dpdu.x as int, self.radius as int) as i64,
                y: fx_div_s(dpdu.y as int, self.radius as int) as i64,
                z: fx_div_s(dpdu.z as int, self.radius as int) as i64,
            };
            let dv = Vector3 {
                x: fx_div_s(dpdv.x as int, self.radius as int) as i64,
                y: fx_div_s(dpdv.y as int, self.radius as int) as i64,
                z: fx_div_s(dpdv.z as int, self.radius as int) as i64,
            };
            if -VEC_XFORM_MAX <= dv.z <= VEC_XFORM_MAX {
                (du, dv)
            } else {
                (Vector3 { x: 0, y: 0, z: 0 }, Vector3 { x: 0, y: 0, z: 0 })
            }
        }
    }

    /// The object-space interaction record at an accepted parameter.
    pub open spec fn object_si_s(self, oray: Ray, t: int) -> SurfaceInteraction {
        let p = ray_at_s(oray, t);
        let u = if self.sweep <= 0 {
            0int
        } else {
            tdiv_s(azimuth_s(p.x, p.y) * FX_ONE, self.sweep as int)
        };
        let v = if self.z_max == self.z_min {
            0int
        } else {
            tdiv_s((p.z - self.z_min) * FX_ONE, self.z_max - self.z_min)
        };
        let partials = Self::partials_s(p);
        let dnds = self.normal_partials_s(partials.0, partials.1);
        make_si_s(
            p,
            hit_err_s(oray.direction),
            Some(neg3_s(oray.direction)),
            oray.time,
            self.shape_s(),
            Point2 { x: u as i64, y: v as i64 },
            partials.0,
            partials.1,
            dnds.0,
            dnds.1,
        )
    }

    /// Returns information about the first ray/sphere intersection, if
    /// any, in the (0, t_max) parametric range along the ray.
    ///
    /// `ray` is in world space; it is carried into the sphere's object
    /// space, the quadric is solved there, and the returned surface
    /// interaction is expressed back in world space. The sphere has no
    /// alpha texture, so `test_alpha_texture` has no effect.
    pub fn ray_intersection(
        &self,
        arena: &TransformArena,
        ray: &Ray,
        test_alpha_texture: bool,
    ) -> (r: Option<(i64, SurfaceInteraction)>)
        requires
            self.wf_data(),
            self.wf_with(*arena),
            ray_in_range(*ray),
            p3_in_range(
                xform_point_s(
                    arena.seq_s()[self.object_to_world as int].inverse_s(),
                    ray.origin,
                ),
            ),
            v3_in_range(
                xform_vector_s(
                    arena.seq_s()[self.object_to_world as int].inverse_s(),
                    ray.direction,
                ),
            ),
        ensures
            ({
                let tf = arena.seq_s()[self.object_to_world as int];
                let oray = xform_ray_s(tf.inverse_s(), *ray);
                &&& (r is Some <==> self.hit_choice_s(oray) is Some)
                &&& (r matches Some(hit) ==> self.hit_choice_s(oray) matches Some(t) && hit.0 == t
                    && hit.1 == xform_interaction_s(tf, self.object_si_s(oray, t)))
            }),
    {
        let tf = arena.get(self.object_to_world);
        let oray = tf.inv_transform_ray(ray);
        let o = Vector3 { x: oray.origin.x, y: oray.origin.y, z: oray.origin.z };
        let d = oray.direction;
        proof {
            lemma_mul_bound(o.x as int, d.x as int, COORD_MAX as int, COORD_MAX as int);
            lemma_mul_bound(o.y as int, d.y as int, COORD_MAX as int, COORD_MAX as int);
            lemma_mul_bound(o.z as int, d.z as int, COORD_MAX as int, COORD_MAX as int);
            lemma_mul_bound(o.x as int, o.x as int, COORD_MAX as int, COORD_MAX as int);
            lemma_mul_bound(o.y as int, o.y as int, COORD_MAX as int, COORD_MAX as int);
            lemma_mul_bound(o.z as int, o.z as int, COORD_MAX as int, COORD_MAX as int);
            lemma_mul_bound(d.x as int, d.x as int, COORD_MAX as int, COORD_MAX as int);
            lemma_mul_bound(d.y as int, d.y as int, COORD_MAX as int, COORD_MAX as int);
            lemma_mul_bound(d.z as int, d.z as int, COORD_MAX as int, COORD_MAX as int);
            lemma_mul_bound(self.radius as int, self.radius as int, COORD_MAX as int, COORD_MAX as int);
        }
        let a: i128 = (d.x as i128) * (d.x as i128) + (d.y as i128) * (d.y as i128) + (d.z as i128)
            * (d.z as i128);
        if a == 0 {
            return None;
        }
        let b: i128 = 2 * ((o.x as i128) * (d.x as i128) + (o.y as i128) * (d.y as i128) + (o.z
            as i128) * (d.z as i128));
        let c: i128 = (o.x as i128) * (o.x as i128) + (o.y as i128) * (o.y as i128) + (o.z as i128)
            * (o.z as i128) - (self.radius as i128) * (self.radius as i128);
        proof {
            lemma_mul_bound(b as int, b as int, 0x6000_0000_0000_0000, 0x6000_0000_0000_0000);
            lemma_mul_bound(a as int, c as int, 0x3000_0000_0000_0000, 0x4000_0000_0000_0000);
        }
        let ac: i128 = a * c;
        let disc: i128 = b * b - 4 * ac;
        if disc < 0 {
            return None;
        }
        let root128 = isqrt(disc as u128);
        proof {
            lemma_disc_root_fits(disc as int, root128 as int);
        }
        let root: i128 = root128 as i128;
        let t0 = tdiv128((-b - root) * (FX_ONE as i128), 2 * a);
        let t1 = tdiv128((-b + root) * (FX_ONE as i128), 2 * a);
        if self.accept(&oray, t0) {
            Some(self.build_hit(tf, &oray, t0 as i64))
        } else if self.accept(&oray, t1) {
            Some(self.build_hit(tf, &oray, t1 as i64))
        } else {
            None
        }
    }

    /// Returns a boolean indicating whether the ray intersects the
    /// sphere, without keeping the interaction record.
    pub fn does_ray_intersect(
        &self,
        arena: &TransformArena,
        ray: &Ray,
        test_alpha_texture: bool,
    ) -> (r: bool)
        requires
            self.wf_data(),
            self.wf_with(*arena),
            ray_in_range(*ray),
            p3_in_range(
                xform_point_s(
                    arena.seq_s()[self.object_to_world as int].inverse_s(),
                    ray.origin,
                ),
            ),
            v3_in_range(
                xform_vector_s(
                    arena.seq_s()[self.object_to_world as int].inverse_s(),
                    ray.direction,
                ),
            ),
        ensures
            r == (self.hit_choice_s(
                xform_ray_s(arena.seq_s()[self.object_to_world as int].inverse_s(), *ray),
            ) is Some),
    {
        self.ray_intersection(arena, ray, test_alpha_texture).is_some()
    }

    /// The clip and range test of `accept_s`.
    fn accept(&self, oray: &Ray, t: i128) -> (r: bool)
        requires
            self.wf_data(),
            ray_in_range(*oray),
            p3_in_range(oray.origin),
        ensures
            r == self.accept_s(*oray, t as int),
    {
        if !(0 < t && t <= T_MAX_FX as i128) {
            return false;
        }
        let t64 = t as i64;
        if !Scalar::Finite(t64).lt(oray.t_max) {
            return false;
        }
        let p = oray.at_t(t64);
        if !(-COORD_MAX <= p.x && p.x <= COORD_MAX && -COORD_MAX <= p.y && p.y <= COORD_MAX
            && -COORD_MAX <= p.z && p.z <= COORD_MAX) {
            return false;
        }
        if !(self.z_min <= p.z && p.z <= self.z_max) {
            return false;
        }
        if self.sweep >= 4 * FX_ONE {
            return true;
        }
        azimuth(p.x, p.y) <= self.sweep
    }

    /// Builds the world-space hit record at an accepted parameter.
    fn build_hit(&self, tf: &AffineTransform, oray: &Ray, t: i64) -> (r: (i64, SurfaceInteraction))
        requires
            self.wf_data(),
            tf.wf(),
            ray_in_range(*oray),
            p3_in_range(oray.origin),
            self.accept_s(*oray, t as int),
        ensures
            r.0 == t,
            r.1 == xform_interaction_s(*tf, self.object_si_s(*oray, t as int)),
    {
        let p = oray.at_t(t);
        let az = azimuth(p.x, p.y);
        let u: i64 = if self.sweep <= 0 {
            0
        } else {
            proof {
                lemma_u_fits(az as int, self.sweep as int);
            }
            tdiv128((az as i128) * (FX_ONE as i128), self.sweep as i128) as i64
        };
        let v: i64 = if self.z_max == self.z_min {
            0
        } else {
            proof {
                lemma_v_fits(p.z as int, self.z_min as int, self.z_max as int);
            }
            tdiv128(((p.z - self.z_min) as i128) * (FX_ONE as i128), (self.z_max - self.z_min)
                as i128) as i64
        };
        let (dpdu, dpdv) = sphere_partials(p);
        let (dndu, dndv) = self.normal_partials(dpdu, dpdv);
        let si = SurfaceInteraction::new(
            p,
            hit_err(&oray.direction),
            Some(oray.direction.neg()),
            oray.time,
            GenericShape {
                reverse_orientation: self.reverse_orientation,
                transform_swaps_handedness: self.object_to_world_swaps_handedness,
            },
            Point2 { x: u, y: v },
            dpdu,
            dpdv,
            dndu,
            dndv,
        );
        (t, tf.transform(&si))
    }

    /// The normal partials (see `normal_partials_s`).
    fn normal_partials(&self, dpdu: Vector3, dpdv: Vector3) -> (r: (Vector3, Vector3))
        requires
            self.wf_data(),
            -COORD_MAX <= dpdu.x <= COORD_MAX,
            -COORD_MAX <= dpdu.y <= COORD_MAX,
            -COORD_MAX <= dpdu.z <= COORD_MAX,
            -COORD_MAX <= dpdv.x <= COORD_MAX,
            -COORD_MAX <= dpdv.y <= COORD_MAX,
            -2 * COORD_MAX <= dpdv.z <= 2 * COORD_MAX,
        ensures
            (r.0, r.1) == self.normal_partials_s(dpdu, dpdv),
            -VEC_XFORM_MAX <= r.0.x <= VEC_XFORM_MAX,
            -VEC_XFORM_MAX <= r.0.y <= VEC_XFORM_MAX,
            -VEC_XFORM_MAX <= r.0.z <= VEC_XFORM_MAX,
            -VEC_XFORM_MAX <= r.1.x <= VEC_XFORM_MAX,
            -VEC_XFORM_MAX <= r.1.y <= VEC_XFORM_MAX,
            -VEC_XFORM_MAX <= r.1.z <= VEC_XFORM_MAX,
    {
        if self.radius < 2 {
            (Vector3 { x: 0, y: 0, z: 0 }, Vector3 { x: 0, y: 0, z: 0 })
        } else {
            proof {
                lemma_dnd_small(dpdu.x as int, self.radius as int);
                lemma_dnd_small(dpdu.y as int, self.radius as int);
                lemma_dnd_small(dpdu.z as int, self.radius as int);
                lemma_dnd_small(dpdv.x as int, self.radius as int);
                lemma_dnd_small(dpdv.y as int, self.radius as int);
                lemma_dnd_fits(dpdv.z as int, self.radius as int);
            }
            let du = Vector3 {
                x: fx_div(dpdu.x, self.radius),
                y: fx_div(dpdu.y, self.radius),
                z: fx_div(dpdu.z, self.radius),
            };
            let dv = Vector3 {
                x: fx_div(dpdv.x, self.radius),
                y: fx_div(dpdv.y, self.radius),
                z: fx_div(dpdv.z, self.radius),
            };
            if -VEC_XFORM_MAX <= dv.z && dv.z <= VEC_XFORM_MAX {
                (du, dv)
            } else {
                (Vector3 { x: 0, y: 0, z: 0 }, Vector3 { x: 0, y: 0, z: 0 })
            }
        }
    }
}

/// The position partials at an object-space point (see `partials_s`).
fn sphere_partials(p: Point3) -> (r: (Vector3, Vector3))
    requires
        p3_in_range(p),
    ensures
        (r.0, r.1) == Sphere::partials_s(p),
        crate::vector::v3_deriv_ok(r.0),
        crate::vector::v3_deriv_ok(r.1),
        -COORD_MAX <= r.0.x <= COORD_MAX,
        -COORD_MAX <= r.0.y <= COORD_MAX,
        -COORD_MAX <= r.0.z <= COORD_MAX,
        -COORD_MAX <= r.1.x <= COORD_MAX,
        -COORD_MAX <= r.1.y <= COORD_MAX,
        -2 * COORD_MAX <= r.1.z <= 2 * COORD_MAX,
{
    if p.x == 0 && p.y == 0 {
        (Vector3 { x: FX_ONE, y: 0, z: 0 }, Vector3 { x: 0, y: p.z, z: 0 })
    } else {
        proof {
            lemma_mul_bound(p.x as int, p.x as int, COORD_MAX as int, COORD_MAX as int);
            lemma_mul_bound(p.y as int, p.y as int, COORD_MAX as int, COORD_MAX as int);
            assert(p.x * p.x >= 0 && p.y * p.y >= 0) by (nonlinear_arith);
            assert(p.x != 0 ==> p.x * p.x >= 1) by (nonlinear_arith);
            assert(p.y != 0 ==> p.y * p.y >= 1) by (nonlinear_arith);
        }
        let sq: u128 = ((p.x as i128) * (p.x as i128) + (p.y as i128) * (p.y as i128)) as u128;
        let rxy128 = isqrt(sq);
        proof {
            lemma_rxy_fits(sq as int, rxy128 as int);
            lemma_sqrt_component_bound(p.x as int, sq as int, rxy128 as int);
            lemma_sqrt_component_bound(p.y as int, sq as int, rxy128 as int);
            lemma_mul_bound(p.x as int, p.z as int, COORD_MAX as int, COORD_MAX as int);
            lemma_mul_bound(p.y as int, p.z as int, COORD_MAX as int, COORD_MAX as int);
            lemma_dpdv_comp(p.x as int, p.z as int, rxy128 as int);
            lemma_dpdv_comp(p.y as int, p.z as int, rxy128 as int);
        }
        let rxy = rxy128 as i64;
        let ax = tdiv128((p.x as i128) * (p.z as i128), rxy as i128) as i64;
        let ay = tdiv128((p.y as i128) * (p.z as i128), rxy as i128) as i64;
        (Vector3 { x: -p.y, y: p.x, z: 0 }, Vector3 { x: -ax, y: -ay, z: rxy })
    }
}

proof fn lemma_rxy_fits(sq: int, root: int)
    requires
        crate::fx::is_sqrt_floor(sq, root),
        sq <= 2 * COORD_MAX as int * COORD_MAX as int,
        sq >= 1,
    ensures
        1 <= root <= 2 * COORD_MAX,
{
    assert(root <= 2 * COORD_MAX) by (nonlinear_arith)
        requires
            0 <= root,
            root * root <= 2 * COORD_MAX as int * COORD_MAX as int,
            COORD_MAX == 0x4000_0000i64,
    ;
    assert(1 <= root) by (nonlinear_arith)
        requires
            0 <= root,
            1 <= sq,
            sq < (root + 1) * (root + 1),
    ;
}

proof fn lemma_dpdv_comp(px: int, pz: int, rxy: int)
    requires
        1 <= rxy,
        crate::fx::abs_s(px) <= rxy,
        -COORD_MAX <= pz <= COORD_MAX,
        -COORD_MAX <= px <= COORD_MAX,
    ensures
        -COORD_MAX <= tdiv_s(px * pz, rxy) <= COORD_MAX,
{
    assert(crate::fx::abs_s(px * pz) <= COORD_MAX as int * rxy) by (nonlinear_arith)
        requires
            crate::fx::abs_s(px) <= rxy,
            -COORD_MAX <= pz <= COORD_MAX,
            1 <= rxy,
    ;
    lemma_tdiv_bound_by(px * pz, rxy, COORD_MAX as int);
}

proof fn lemma_dnd_small(c: int, radius: int)
    requires
        2 <= radius,
        -COORD_MAX <= c <= COORD_MAX,
    ensures
        -VEC_XFORM_MAX <= fx_div_s(c, radius) <= VEC_XFORM_MAX,
{
    assert(crate::fx::abs_s(c * FX_ONE) <= VEC_XFORM_MAX as int * radius) by (nonlinear_arith)
        requires
            -COORD_MAX <= c <= COORD_MAX,
            2 <= radius,
            FX_ONE == 65536i64,
            COORD_MAX == 0x4000_0000i64,
            VEC_XFORM_MAX == 0x2000_0000_0000i64,
    ;
    lemma_tdiv_bound_by(c * FX_ONE, radius, VEC_XFORM_MAX as int);
}

proof fn lemma_dnd_fits(c: int, radius: int)
    requires
        2 <= radius,
        -2 * COORD_MAX <= c <= 2 * COORD_MAX,
    ensures
        -FX_ONE as int * COORD_MAX <= fx_div_s(c, radius) <= FX_ONE as int * COORD_MAX,
        i64::MIN <= fx_div_s(c, radius) <= i64::MAX,
{
    assert(crate::fx::abs_s(c * FX_ONE) <= (FX_ONE as int * COORD_MAX) * radius)
        by (nonlinear_arith)
        requires
            -2 * COORD_MAX <= c <= 2 * COORD_MAX,
            2 <= radius,
            FX_ONE == 65536i64,
            COORD_MAX == 0x4000_0000i64,
    ;
    lemma_tdiv_bound_by(c * FX_ONE, radius, FX_ONE as int * COORD_MAX);
}

proof fn lemma_u_fits(az: int, sweep: int)
    requires
        0 <= az <= 4 * FX_ONE,
        1 <= sweep,
    ensures
        0 <= tdiv_s(az * FX_ONE, sweep) <= 4 * FX_ONE as int * FX_ONE,
{
    lemma_tdiv_sign(az * FX_ONE, sweep);
    assert(crate::fx::abs_s(az * FX_ONE) <= (4 * FX_ONE as int * FX_ONE) * sweep)
        by (nonlinear_arith)
        requires
            0 <= az <= 4 * FX_ONE,
            1 <= sweep,
            FX_ONE == 65536i64,
    ;
    lemma_tdiv_bound_by(az * FX_ONE, sweep, 4 * FX_ONE as int * FX_ONE);
}

proof fn lemma_v_fits(z: int, z_min: int, z_max: int)
    requires
        z_min < z_max,
        -COORD_MAX <= z_min,
        z_max <= COORD_MAX,
        z_min <= z <= z_max,
    ensures
        0 <= tdiv_s((z - z_min) * FX_ONE, z_max - z_min) <= FX_ONE,
{
    lemma_tdiv_sign((z - z_min) * FX_ONE, z_max - z_min);
    assert((z - z_min) * FX_ONE <= FX_ONE as int * (z_max - z_min)) by (nonlinear_arith)
        requires
            0 <= z - z_min <= z_max - z_min,
    ;
    lemma_tdiv_bound_by((z - z_min) * FX_ONE, z_max - z_min, FX_ONE as int);
}

proof fn lemma_tdiv_fxone(z: int)
    ensures
        tdiv_s(FX_ONE as int * z, FX_ONE as int) == z,
{
    assert(crate::fx::abs_s(FX_ONE as int * z) == FX_ONE as int * crate::fx::abs_s(z))
        by (nonlinear_arith);
    vstd::arithmetic::div_mod::lemma_div_multiples_vanish(crate::fx::abs_s(z), FX_ONE as int);
}

proof fn lemma_sign_times(a: int, b: int)
    ensures
        a >= 0 && b >= 0 ==> a * b >= 0,
        a <= 0 && b <= 0 ==> a * b >= 0,
        a >= 0 && b <= 0 ==> a * b <= 0,
        a <= 0 && b >= 0 ==> a * b <= 0,
{
    assert(a >= 0 && b >= 0 ==> a * b >= 0) by (nonlinear_arith);
    assert(a <= 0 && b <= 0 ==> a * b >= 0) by (nonlinear_arith);
    assert(a >= 0 && b <= 0 ==> a * b <= 0) by (nonlinear_arith);
    assert(a <= 0 && b >= 0 ==> a * b <= 0) by (nonlinear_arith);
}

/// The orientation law for spheres: with `reverse_orientation` off and a
/// handedness-preserving transform, the geometric normal the interaction
/// carries points away from the sphere's centre. Stated in the sphere's
/// object frame, where the centre is the origin: at any hit point the
/// normal's dot product with the radius vector is nonnegative.
pub proof fn lemma_sphere_normal_outward(shape: GenericShape, p: Point3)
    requires
        p3_in_range(p),
        !shape.reverse_orientation,
        !shape.transform_swaps_handedness,
    ensures
        ({
            let partials = Sphere::partials_s(p);
            let n = crate::interaction::oriented_normal_s(shape, partials.0, partials.1);
            dot_s(n, Vector3 { x: p.x, y: p.y, z: p.z }) >= 0
        }),
{
    let partials = Sphere::partials_s(p);
    let dpdu = partials.0;
    let dpdv = partials.1;
    let c = crate::vector::cross_s(dpdu, dpdv);
    let n = crate::interaction::oriented_normal_s(shape, dpdu, dpdv);
    if p.x == 0 && p.y == 0 {
        assert(dpdu == Vector3 { x: FX_ONE, y: 0, z: 0 });
        assert(dpdv == Vector3 { x: 0, y: p.z, z: 0 });
        lemma_tdiv_fxone(p.z as int);
        vstd::arithmetic::div_mod::lemma_div_of0(FX_ONE as int);
        assert(tdiv_s(0, FX_ONE as int) == 0);
        assert(dpdu.y * dpdv.z - dpdu.z * dpdv.y == 0) by (nonlinear_arith)
            requires
                dpdu.y == 0 && dpdu.z == 0,
        ;
        assert(dpdu.z * dpdv.x - dpdu.x * dpdv.z == 0) by (nonlinear_arith)
            requires
                dpdu.z == 0 && dpdv.z == 0,
        ;
        assert(dpdu.x * dpdv.y - dpdu.y * dpdv.x == FX_ONE as int * p.z) by (nonlinear_arith)
            requires
                dpdu.x == FX_ONE && dpdv.y == p.z && dpdu.y == 0,
        ;
        assert(c == Vector3 { x: 0, y: 0, z: p.z });
        crate::vector::lemma_normalize_s_bounds(c);
        lemma_sign_times(crate::vector::normalize_s(c).z as int, p.z as int);
        lemma_sign_times(crate::vector::normalize_s(c).x as int, p.x as int);
        lemma_sign_times(crate::vector::normalize_s(c).y as int, p.y as int);
    } else {
        let sq = p.x * p.x + p.y * p.y;
        assert(p.x * p.x >= 0 && p.y * p.y >= 0) by (nonlinear_arith);
        assert(p.x != 0 ==> p.x * p.x >= 1) by (nonlinear_arith);
        assert(p.y != 0 ==> p.y * p.y >= 1) by (nonlinear_arith);
        lemma_mul_bound(p.x as int, p.x as int, COORD_MAX as int, COORD_MAX as int);
        lemma_mul_bound(p.y as int, p.y as int, COORD_MAX as int, COORD_MAX as int);
        crate::fx::lemma_sqrt_floor(sq);
        let rxy = sqrt_floor(sq);
        lemma_rxy_fits(sq, rxy);
        lemma_sqrt_component_bound(p.x as int, sq, rxy);
        lemma_sqrt_component_bound(p.y as int, sq, rxy);
        lemma_dpdv_comp(p.x as int, p.z as int, rxy);
        lemma_dpdv_comp(p.y as int, p.z as int, rxy);
        let av = tdiv_s(p.x * p.z, rxy);
        let bv = tdiv_s(p.y * p.z, rxy);
        assert(dpdu.x == -p.y && dpdu.y == p.x && dpdu.z == 0);
        assert(dpdv.x == -av && dpdv.y == -bv && dpdv.z == rxy);
        // The undivided cross-product components.
        let wx = dpdu.y * dpdv.z - dpdu.z * dpdv.y;
        let wy = dpdu.z * dpdv.x - dpdu.x * dpdv.z;
        let wz = dpdu.x * dpdv.y - dpdu.y * dpdv.x;
        assert(wx == p.x * rxy) by (nonlinear_arith)
            requires
                wx == dpdu.y * dpdv.z - dpdu.z * dpdv.y,
                dpdu.y == p.x && dpdu.z == 0 && dpdv.z == rxy,
        ;
        assert(wy == p.y * rxy) by (nonlinear_arith)
            requires
                wy == dpdu.z * dpdv.x - dpdu.x * dpdv.z,
                dpdu.z == 0 && dpdu.x == -p.y && dpdv.x == -av && dpdv.z == rxy,
        ;
        assert(wz == p.y * bv + p.x * av) by (nonlinear_arith)
            requires
                wz == dpdu.x * dpdv.y - dpdu.y * dpdv.x,
                dpdu.x == -p.y && dpdu.y == p.x && dpdv.y == -bv && dpdv.x == -av,
        ;
        lemma_sign_times(p.x as int, rxy);
        lemma_sign_times(p.y as int, rxy);
        // Each undivided component has the sign of the matching radius
        // component (z via the signs of the two quotient terms).
        lemma_sign_times(p.x as int, p.z as int);
        lemma_sign_times(p.y as int, p.z as int);
        crate::fx::lemma_tdiv_sign(p.x * p.z, rxy);
        crate::fx::lemma_tdiv_sign(p.y * p.z, rxy);
        lemma_sign_times(p.x as int, av);
        lemma_sign_times(p.y as int, bv);
        lemma_mul_bound(p.x as int, rxy, COORD_MAX as int, 2 * COORD_MAX as int);
        lemma_mul_bound(p.y as int, rxy, COORD_MAX as int, 2 * COORD_MAX as int);
        lemma_mul_bound(p.x as int, av, COORD_MAX as int, COORD_MAX as int);
        lemma_mul_bound(p.y as int, bv, COORD_MAX as int, COORD_MAX as int);
        lemma_tdiv_bound_by(wx, FX_ONE as int, 0x2000_0000_0000_0000);
        lemma_tdiv_bound_by(wy, FX_ONE as int, 0x2000_0000_0000_0000);
        lemma_tdiv_bound_by(wz, FX_ONE as int, 0x2000_0000_0000_0000);
        crate::fx::lemma_tdiv_sign(wx, FX_ONE as int);
        crate::fx::lemma_tdiv_sign(wy, FX_ONE as int);
        crate::fx::lemma_tdiv_sign(wz, FX_ONE as int);
        crate::vector::lemma_cross_s_wide_ok(dpdu, dpdv);
        crate::vector::lemma_normalize_s_bounds(c);
        lemma_sign_times(n.x as int, p.x as int);
        lemma_sign_times(n.y as int, p.y as int);
        lemma_sign_times(n.z as int, p.z as int);
    }
}

proof fn lemma_disc_root_fits(disc: int, root: int)
    requires
        crate::fx::is_sqrt_floor(disc, root),
        disc <= u128::MAX,
    ensures
        0 <= root <= 0xFFFF_FFFF_FFFF_FFFF,
{
    assert(root <= 0xFFFF_FFFF_FFFF_FFFF) by (nonlinear_arith)
        requires
            0 <= root,
            root * root <= 0xFFFF_FFFF_FFFF_FFFF_FFFF_FFFF_FFFF_FFFF,
    ;
}

} // verus!
