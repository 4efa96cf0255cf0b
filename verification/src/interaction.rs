//! The record produced at a ray/shape hit: position with a conservative
//! per-axis error bound, the true geometric normal, UV and
//! partial-derivative frame, and a separately perturbable shading frame.
//! The geometric and shading normals always end in the same hemisphere
//! after the face-forward reconciliation applied here.

use crate::fx::{abs_s, lemma_tdiv_bound_by, tdiv128, tdiv_s, FX_ONE};
use crate::ray::MediumInterface;
use crate::shape::GenericShape;
use crate::transform::{
    lemma_xform_wide, m4_in_range, p3_xform_ok, v3_xform_ok, xform_normal_s, xform_point_s,
    xform_vector_s, AffineTransform, Matrix4, Transform, VEC_XFORM_MAX,
};
use crate::vector::{
    cross_s, face_forward, face_forward_s, lemma_cross_s_wide_ok, lemma_mul_bound,
    lemma_normalize_s_bounds, neg3_s, normalize_s, v3_deriv_ok, v3_wide_ok, Point2, Point3,
    Vector3, COORD_MAX,
};
use vstd::prelude::*;

verus! {

/// Geometry used for shading: a normal and partial derivatives that start
/// equal to the geometric ones but may be perturbed (by bump mapping, for
/// example) before lighting reads them.
#[derive(Clone, Copy, PartialEq, Eq, Structural, Debug)]
pub struct ShadingGeometry {
    pub normal: Vector3,
    pub dpdu: Vector3,
    pub dpdv: Vector3,
    pub dndu: Vector3,
    pub dndv: Vector3,
}

/// The geometry at a particular point on a surface, usually found by
/// intersecting a ray against the surface.
#[derive(Clone, Copy, Debug)]
pub struct SurfaceInteraction {
    /// The point in space where the interaction occurs.
    pub point: Point3,
    /// A conservative per-axis bound on the rounding error in `point`;
    /// zero for sampled points in participating media.
    pub point_error_bound: Vector3,
    /// The direction of the negative/outgoing ray if the interaction lies
    /// along a ray; absent for sampled interactions.
    pub neg_ray_direction: Option<Vector3>,
    /// The instant in time when the interaction occurs.
    pub time: i64,
    /// The scattering media at the interaction point.
    pub medium_interface: Option<MediumInterface>,
    /// The orientation attributes of the shape the point lies on.
    pub shape: GenericShape,
    /// The surface normal at the interaction point.
    pub normal: Vector3,
    /// The UV coordinates of the point on the surface.
    pub uv: Point2,
    /// The partial derivative of the position with respect to U.
    pub dpdu: Vector3,
    /// The partial derivative of the position with respect to V.
    pub dpdv: Vector3,
    /// The partial derivative of the surface normal with respect to U.
    pub dndu: Vector3,
    /// The partial derivative of the surface normal with respect to V.
    pub dndv: Vector3,
    /// The shading frame, initialized to the geometric frame.
    pub shading_geometry: ShadingGeometry,
}

/// The geometric normal a new interaction carries: the normalized cross
/// product of the two position partials, flipped exactly when the shape's
/// `reverse_orientation` differs from its transform's handedness swap.
pub open spec fn oriented_normal_s(shape: GenericShape, dpdu: Vector3, dpdv: Vector3) -> Vector3 {
    let natural = normalize_s(cross_s(dpdu, dpdv));
    if shape.reverse_orientation != shape.transform_swaps_handedness {
        neg3_s(natural)
    } else {
        natural
    }
}

/// Exactly the record `SurfaceInteraction::new` builds from the given
/// local geometry.
pub open spec fn make_si_s(
    point: Point3,
    point_error_bound: Vector3,
    neg_ray_direction: Option<Vector3>,
    time: i64,
    shape: GenericShape,
    uv: Point2,
    dpdu: Vector3,
    dpdv: Vector3,
    dndu: Vector3,
    dndv: Vector3,
) -> SurfaceInteraction {
    let normal = oriented_normal_s(shape, dpdu, dpdv);
    SurfaceInteraction {
        point,
        point_error_bound,
        neg_ray_direction,
        time,
        medium_interface: None,
        shape,
        normal,
        uv,
        dpdu,
        dpdv,
        dndu,
        dndv,
        shading_geometry: ShadingGeometry { normal, dpdu, dpdv, dndu, dndv },
    }
}

impl SurfaceInteraction {
    /// Builds the interaction for a hit with the given local geometry,
    /// applying the orientation rule once and starting the shading frame
    /// equal to the geometric frame.
    pub fn new(
        point: Point3,
        point_error_bound: Vector3,
        neg_ray_direction: Option<Vector3>,
        time: i64,
        shape: GenericShape,
        uv: Point2,
        dpdu: Vector3,
        dpdv: Vector3,
        dndu: Vector3,
        dndv: Vector3,
    ) -> (r: SurfaceInteraction)
        requires
            v3_deriv_ok(dpdu),
            v3_deriv_ok(dpdv),
        ensures
            r.point == point,
            r.point_error_bound == point_error_bound,
            r.neg_ray_direction == neg_ray_direction,
            r.time == time,
            r.medium_interface is None,
            r.shape == shape,
            r.normal == oriented_normal_s(shape, dpdu, dpdv),
            r.uv == uv,
            r.dpdu == dpdu,
            r.dpdv == dpdv,
            r.dndu == dndu,
            r.dndv == dndv,
            r.shading_geometry == (ShadingGeometry { normal: r.normal, dpdu, dpdv, dndu, dndv }),
            r == make_si_s(
                point,
                point_error_bound,
                neg_ray_direction,
                time,
                shape,
                uv,
                dpdu,
                dpdv,
                dndu,
                dndv,
            ),
            -FX_ONE <= r.normal.x <= FX_ONE,
            -FX_ONE <= r.normal.y <= FX_ONE,
            -FX_ONE <= r.normal.z <= FX_ONE,
    {
        proof {
            lemma_cross_s_wide_ok(dpdu, dpdv);
        }
        let natural = dpdu.cross(dpdv).normalize();
        let normal = if shape.reverse_orientation != shape.transform_swaps_handedness {
            natural.neg()
        } else {
            natural
        };
        SurfaceInteraction {
            point,
            point_error_bound,
            neg_ray_direction,
            time,
            medium_interface: None,
            shape,
            normal,
            uv,
            dpdu,
            dpdv,
            dndu,
            dndv,
            shading_geometry: ShadingGeometry { normal, dpdu, dpdv, dndu, dndv },
        }
    }

    /// Replaces the shading frame with the given perturbed partials. The
    /// new shading normal is the normalized cross product of the new
    /// partials. When the caller asserts the shading orientation is
    /// authoritative, only the geometric normal is reoriented (into the
    /// hemisphere of the unchanged new shading normal); otherwise only the
    /// shading normal is reoriented (into the hemisphere of the unchanged
    /// geometric normal).
    pub fn set_shading_geometry(
        &mut self,
        dpdu: Vector3,
        dpdv: Vector3,
        dndu: Vector3,
        dndv: Vector3,
        orientation_is_authoritative: bool,
    )
        requires
            v3_deriv_ok(dpdu),
            v3_deriv_ok(dpdv),
            v3_wide_ok(old(self).normal),
        ensures
            final(self).shading_geometry.dpdu == dpdu,
            final(self).shading_geometry.dpdv == dpdv,
            final(self).shading_geometry.dndu == dndu,
            final(self).shading_geometry.dndv == dndv,
            orientation_is_authoritative ==> final(self).shading_geometry.normal == normalize_s(
                cross_s(dpdu, dpdv),
            ) && final(self).normal == face_forward_s(
                old(self).normal,
                normalize_s(cross_s(dpdu, dpdv)),
            ),
            !orientation_is_authoritative ==> final(self).normal == old(self).normal
                && final(self).shading_geometry.normal == face_forward_s(
                normalize_s(cross_s(dpdu, dpdv)),
                old(self).normal,
            ),
            final(self).point == old(self).point,
            final(self).point_error_bound == old(self).point_error_bound,
            final(self).neg_ray_direction == old(self).neg_ray_direction,
            final(self).time == old(self).time,
            final(self).medium_interface == old(self).medium_interface,
            final(self).shape == old(self).shape,
            final(self).uv == old(self).uv,
            final(self).dpdu == old(self).dpdu,
            final(self).dpdv == old(self).dpdv,
            final(self).dndu == old(self).dndu,
            final(self).dndv == old(self).dndv,
    {
        proof {
            lemma_cross_s_wide_ok(dpdu, dpdv);
        }
        self.shading_geometry.dpdu = dpdu;
        self.shading_geometry.dpdv = dpdv;
        self.shading_geometry.dndu = dndu;
        self.shading_geometry.dndv = dndv;
        let sn = dpdu.cross(dpdv).normalize();
        self.shading_geometry.normal = sn;
        if orientation_is_authoritative {
            // The shading normal is authoritative: flip the geometric
            // normal, if necessary, into its hemisphere.
            self.normal = face_forward(self.normal, sn);
        } else {
            // The geometric normal is authoritative: flip the shading
            // normal, if necessary, into its hemisphere.
            self.shading_geometry.normal = face_forward(sn, self.normal);
        }
    }

    /// Returns the point in space where the interaction occurs.
    pub fn point(&self) -> (r: Point3)
        ensures
            r == self.point,
    {
        self.point
    }

    /// Returns the conservative per-axis bound on the rounding error in
    /// the interaction point.
    pub fn point_error_bound(&self) -> (r: Vector3)
        ensures
            r == self.point_error_bound,
    {
        self.point_error_bound
    }

    /// Returns the surface normal at the interaction point.
    pub fn normal(&self) -> (r: Vector3)
        ensures
            r == self.normal,
    {
        self.normal
    }

    /// Returns the direction of the negative/outgoing ray, if the
    /// interaction lies along a ray.
    pub fn neg_ray_direction(&self) -> (r: Option<Vector3>)
        ensures
            r == self.neg_ray_direction,
    {
        self.neg_ray_direction
    }

    /// Returns the instant in time when the interaction occurs.
    pub fn time(&self) -> (r: i64)
        ensures
            r == self.time,
    {
        self.time
    }

    /// Returns the scattering media at the interaction point.
    pub fn medium_interface(&self) -> (r: &Option<MediumInterface>)
        ensures
            *r == self.medium_interface,
    {
        &self.medium_interface
    }

    /// Returns the UV coordinates of the point on the surface.
    pub fn uv(&self) -> (r: Point2)
        ensures
            r == self.uv,
    {
        self.uv
    }

    /// Returns the shading frame.
    pub fn shading_geometry(&self) -> (r: ShadingGeometry)
        ensures
            r == self.shading_geometry,
    {
        self.shading_geometry
    }
}

/// The conservative per-axis error bound of a hit point computed as
/// `origin + t * direction`: one unit of truncation in the parameter, one
/// in each coordinate.
pub open spec fn hit_err_s(d: Vector3) -> Vector3 {
    Vector3 {
        x: (tdiv_s(abs_s(d.x as int), FX_ONE as int) + 2) as i64,
        y: (tdiv_s(abs_s(d.y as int), FX_ONE as int) + 2) as i64,
        z: (tdiv_s(abs_s(d.z as int), FX_ONE as int) + 2) as i64,
    }
}

/// The conservative error bound of a hit point along direction `d`.
pub fn hit_err(d: &Vector3) -> (r: Vector3)
    requires
        -COORD_MAX <= d.x <= COORD_MAX,
        -COORD_MAX <= d.y <= COORD_MAX,
        -COORD_MAX <= d.z <= COORD_MAX,
    ensures
        r == hit_err_s(*d),
        err_ok(r),
{
    let r = Vector3 {
        x: hit_err_component(d.x),
        y: hit_err_component(d.y),
        z: hit_err_component(d.z),
    };
    r
}

fn hit_err_component(d: i64) -> (r: i64)
    requires
        -COORD_MAX <= d <= COORD_MAX,
    ensures
        r as int == tdiv_s(abs_s(d as int), FX_ONE as int) + 2,
        0 <= r <= VEC_XFORM_MAX,
{
    let ad: i64 = if d < 0 {
        -d
    } else {
        d
    };
    let q = tdiv128(ad as i128, FX_ONE as i128);
    proof {
        lemma_tdiv_bound_by(ad as int, FX_ONE as int, COORD_MAX as int);
        crate::fx::lemma_tdiv_sign(ad as int, FX_ONE as int);
    }
    (q as i64) + 2
}

/// One row of the conservative error-bound propagation: the row's absolute
/// entries applied to the old bound, plus one unit for the rounding of the
/// point transform itself.
pub open spec fn err_row_s(a: i64, b: i64, c: i64, ex: i64, ey: i64, ez: i64) -> int {
    tdiv_s(abs_s(a as int) * ex + abs_s(b as int) * ey + abs_s(c as int) * ez, FX_ONE as int) + 1
}

/// The error bound carried through an affine map, conservatively.
pub open spec fn xform_err_s(m: Matrix4, e: Vector3) -> Vector3 {
    Vector3 {
        x: err_row_s(m.m00, m.m01, m.m02, e.x, e.y, e.z) as i64,
        y: err_row_s(m.m10, m.m11, m.m12, e.x, e.y, e.z) as i64,
        z: err_row_s(m.m20, m.m21, m.m22, e.x, e.y, e.z) as i64,
    }
}

/// The error bound is per-axis nonnegative and small enough to propagate.
pub open spec fn err_ok(e: Vector3) -> bool {
    &&& 0 <= e.x <= VEC_XFORM_MAX
    &&& 0 <= e.y <= VEC_XFORM_MAX
    &&& 0 <= e.z <= VEC_XFORM_MAX
}

fn err_row(a: i64, b: i64, c: i64, ex: i64, ey: i64, ez: i64) -> (r: i64)
    requires
        -COORD_MAX <= a <= COORD_MAX,
        -COORD_MAX <= b <= COORD_MAX,
        -COORD_MAX <= c <= COORD_MAX,
        0 <= ex <= VEC_XFORM_MAX,
        0 <= ey <= VEC_XFORM_MAX,
        0 <= ez <= VEC_XFORM_MAX,
    ensures
        r as int == err_row_s(a, b, c, ex, ey, ez),
{
    let aa: i64 = if a < 0 {
        -a
    } else {
        a
    };
    let ab: i64 = if b < 0 {
        -b
    } else {
        b
    };
    let ac: i64 = if c < 0 {
        -c
    } else {
        c
    };
    proof {
        lemma_mul_bound(aa as int, ex as int, COORD_MAX as int, VEC_XFORM_MAX as int);
        lemma_mul_bound(ab as int, ey as int, COORD_MAX as int, VEC_XFORM_MAX as int);
        lemma_mul_bound(ac as int, ez as int, COORD_MAX as int, VEC_XFORM_MAX as int);
    }
    let s: i128 = (aa as i128) * (ex as i128) + (ab as i128) * (ey as i128) + (ac as i128) * (ez
        as i128);
    let q = tdiv128(s, FX_ONE as i128);
    proof {
        lemma_tdiv_bound_by(s as int, FX_ONE as int, 0x1800_0000_0000_0000);
    }
    (q as i64) + 1
}

/// The full interaction re-expressed through an affine map: point through
/// the affine map with its error bound propagated, directions through the
/// linear part, normals through the inverse-transpose and renormalized,
/// and the two normals reconciled face-forward as a final step.
pub open spec fn xform_interaction_s(t: AffineTransform, si: SurfaceInteraction)
    -> SurfaceInteraction {
    let m = t.matrix_s();
    let inv = t.inverse_s();
    let n1 = normalize_s(xform_normal_s(inv, si.normal));
    let sn1 = normalize_s(xform_normal_s(inv, si.shading_geometry.normal));
    SurfaceInteraction {
        point: xform_point_s(m, si.point),
        point_error_bound: xform_err_s(m, si.point_error_bound),
        neg_ray_direction: match si.neg_ray_direction {
            Option::None => Option::None,
            Option::Some(d) => Option::Some(normalize_s(xform_vector_s(m, d))),
        },
        time: si.time,
        medium_interface: si.medium_interface,
        shape: si.shape,
        normal: n1,
        uv: si.uv,
        dpdu: xform_vector_s(m, si.dpdu),
        dpdv: xform_vector_s(m, si.dpdv),
        dndu: xform_vector_s(m, si.dndu),
        dndv: xform_vector_s(m, si.dndv),
        shading_geometry: ShadingGeometry {
            normal: face_forward_s(sn1, n1),
            dpdu: xform_vector_s(m, si.shading_geometry.dpdu),
            dpdv: xform_vector_s(m, si.shading_geometry.dpdv),
            dndu: xform_vector_s(m, si.shading_geometry.dndu),
            dndv: xform_vector_s(m, si.shading_geometry.dndv),
        },
    }
}

impl Transform<SurfaceInteraction> for AffineTransform {
    open spec fn transform_pre(&self, si: &SurfaceInteraction) -> bool {
        &&& self.wf()
        &&& p3_xform_ok(si.point)
        &&& err_ok(si.point_error_bound)
        &&& (si.neg_ray_direction matches Some(d) ==> v3_xform_ok(d))
        &&& v3_xform_ok(si.normal)
        &&& v3_xform_ok(si.dpdu) && v3_xform_ok(si.dpdv)
        &&& v3_xform_ok(si.dndu) && v3_xform_ok(si.dndv)
        &&& v3_xform_ok(si.shading_geometry.normal)
        &&& v3_xform_ok(si.shading_geometry.dpdu) && v3_xform_ok(si.shading_geometry.dpdv)
        &&& v3_xform_ok(si.shading_geometry.dndu) && v3_xform_ok(si.shading_geometry.dndv)
    }

    open spec fn transform_s(&self, si: &SurfaceInteraction) -> SurfaceInteraction {
        xform_interaction_s(*self, *si)
    }

    fn transform(&self, si: &SurfaceInteraction) -> (r: SurfaceInteraction) {
        let m = self.matrix();
        let inv = self.inverse();
        proof {
            self.lemma_wf_facts();
            lemma_xform_wide(inv, si.normal);
            lemma_xform_wide(inv, si.shading_geometry.normal);
        }
        let n1 = inv.transform_normal_transposed(&si.normal).normalize();
        let sn1 = inv.transform_normal_transposed(&si.shading_geometry.normal).normalize();
        let neg_ray_direction = match si.neg_ray_direction {
            Option::None => Option::None,
            Option::Some(d) => {
                proof {
                    lemma_xform_wide(m, d);
                }
                Option::Some(m.transform_vector(&d).normalize())
            },
        };
        SurfaceInteraction {
            point: m.transform_point(&si.point),
            point_error_bound: Vector3 {
                x: err_row(
                    m.m00,
                    m.m01,
                    m.m02,
                    si.point_error_bound.x,
                    si.point_error_bound.y,
                    si.point_error_bound.z,
                ),
                y: err_row(
                    m.m10,
                    m.m11,
                    m.m12,
                    si.point_error_bound.x,
                    si.point_error_bound.y,
                    si.point_error_bound.z,
                ),
                z: err_row(
                    m.m20,
                    m.m21,
                    m.m22,
                    si.point_error_bound.x,
                    si.point_error_bound.y,
                    si.point_error_bound.z,
                ),
            },
            neg_ray_direction,
            time: si.time,
            medium_interface: si.medium_interface,
            shape: si.shape,
            normal: n1,
            uv: si.uv,
            dpdu: m.transform_vector(&si.dpdu),
            dpdv: m.transform_vector(&si.dpdv),
            dndu: m.transform_vector(&si.dndu),
            dndv: m.transform_vector(&si.dndv),
            shading_geometry: ShadingGeometry {
                normal: face_forward(sn1, n1),
                dpdu: m.transform_vector(&si.shading_geometry.dpdu),
                dpdv: m.transform_vector(&si.shading_geometry.dpdv),
                dndu: m.transform_vector(&si.shading_geometry.dndu),
                dndv: m.transform_vector(&si.shading_geometry.dndv),
            },
        }
    }
}

} // verus!
