//! Axis-aligned bounding volumes. A box is either explicitly empty (no
//! points) or a pair of ordered corner points; a degenerate box (min ==
//! max) is legal and distinct from the empty one, carrying exactly one
//! point. All operations are pure except the in-place `expand`; disjoint
//! intersection is an ordinary `None` result, never a failure.

use crate::axis::Axis3;
use crate::fx::{
    abs_s, fx_div, fx_div_s, fx_mul, fx_mul_s, lemma_tdiv_bound_by, lemma_tdiv_mag, tdiv_s, FX_ONE,
};
use crate::ray::{ray_in_range, Ray, T_MAX_FX};
use crate::scalar::Scalar;
use crate::vector::{p3_in_range, Point2, Point3, Vector3, COORD_MAX};
use vstd::prelude::*;

verus! {

/// An axis-aligned box in two dimensions.
#[derive(Clone, Copy, PartialEq, Eq, Structural, Debug)]
pub struct Bounds2 {
    pub min: Point2,
    pub max: Point2,
}

/// An axis-aligned box in three dimensions: empty, or two ordered corners.
#[derive(Clone, Copy, PartialEq, Eq, Structural, Debug)]
pub enum Bounds3 {
    /// The box containing no points.
    Empty,
    /// The box of all points between `min` and `max`, inclusive per axis.
    Corners { min: Point3, max: Point3 },
}

/// The smaller of two scalars.
pub open spec fn min_i(a: i64, b: i64) -> i64 {
    if a <= b {
        a
    } else {
        b
    }
}

/// The larger of two scalars.
pub open spec fn max_i(a: i64, b: i64) -> i64 {
    if a <= b {
        b
    } else {
        a
    }
}

fn min_c(a: i64, b: i64) -> (r: i64)
    ensures
        r == min_i(a, b),
{
    if a <= b {
        a
    } else {
        b
    }
}

fn max_c(a: i64, b: i64) -> (r: i64)
    ensures
        r == max_i(a, b),
{
    if a <= b {
        b
    } else {
        a
    }
}

/// The box enclosing a single point.
pub open spec fn from_point_s(p: Point3) -> Bounds3 {
    Bounds3::Corners { min: p, max: p }
}

/// The box enclosing two corner points, sorted per axis.
pub open spec fn from_corners_s(p1: Point3, p2: Point3) -> Bounds3 {
    Bounds3::Corners {
        min: Point3 { x: min_i(p1.x, p2.x), y: min_i(p1.y, p2.y), z: min_i(p1.z, p2.z) },
        max: Point3 { x: max_i(p1.x, p2.x), y: max_i(p1.y, p2.y), z: max_i(p1.z, p2.z) },
    }
}

/// The smallest box containing both boxes; the empty box is the identity.
pub open spec fn union_s(a: Bounds3, b: Bounds3) -> Bounds3 {
    match (a, b) {
        (Bounds3::Empty, _) => b,
        (_, Bounds3::Empty) => a,
        (
            Bounds3::Corners { min: amin, max: amax },
            Bounds3::Corners { min: bmin, max: bmax },
        ) => Bounds3::Corners {
            min: Point3 {
                x: min_i(amin.x, bmin.x),
                y: min_i(amin.y, bmin.y),
                z: min_i(amin.z, bmin.z),
            },
            max: Point3 {
                x: max_i(amax.x, bmax.x),
                y: max_i(amax.y, bmax.y),
                z: max_i(amax.z, bmax.z),
            },
        },
    }
}

/// The box of points common to both, or `None` when they share none.
pub open spec fn intersection_s(a: Bounds3, b: Bounds3) -> Option<Bounds3> {
    match (a, b) {
        (Bounds3::Empty, _) => None,
        (_, Bounds3::Empty) => None,
        (
            Bounds3::Corners { min: amin, max: amax },
            Bounds3::Corners { min: bmin, max: bmax },
        ) => {
            let nmin = Point3 {
                x: max_i(amin.x, bmin.x),
                y: max_i(amin.y, bmin.y),
                z: max_i(amin.z, bmin.z),
            };
            let nmax = Point3 {
                x: min_i(amax.x, bmax.x),
                y: min_i(amax.y, bmax.y),
                z: min_i(amax.z, bmax.z),
            };
            if nmin.x <= nmax.x && nmin.y <= nmax.y && nmin.z <= nmax.z {
                Some(Bounds3::Corners { min: nmin, max: nmax })
            } else {
                None
            }
        },
    }
}

/// Whether the boxes share at least one point (inclusive per axis).
pub open spec fn overlaps_s(a: Bounds3, b: Bounds3) -> bool {
    match (a, b) {
        (
            Bounds3::Corners { min: amin, max: amax },
            Bounds3::Corners { min: bmin, max: bmax },
        ) => {
            &&& amin.x <= bmax.x && amax.x >= bmin.x
            &&& amin.y <= bmax.y && amax.y >= bmin.y
            &&& amin.z <= bmax.z && amax.z >= bmin.z
        },
        _ => false,
    }
}

/// Point containment with inclusive bounds.
pub open spec fn inside_s(b: Bounds3, p: Point3) -> bool {
    match b {
        Bounds3::Empty => false,
        Bounds3::Corners { min, max } => {
            &&& min.x <= p.x <= max.x
            &&& min.y <= p.y <= max.y
            &&& min.z <= p.z <= max.z
        },
    }
}

/// Point containment with open bounds, for callers that must not count a
/// point lying on a shared face twice.
pub open spec fn inside_exclusive_s(b: Bounds3, p: Point3) -> bool {
    match b {
        Bounds3::Empty => false,
        Bounds3::Corners { min, max } => {
            &&& min.x < p.x < max.x
            &&& min.y < p.y < max.y
            &&& min.z < p.z < max.z
        },
    }
}

/// Symmetric inflation by `delta` per axis; zero or negative `delta` and
/// the empty box are left unchanged.
pub open spec fn expand_s(b: Bounds3, delta: i64) -> Bounds3 {
    if delta <= 0 {
        b
    } else {
        match b {
            Bounds3::Empty => b,
            Bounds3::Corners { min, max } => Bounds3::Corners {
                min: Point3 {
                    x: (min.x - delta) as i64,
                    y: (min.y - delta) as i64,
                    z: (min.z - delta) as i64,
                },
                max: Point3 {
                    x: (max.x + delta) as i64,
                    y: (max.y + delta) as i64,
                    z: (max.z + delta) as i64,
                },
            },
        }
    }
}

/// The diagonal from the minimum corner to the maximum corner; zero for
/// the empty box.
pub open spec fn diagonal_s(b: Bounds3) -> Vector3 {
    match b {
        Bounds3::Empty => Vector3 { x: 0, y: 0, z: 0 },
        Bounds3::Corners { min, max } => Vector3 {
            x: (max.x - min.x) as i64,
            y: (max.y - min.y) as i64,
            z: (max.z - min.z) as i64,
        },
    }
}

/// Twice the sum of the pairwise face areas; zero for the empty box.
pub open spec fn surface_area_s(b: Bounds3) -> int {
    let d = diagonal_s(b);
    let half = fx_mul_s(d.x as int, d.y as int) + fx_mul_s(d.x as int, d.z as int) + fx_mul_s(
        d.y as int,
        d.z as int,
    );
    half + half
}

/// The product of the three extents; zero for the empty box.
pub open spec fn volume_s(b: Bounds3) -> int {
    let d = diagonal_s(b);
    fx_mul_s(fx_mul_s(d.x as int, d.y as int), d.z as int)
}

/// The axis with the largest extent; ties prefer X over Y over Z.
pub open spec fn maximum_extend_s(b: Bounds3) -> Axis3 {
    let d = diagonal_s(b);
    if d.x >= d.y && d.x >= d.z {
        Axis3::X
    } else if d.y >= d.z {
        Axis3::Y
    } else {
        Axis3::Z
    }
}

/// The point `amount` of the way from the minimum corner to the maximum
/// corner (values outside [0, 1] extrapolate).
pub open spec fn lerp_s(b: Bounds3, amount: i64) -> Point3 {
    let min = b->Corners_min;
    let max = b->Corners_max;
    Point3 {
        x: (min.x + fx_mul_s((max.x - min.x) as int, amount as int)) as i64,
        y: (min.y + fx_mul_s((max.y - min.y) as int, amount as int)) as i64,
        z: (min.z + fx_mul_s((max.z - min.z) as int, amount as int)) as i64,
    }
}

/// The corner of the box with index `i` in 0..8: bit 0 selects x, bit 1
/// selects y, bit 2 selects z (set bit picks the maximum corner).
pub open spec fn corner_s(min: Point3, max: Point3, i: int) -> Point3 {
    Point3 {
        x: if i % 2 == 1 {
            max.x
        } else {
            min.x
        },
        y: if (i / 2) % 2 == 1 {
            max.y
        } else {
            min.y
        },
        z: if (i / 4) % 2 == 1 {
            max.z
        } else {
            min.z
        },
    }
}

/// One axis of the slab test: intersect the running parameter interval
/// with the slab between the two bounding planes on that axis. A ray
/// parallel to the axis either misses outright (origin outside the slab)
/// or leaves the interval unchanged.
pub open spec fn slab_axis_s(bmin: i64, bmax: i64, o: i64, d: i64, t0: i64, t1: Scalar) -> Option<
    (i64, Scalar),
> {
    if d == 0 {
        if o < bmin || o > bmax {
            None
        } else {
            Some((t0, t1))
        }
    } else {
        let ta = fx_div_s((bmin - o) as int, d as int);
        let tb = fx_div_s((bmax - o) as int, d as int);
        let tn: int = if ta <= tb {
            ta
        } else {
            tb
        };
        let tf: int = if ta <= tb {
            tb
        } else {
            ta
        };
        let nt0: i64 = if tn > t0 {
            tn as i64
        } else {
            t0
        };
        let nt1: Scalar = if Scalar::Finite(tf as i64).lt_spec(t1) {
            Scalar::Finite(tf as i64)
        } else {
            t1
        };
        if nt1.lt_spec(Scalar::Finite(nt0)) {
            None
        } else {
            Some((nt0, nt1))
        }
    }
}

/// The full slab test: the parameter range, starting at [0, t_max],
/// shrunk by each axis in turn; `None` when the range empties.
pub open spec fn ray_box_s(b: Bounds3, r: Ray) -> Option<(i64, Scalar)> {
    match b {
        Bounds3::Empty => None,
        Bounds3::Corners { min, max } => match slab_axis_s(
            min.x,
            max.x,
            r.origin.x,
            r.direction.x,
            0,
            r.t_max,
        ) {
            None => None,
            Some((t0, t1)) => match slab_axis_s(
                min.y,
                max.y,
                r.origin.y,
                r.direction.y,
                t0,
                t1,
            ) {
                None => None,
                Some((t0, t1)) => slab_axis_s(min.z, max.z, r.origin.z, r.direction.z, t0, t1),
            },
        },
    }
}

impl Bounds3 {
    /// The box is empty or its corners are ordered per axis.
    pub open spec fn wf(self) -> bool {
        match self {
            Bounds3::Empty => true,
            Bounds3::Corners { min, max } => min.x <= max.x && min.y <= max.y && min.z <= max.z,
        }
    }

    /// The box's corners are within the kernel's accepted range.
    pub open spec fn in_range(self) -> bool {
        match self {
            Bounds3::Empty => true,
            Bounds3::Corners { min, max } => p3_in_range(min) && p3_in_range(max),
        }
    }

    /// Whether the box contains no points.
    pub fn is_empty(&self) -> (r: bool)
        ensures
            r == (*self is Empty),
    {
        matches!(*self, Bounds3::Empty)
    }

    /// Creates a bounding box that encloses a single point.
    pub fn from_point(p: Point3) -> (r: Bounds3)
        ensures
            r == from_point_s(p),
            r.wf(),
    {
        Bounds3::Corners { min: p, max: p }
    }

    /// Creates a bounding box that encloses the given corner points, in
    /// either order.
    pub fn from_corners(p1: Point3, p2: Point3) -> (r: Bounds3)
        ensures
            r == from_corners_s(p1, p2),
            r.wf(),
    {
        let min = Point3 { x: min_c(p1.x, p2.x), y: min_c(p1.y, p2.y), z: min_c(p1.z, p2.z) };
        let max = Point3 { x: max_c(p1.x, p2.x), y: max_c(p1.y, p2.y), z: max_c(p1.z, p2.z) };
        Bounds3::Corners { min, max }
    }

    /// Returns the corner points of the bounding box (none when empty).
    pub fn corners(&self) -> (r: Vec<Point3>)
        ensures
            *self is Empty ==> r@.len() == 0,
            *self matches Bounds3::Corners { min, max } ==> r@.len() == 8 && (forall|i: int|
                0 <= i < 8 ==> r@[i] == corner_s(min, max, i)),
    {
        match *self {
            Bounds3::Empty => Vec::new(),
            Bounds3::Corners { min, max } => {
                let r: Vec<Point3> = vec![
                    Point3 { x: min.x, y: min.y, z: min.z },
                    Point3 { x: max.x, y: min.y, z: min.z },
                    Point3 { x: min.x, y: max.y, z: min.z },
                    Point3 { x: max.x, y: max.y, z: min.z },
                    Point3 { x: min.x, y: min.y, z: max.z },
                    Point3 { x: max.x, y: min.y, z: max.z },
                    Point3 { x: min.x, y: max.y, z: max.z },
                    Point3 { x: max.x, y: max.y, z: max.z },
                ];
                proof {
                    assert forall|i: int| 0 <= i < 8 implies r@[i] == corner_s(min, max, i) by {
                        assert(r@[0] == corner_s(min, max, 0));
                        assert(r@[1] == corner_s(min, max, 1));
                        assert(r@[2] == corner_s(min, max, 2));
                        assert(r@[3] == corner_s(min, max, 3));
                        assert(r@[4] == corner_s(min, max, 4));
                        assert(r@[5] == corner_s(min, max, 5));
                        assert(r@[6] == corner_s(min, max, 6));
                        assert(r@[7] == corner_s(min, max, 7));
                    }
                }
                r
            },
        }
    }

    /// Returns a union of two bounding boxes.
    pub fn union(&self, other: &Bounds3) -> (r: Bounds3)
        requires
            self.wf(),
            other.wf(),
        ensures
            r == union_s(*self, *other),
            r.wf(),
    {
        match (*self, *other) {
            (Bounds3::Empty, b) => b,
            (a, Bounds3::Empty) => a,
            (
                Bounds3::Corners { min: amin, max: amax },
                Bounds3::Corners { min: bmin, max: bmax },
            ) => Bounds3::Corners {
                min: Point3 {
                    x: min_c(amin.x, bmin.x),
                    y: min_c(amin.y, bmin.y),
                    z: min_c(amin.z, bmin.z),
                },
                max: Point3 {
                    x: max_c(amax.x, bmax.x),
                    y: max_c(amax.y, bmax.y),
                    z: max_c(amax.z, bmax.z),
                },
            },
        }
    }

    /// Returns a union of the bounding box and an additional point.
    pub fn union_with_point(&self, p: &Point3) -> (r: Bounds3)
        requires
            self.wf(),
        ensures
            r == union_s(*self, from_point_s(*p)),
            r.wf(),
    {
        self.union(&Bounds3::from_point(*p))
    }

    /// Returns the intersection of the bounding boxes, or `None` when they
    /// are disjoint — a normal outcome, not a failure.
    pub fn intersection(&self, other: &Bounds3) -> (r: Option<Bounds3>)
        requires
            self.wf(),
            other.wf(),
        ensures
            r == intersection_s(*self, *other),
            r matches Some(b) ==> b.wf(),
    {
        match (*self, *other) {
            (Bounds3::Empty, _) => None,
            (_, Bounds3::Empty) => None,
            (
                Bounds3::Corners { min: amin, max: amax },
                Bounds3::Corners { min: bmin, max: bmax },
            ) => {
                let nmin = Point3 {
                    x: max_c(amin.x, bmin.x),
                    y: max_c(amin.y, bmin.y),
                    z: max_c(amin.z, bmin.z),
                };
                let nmax = Point3 {
                    x: min_c(amax.x, bmax.x),
                    y: min_c(amax.y, bmax.y),
                    z: min_c(amax.z, bmax.z),
                };
                if nmin.x <= nmax.x && nmin.y <= nmax.y && nmin.z <= nmax.z {
                    Some(Bounds3::Corners { min: nmin, max: nmax })
                } else {
                    None
                }
            },
        }
    }

    /// Returns true if and only if the bounding boxes overlap inclusively.
    pub fn overlaps(&self, other: &Bounds3) -> (r: bool)
        requires
            self.wf(),
            other.wf(),
        ensures
            r == overlaps_s(*self, *other),
    {
        match (*self, *other) {
            (
                Bounds3::Corners { min: amin, max: amax },
                Bounds3::Corners { min: bmin, max: bmax },
            ) => {
                let x_overlaps = amin.x <= bmax.x && amax.x >= bmin.x;
                let y_overlaps = amin.y <= bmax.y && amax.y >= bmin.y;
                let z_overlaps = amin.z <= bmax.z && amax.z >= bmin.z;
                x_overlaps && y_overlaps && z_overlaps
            },
            _ => false,
        }
    }

    /// Returns true if and only if the point is inside the bounding box
    /// inclusively.
    pub fn inside(&self, p: &Point3) -> (r: bool)
        ensures
            r == inside_s(*self, *p),
    {
        match *self {
            Bounds3::Empty => false,
            Bounds3::Corners { min, max } => p.x >= min.x && p.x <= max.x && p.y >= min.y && p.y
                <= max.y && p.z >= min.z && p.z <= max.z,
        }
    }

    /// Returns true if and only if the point is inside the bounding box
    /// exclusively (strictly within every face).
    pub fn inside_exclusive(&self, p: &Point3) -> (r: bool)
        ensures
            r == inside_exclusive_s(*self, *p),
    {
        match *self {
            Bounds3::Empty => false,
            Bounds3::Corners { min, max } => p.x > min.x && p.x < max.x && p.y > min.y && p.y
                < max.y && p.z > min.z && p.z < max.z,
        }
    }

    /// Expands the bounding box by the given `delta`. If `delta` is zero or
    /// negative the bounding box is unchanged.
    pub fn expand(&mut self, delta: i64)
        requires
            old(self).wf(),
            old(self).in_range(),
            -COORD_MAX <= delta <= COORD_MAX,
        ensures
            *final(self) == expand_s(*old(self), delta),
            final(self).wf(),
    {
        if delta > 0 {
            match *self {
                Bounds3::Empty => {},
                Bounds3::Corners { min, max } => {
                    *self = Bounds3::Corners {
                        min: Point3 { x: min.x - delta, y: min.y - delta, z: min.z - delta },
                        max: Point3 { x: max.x + delta, y: max.y + delta, z: max.z + delta },
                    };
                },
            }
        }
    }

    /// Returns a vector across the diagonal of the bounding box, pointing
    /// from the minimum corner to the maximum corner.
    pub fn diagonal(&self) -> (r: Vector3)
        requires
            self.wf(),
            self.in_range(),
        ensures
            r == diagonal_s(*self),
            r.x >= 0 && r.y >= 0 && r.z >= 0,
    {
        match *self {
            Bounds3::Empty => Vector3 { x: 0, y: 0, z: 0 },
            Bounds3::Corners { min, max } => Vector3 {
                x: max.x - min.x,
                y: max.y - min.y,
                z: max.z - min.z,
            },
        }
    }

    /// Returns the surface area of the bounding box.
    pub fn surface_area(&self) -> (r: i64)
        requires
            self.wf(),
            self.in_range(),
        ensures
            r == surface_area_s(*self),
    {
        let d = self.diagonal();
        proof {
            lemma_diagonal_products(*self);
        }
        let half = fx_mul(d.x, d.y) + fx_mul(d.x, d.z) + fx_mul(d.y, d.z);
        half + half
    }

    /// Returns the volume of the bounding box.
    pub fn volume(&self) -> (r: i64)
        requires
            self.wf(),
            self.in_range(),
        ensures
            r == volume_s(*self),
    {
        let d = self.diagonal();
        proof {
            lemma_diagonal_products(*self);
        }
        fx_mul(fx_mul(d.x, d.y), d.z)
    }

    /// Returns the longest axis of the bounding box.
    pub fn maximum_extend(&self) -> (r: Axis3)
        requires
            self.wf(),
            self.in_range(),
        ensures
            r == maximum_extend_s(*self),
    {
        let d = self.diagonal();
        if d.x >= d.y && d.x >= d.z {
            Axis3::X
        } else if d.y >= d.z {
            Axis3::Y
        } else {
            Axis3::Z
        }
    }

    /// Returns the result of linearly interpolating from the bounding
    /// box's minimum corner to its maximum corner.
    pub fn lerp(&self, amount: i64) -> (r: Point3)
        requires
            self.wf(),
            self.in_range(),
            *self is Corners,
            -COORD_MAX <= amount <= COORD_MAX,
        ensures
            r == lerp_s(*self, amount),
    {
        match *self {
            Bounds3::Empty => Point3 { x: 0, y: 0, z: 0 },
            Bounds3::Corners { min, max } => {
                proof {
                    lemma_lerp_fits(min.x as int, max.x as int, amount as int);
                    lemma_lerp_fits(min.y as int, max.y as int, amount as int);
                    lemma_lerp_fits(min.z as int, max.z as int, amount as int);
                }
                Point3 {
                    x: min.x + fx_mul(max.x - min.x, amount),
                    y: min.y + fx_mul(max.y - min.y, amount),
                    z: min.z + fx_mul(max.z - min.z, amount),
                }
            },
        }
    }

    /// Returns the range of parametric values for which the given ray
    /// passes through the bounding box: the interval [0, t_max] shrunk by
    /// the slab of every axis. If the ray's origin is inside the bounding
    /// box then the lower bound is 0. A ray parallel to an axis whose
    /// origin lies outside that axis's slab never intersects.
    pub fn ray_intersection(&self, ray: &Ray) -> (r: Option<(i64, Scalar)>)
        requires
            self.wf(),
            self.in_range(),
            ray_in_range(*ray),
        ensures
            r == ray_box_s(*self, *ray),
            (inside_exclusive_s(*self, ray.origin) && Scalar::Finite(0).lt_spec(ray.t_max)) ==> (r
                matches Some(v) && v.0 == 0),
    {
        proof {
            if inside_exclusive_s(*self, ray.origin) && Scalar::Finite(0).lt_spec(ray.t_max) {
                lemma_ray_inside_hits_at_zero(*self, *ray);
            }
        }
        match *self {
            Bounds3::Empty => None,
            Bounds3::Corners { min, max } => {
                let first = slab_axis(min.x, max.x, ray.origin.x, ray.direction.x, 0, ray.t_max);
                match first {
                    None => None,
                    Some((t0, t1)) => {
                        let second = slab_axis(min.y, max.y, ray.origin.y, ray.direction.y, t0, t1);
                        match second {
                            None => None,
                            Some((t0, t1)) => slab_axis(
                                min.z,
                                max.z,
                                ray.origin.z,
                                ray.direction.z,
                                t0,
                                t1,
                            ),
                        }
                    },
                }
            },
        }
    }
}

/// One axis of the slab test (see `slab_axis_s`).
fn slab_axis(bmin: i64, bmax: i64, o: i64, d: i64, t0: i64, t1: Scalar) -> (r: Option<
    (i64, Scalar),
>)
    requires
        -COORD_MAX <= bmin <= COORD_MAX,
        -COORD_MAX <= bmax <= COORD_MAX,
        -COORD_MAX <= o <= COORD_MAX,
        -COORD_MAX <= d <= COORD_MAX,
        -T_MAX_FX <= t0 <= T_MAX_FX,
        !t1.is_nan(),
    ensures
        r == slab_axis_s(bmin, bmax, o, d, t0, t1),
        r matches Some(v) ==> -T_MAX_FX <= v.0 <= T_MAX_FX && !v.1.is_nan(),
{
    if d == 0 {
        if o < bmin || o > bmax {
            None
        } else {
            Some((t0, t1))
        }
    } else {
        proof {
            lemma_slab_t_fits((bmin - o) as int, d as int);
            lemma_slab_t_fits((bmax - o) as int, d as int);
        }
        let ta = fx_div(bmin - o, d);
        let tb = fx_div(bmax - o, d);
        let (tn, tf) = if ta <= tb {
            (ta, tb)
        } else {
            (tb, ta)
        };
        let nt0 = if tn > t0 {
            tn
        } else {
            t0
        };
        let nt1 = if Scalar::Finite(tf).lt(t1) {
            Scalar::Finite(tf)
        } else {
            t1
        };
        if nt1.lt(Scalar::Finite(nt0)) {
            None
        } else {
            Some((nt0, nt1))
        }
    }
}

proof fn lemma_slab_t_fits(a: int, d: int)
    requires
        d != 0,
        abs_s(a) <= 2 * COORD_MAX,
    ensures
        -T_MAX_FX <= fx_div_s(a, d) <= T_MAX_FX,
{
    lemma_tdiv_mag(a * FX_ONE, d);
    assert(abs_s(a * FX_ONE) == abs_s(a) * FX_ONE) by (nonlinear_arith);
    assert(abs_s(a) * FX_ONE <= T_MAX_FX * abs_s(d)) by (nonlinear_arith)
        requires
            abs_s(a) <= 2 * COORD_MAX,
            abs_s(d) >= 1,
            2 * COORD_MAX * FX_ONE == T_MAX_FX,
    ;
    lemma_tdiv_bound_by(a * FX_ONE, abs_s(d), T_MAX_FX as int);
    assert(tdiv_s(a * FX_ONE, d) == tdiv_s(a * FX_ONE, abs_s(d)) || tdiv_s(a * FX_ONE, d) == -tdiv_s(
        a * FX_ONE,
        abs_s(d),
    ));
}

proof fn lemma_lerp_fits(lo: int, hi: int, amount: int)
    requires
        -COORD_MAX <= lo <= COORD_MAX,
        -COORD_MAX <= hi <= COORD_MAX,
        lo <= hi,
        -COORD_MAX <= amount <= COORD_MAX,
    ensures
        i64::MIN <= fx_mul_s(hi - lo, amount) <= i64::MAX,
        i64::MIN <= lo + fx_mul_s(hi - lo, amount) <= i64::MAX,
{
    assert(-0x2000_0000_0000_0000 <= (hi - lo) * amount <= 0x2000_0000_0000_0000)
        by (nonlinear_arith)
        requires
            0 <= hi - lo <= 2 * COORD_MAX,
            -COORD_MAX <= amount <= COORD_MAX,
    ;
    lemma_tdiv_bound_by((hi - lo) * amount, FX_ONE as int, 0x2000_0000_0000_0000);
}

proof fn lemma_diagonal_products(b: Bounds3)
    requires
        b.wf(),
        b.in_range(),
    ensures
        ({
            let d = diagonal_s(b);
            &&& 0 <= fx_mul_s(d.x as int, d.y as int) <= 0x4000_0000_0000
            &&& 0 <= fx_mul_s(d.x as int, d.z as int) <= 0x4000_0000_0000
            &&& 0 <= fx_mul_s(d.y as int, d.z as int) <= 0x4000_0000_0000
            &&& 0 <= fx_mul_s(fx_mul_s(d.x as int, d.y as int), d.z as int)
                <= 0x2000_0000_0000_0000
        }),
{
    let d = diagonal_s(b);
    lemma_fx_mul_extent(d.x as int, d.y as int);
    lemma_fx_mul_extent(d.x as int, d.z as int);
    lemma_fx_mul_extent(d.y as int, d.z as int);
    let xy = fx_mul_s(d.x as int, d.y as int);
    assert(0 <= xy * d.z <= 0x2000_0000_0000_0000 * FX_ONE) by (nonlinear_arith)
        requires
            0 <= xy <= 0x4000_0000_0000,
            0 <= d.z <= 2 * COORD_MAX,
    ;
    crate::fx::lemma_tdiv_sign(xy * d.z, FX_ONE as int);
    lemma_tdiv_bound_by(xy * d.z, FX_ONE as int, 0x2000_0000_0000_0000);
}

proof fn lemma_fx_mul_extent(a: int, b: int)
    requires
        0 <= a <= 2 * COORD_MAX,
        0 <= b <= 2 * COORD_MAX,
    ensures
        0 <= fx_mul_s(a, b) <= 0x4000_0000_0000,
{
    assert(0 <= a * b <= 0x4000_0000_0000 * FX_ONE) by (nonlinear_arith)
        requires
            0 <= a <= 2 * COORD_MAX,
            0 <= b <= 2 * COORD_MAX,
    ;
    crate::fx::lemma_tdiv_sign(a * b, FX_ONE as int);
    lemma_tdiv_bound_by(a * b, FX_ONE as int, 0x4000_0000_0000);
}

/// A box absorbs the union with any point it already contains: for any box
/// `b` and point `p` inside it (inclusive), `union(b, from_point(p)) == b`.
pub proof fn lemma_union_with_inside_point(b: Bounds3, p: Point3)
    requires
        b.wf(),
        inside_s(b, p),
    ensures
        union_s(b, from_point_s(p)) == b,
{
}

/// A non-empty box intersected with itself is itself, and boxes that do
/// not overlap intersect to `None`.
pub proof fn lemma_intersection_self_and_disjoint(a: Bounds3, b: Bounds3)
    requires
        a.wf(),
        b.wf(),
    ensures
        a is Corners ==> intersection_s(a, a) == Some(a),
        !overlaps_s(a, b) ==> intersection_s(a, b) is None,
{
}

/// The overlap test agrees exactly with intersection: two boxes overlap
/// if and only if their intersection exists.
pub proof fn lemma_overlaps_iff_intersects(a: Bounds3, b: Bounds3)
    requires
        a.wf(),
        b.wf(),
    ensures
        overlaps_s(a, b) == (intersection_s(a, b) is Some),
{
}

proof fn lemma_slab_axis_inside(bmin: i64, bmax: i64, o: i64, d: i64, t1: Scalar)
    requires
        -COORD_MAX <= bmin <= COORD_MAX,
        -COORD_MAX <= bmax <= COORD_MAX,
        -COORD_MAX <= o <= COORD_MAX,
        -COORD_MAX <= d <= COORD_MAX,
        bmin < o < bmax,
        !t1.is_nan(),
        Scalar::Finite(0).le_spec(t1),
    ensures
        slab_axis_s(bmin, bmax, o, d, 0, t1) matches Some(v) && v.0 == 0 && Scalar::Finite(
            0,
        ).le_spec(v.1),
{
    if d != 0 {
        let a1 = (bmin - o) as int;
        let a2 = (bmax - o) as int;
        lemma_slab_t_fits(a1, d as int);
        lemma_slab_t_fits(a2, d as int);
        crate::fx::lemma_tdiv_sign_full(a1 * FX_ONE, d as int);
        crate::fx::lemma_tdiv_sign_full(a2 * FX_ONE, d as int);
        let ta = fx_div_s(a1, d as int);
        let tb = fx_div_s(a2, d as int);
        let tn: int = if ta <= tb {
            ta
        } else {
            tb
        };
        let tf: int = if ta <= tb {
            tb
        } else {
            ta
        };
        assert(tn <= 0);
        assert(tf >= 0);
        assert(tf as i64 == tf);
        let nt1: Scalar = if Scalar::Finite(tf as i64).lt_spec(t1) {
            Scalar::Finite(tf as i64)
        } else {
            t1
        };
        assert(Scalar::Finite(0).le_spec(nt1));
        assert(!nt1.lt_spec(Scalar::Finite(0)));
    }
}

/// A ray whose origin is strictly inside a box, with a positive parameter
/// bound, always hits: the slab test returns an interval whose lower bound
/// is 0.
pub proof fn lemma_ray_inside_hits_at_zero(b: Bounds3, r: Ray)
    requires
        b.wf(),
        b.in_range(),
        ray_in_range(r),
        inside_exclusive_s(b, r.origin),
        Scalar::Finite(0).lt_spec(r.t_max),
    ensures
        ray_box_s(b, r) matches Some(v) && v.0 == 0 && Scalar::Finite(0).le_spec(v.1),
{
    let min = b->Corners_min;
    let max = b->Corners_max;
    lemma_slab_axis_inside(min.x, max.x, r.origin.x, r.direction.x, r.t_max);
    let v1 = slab_axis_s(min.x, max.x, r.origin.x, r.direction.x, 0, r.t_max)->Some_0;
    lemma_slab_axis_inside(min.y, max.y, r.origin.y, r.direction.y, v1.1);
    let v2 = slab_axis_s(min.y, max.y, r.origin.y, r.direction.y, v1.0, v1.1)->Some_0;
    lemma_slab_axis_inside(min.z, max.z, r.origin.z, r.direction.z, v2.1);
}

/// A ray parallel to an axis, with origin outside the box's slab on that
/// axis, never intersects the box, whatever the other axes hold.
pub proof fn lemma_parallel_outside_misses(b: Bounds3, r: Ray)
    requires
        b.wf(),
    ensures
        b matches Bounds3::Corners { min, max } ==> {
            &&& (r.direction.x == 0 && (r.origin.x < min.x || r.origin.x > max.x)) ==> ray_box_s(
                b,
                r,
            ) is None
            &&& (r.direction.y == 0 && (r.origin.y < min.y || r.origin.y > max.y)) ==> ray_box_s(
                b,
                r,
            ) is None
            &&& (r.direction.z == 0 && (r.origin.z < min.z || r.origin.z > max.z)) ==> ray_box_s(
                b,
                r,
            ) is None
        },
        b is Empty ==> ray_box_s(b, r) is None,
{
}

} // verus!
