use raygeom::axis::Axis3;
use raygeom::bounds::Bounds3;
use raygeom::fx::FX_ONE;
use raygeom::ray::Ray;
use raygeom::scalar::Scalar;
use raygeom::vector::{Point3, Vector3};

fn p(x: i64, y: i64, z: i64) -> Point3 {
    Point3 {
        x: x * FX_ONE,
        y: y * FX_ONE,
        z: z * FX_ONE,
    }
}

fn ray(origin: Point3, direction: Vector3, t_max: Scalar) -> Ray {
    Ray {
        origin,
        direction,
        t_max,
        time: 0,
        medium: None,
    }
}

#[test]
fn union_with_inside_point_is_identity() {
    // A box absorbs any point it already contains, faces included.
    let b = Bounds3::from_corners(p(0, 0, 0), p(2, 3, 4));
    let inside = [p(1, 1, 1), p(0, 0, 0), p(2, 3, 4), p(2, 0, 4)];
    for q in inside {
        assert!(b.inside(&q));
        assert_eq!(b.union(&Bounds3::from_point(q)), b);
        assert_eq!(b.union_with_point(&q), b);
    }
}

#[test]
fn union_extends_to_outside_point() {
    let b = Bounds3::from_corners(p(0, 0, 0), p(1, 1, 1));
    let grown = b.union_with_point(&p(3, -1, 0));
    assert_eq!(grown, Bounds3::from_corners(p(0, -1, 0), p(3, 1, 1)));
}

#[test]
fn union_with_empty_is_identity() {
    let b = Bounds3::from_corners(p(0, 0, 0), p(1, 1, 1));
    assert_eq!(b.union(&Bounds3::Empty), b);
    assert_eq!(Bounds3::Empty.union(&b), b);
}

#[test]
fn intersection_with_self_is_self() {
    let b = Bounds3::from_corners(p(-1, -2, -3), p(4, 5, 6));
    assert_eq!(b.intersection(&b), Some(b));
}

#[test]
fn intersection_of_disjoint_is_none() {
    let a = Bounds3::from_corners(p(0, 0, 0), p(1, 1, 1));
    let b = Bounds3::from_corners(p(2, 2, 2), p(3, 3, 3));
    assert_eq!(a.intersection(&b), None);
    assert_eq!(b.intersection(&a), None);
}

#[test]
fn intersection_of_overlap_is_common_box() {
    let a = Bounds3::from_corners(p(0, 0, 0), p(2, 2, 2));
    let b = Bounds3::from_corners(p(1, 1, 1), p(3, 3, 3));
    assert_eq!(
        a.intersection(&b),
        Some(Bounds3::from_corners(p(1, 1, 1), p(2, 2, 2)))
    );
}

#[test]
fn overlaps_agrees_with_intersection() {
    let a = Bounds3::from_corners(p(0, 0, 0), p(2, 2, 2));
    let cases = [
        Bounds3::from_corners(p(1, 1, 1), p(3, 3, 3)),
        Bounds3::from_corners(p(2, 2, 2), p(3, 3, 3)), // touching at a corner
        Bounds3::from_corners(p(3, 3, 3), p(4, 4, 4)), // disjoint
        Bounds3::from_corners(p(0, 0, 3), p(2, 2, 4)), // disjoint on one axis only
        Bounds3::Empty,
    ];
    for b in cases {
        assert_eq!(a.overlaps(&b), a.intersection(&b).is_some());
        assert_eq!(b.overlaps(&a), b.intersection(&a).is_some());
    }
}

#[test]
fn inside_inclusive_and_exclusive() {
    let b = Bounds3::from_corners(p(0, 0, 0), p(1, 1, 1));
    // A face point is inside inclusively but not exclusively.
    assert!(b.inside(&p(0, 0, 0)));
    assert!(!b.inside_exclusive(&p(0, 0, 0)));
    let mid = Point3 {
        x: FX_ONE / 2,
        y: FX_ONE / 2,
        z: FX_ONE / 2,
    };
    assert!(b.inside(&mid));
    assert!(b.inside_exclusive(&mid));
    assert!(!b.inside(&p(2, 0, 0)));
    assert!(!Bounds3::Empty.inside(&p(0, 0, 0)));
}

#[test]
fn from_corners_sorts_per_axis() {
    let b = Bounds3::from_corners(p(2, 0, 5), p(0, 3, 1));
    assert_eq!(b, Bounds3::from_corners(p(0, 0, 1), p(2, 3, 5)));
}

#[test]
fn corners_lists_all_eight() {
    let b = Bounds3::from_corners(p(0, 0, 0), p(1, 2, 3));
    let cs = b.corners();
    assert_eq!(cs.len(), 8);
    assert_eq!(cs[0], p(0, 0, 0));
    assert_eq!(cs[1], p(1, 0, 0));
    assert_eq!(cs[2], p(0, 2, 0));
    assert_eq!(cs[7], p(1, 2, 3));
    assert_eq!(Bounds3::Empty.corners().len(), 0);
}

#[test]
fn expand_inflates_and_ignores_nonpositive() {
    let mut b = Bounds3::from_corners(p(0, 0, 0), p(1, 1, 1));
    b.expand(FX_ONE);
    assert_eq!(b, Bounds3::from_corners(p(-1, -1, -1), p(2, 2, 2)));
    let before = b;
    b.expand(0);
    assert_eq!(b, before);
    b.expand(-FX_ONE);
    assert_eq!(b, before);
}

#[test]
fn diagonal_surface_area_volume() {
    let b = Bounds3::from_corners(p(0, 0, 0), p(1, 2, 3));
    let d = b.diagonal();
    assert_eq!((d.x, d.y, d.z), (FX_ONE, 2 * FX_ONE, 3 * FX_ONE));
    // 2 * (1*2 + 1*3 + 2*3) = 22
    assert_eq!(b.surface_area(), 22 * FX_ONE);
    assert_eq!(b.volume(), 6 * FX_ONE);
    assert_eq!(Bounds3::Empty.surface_area(), 0);
    assert_eq!(Bounds3::Empty.volume(), 0);
}

#[test]
fn maximum_extend_picks_longest_axis() {
    assert_eq!(
        Bounds3::from_corners(p(0, 0, 0), p(5, 1, 1)).maximum_extend(),
        Axis3::X
    );
    assert_eq!(
        Bounds3::from_corners(p(0, 0, 0), p(1, 5, 1)).maximum_extend(),
        Axis3::Y
    );
    assert_eq!(
        Bounds3::from_corners(p(0, 0, 0), p(1, 1, 5)).maximum_extend(),
        Axis3::Z
    );
    // Ties prefer earlier axes: an all-equal box resolves to X.
    assert_eq!(
        Bounds3::from_corners(p(0, 0, 0), p(1, 1, 1)).maximum_extend(),
        Axis3::X
    );
    // A tie between Y and Z (both longer than X) resolves to Y.
    assert_eq!(
        Bounds3::from_corners(p(0, 0, 0), p(1, 5, 5)).maximum_extend(),
        Axis3::Y
    );
}

#[test]
fn lerp_interpolates_and_extrapolates() {
    let b = Bounds3::from_corners(p(0, 0, 0), p(2, 4, 8));
    let mid = b.lerp(FX_ONE / 2);
    assert_eq!(mid, p(1, 2, 4));
    let past = b.lerp(2 * FX_ONE);
    assert_eq!(past, p(4, 8, 16));
}

#[test]
fn ray_box_hit_interval_one_to_two() {
    // Box (0,0,0)-(1,1,1); ray from (0.5, 0.5, -1) along +z: hits at t in (1, 2).
    let b = Bounds3::from_corners(p(0, 0, 0), p(1, 1, 1));
    let r = ray(
        Point3 {
            x: FX_ONE / 2,
            y: FX_ONE / 2,
            z: -FX_ONE,
        },
        Vector3 {
            x: 0,
            y: 0,
            z: FX_ONE,
        },
        Scalar::PosInf,
    );
    assert_eq!(
        b.ray_intersection(&r),
        Some((FX_ONE, Scalar::Finite(2 * FX_ONE)))
    );
}

#[test]
fn ray_box_origin_inside_starts_at_zero() {
    let b = Bounds3::from_corners(p(0, 0, 0), p(2, 2, 2));
    let r = ray(
        p(1, 1, 1),
        Vector3 {
            x: 3 * FX_ONE,
            y: FX_ONE,
            z: -FX_ONE,
        },
        Scalar::Finite(100 * FX_ONE),
    );
    let (t0, t1) = b.ray_intersection(&r).unwrap();
    assert_eq!(t0, 0);
    assert!(Scalar::Finite(0).le(t1));
}

#[test]
fn ray_box_parallel_outside_slab_misses() {
    let b = Bounds3::from_corners(p(0, 0, 0), p(1, 1, 1));
    // Parallel to z, origin outside the x slab: no hit whatever z does.
    let r = ray(
        p(2, 0, -5),
        Vector3 {
            x: 0,
            y: 0,
            z: FX_ONE,
        },
        Scalar::PosInf,
    );
    assert_eq!(b.ray_intersection(&r), None);
    // Parallel to z inside both slabs: full range survives.
    let r2 = ray(
        Point3 {
            x: FX_ONE / 2,
            y: FX_ONE / 2,
            z: -5 * FX_ONE,
        },
        Vector3 {
            x: 0,
            y: 0,
            z: FX_ONE,
        },
        Scalar::Finite(10 * FX_ONE),
    );
    assert!(b.ray_intersection(&r2).is_some());
}

#[test]
fn ray_box_behind_origin_misses() {
    let b = Bounds3::from_corners(p(2, 2, 2), p(3, 3, 3));
    let r = ray(
        p(0, 0, 0),
        Vector3 {
            x: -FX_ONE,
            y: -FX_ONE,
            z: -FX_ONE,
        },
        Scalar::PosInf,
    );
    assert_eq!(b.ray_intersection(&r), None);
}
