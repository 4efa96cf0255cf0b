use efloat::EFloat32;
use raygeom::bounds::Bounds3;
use raygeom::fx::FX_ONE;
use raygeom::ray::Ray;
use raygeom::scalar::Scalar;
use raygeom::shape::sphere::Sphere;
use raygeom::shape::triangle::{MeshError, TiangleMeshBuilder, TriangleMesh};
use raygeom::shape::TransformArena;
use raygeom::transform::AffineTransform;
use raygeom::vector::{Point2, Point3, Vector3};

/// The full azimuthal sweep in the kernel's azimuth measure.
const FULL_SWEEP: i64 = 4 * FX_ONE;

/// Two pi in fixed-point radians.
const TWO_PI_FX: i64 = 411775;

fn identity_arena() -> (TransformArena, usize) {
    let mut arena = TransformArena::new();
    let h = arena.add(AffineTransform::identity());
    (arena, h)
}

fn unit_sphere(arena: &TransformArena, h: usize) -> Sphere {
    Sphere::new(arena, h, false, FX_ONE, -FX_ONE, FX_ONE, TWO_PI_FX, FULL_SWEEP)
}

fn ray(origin: Point3, direction: Vector3, t_max: Scalar) -> Ray {
    Ray {
        origin,
        direction,
        t_max,
        time: 0,
        medium: None,
    }
}

fn p(x: i64, y: i64, z: i64) -> Point3 {
    Point3 {
        x: x * FX_ONE,
        y: y * FX_ONE,
        z: z * FX_ONE,
    }
}

fn v(x: i64, y: i64, z: i64) -> Vector3 {
    Vector3 {
        x: x * FX_ONE,
        y: y * FX_ONE,
        z: z * FX_ONE,
    }
}

#[test]
fn sphere_axial_hit_at_four() {
    // Unit sphere at the origin, ray from (0,0,5) toward -z, unbounded:
    // nearest hit at t=4, hit point (0,0,1), outward normal (0,0,1).
    let (arena, h) = identity_arena();
    let s = unit_sphere(&arena, h);
    let r = ray(p(0, 0, 5), v(0, 0, -1), Scalar::PosInf);
    let (t, si) = s.ray_intersection(&arena, &r, false).unwrap();
    assert_eq!(t, 4 * FX_ONE);
    assert_eq!(si.point(), p(0, 0, 1));
    assert_eq!(si.normal(), v(0, 0, 1));
    assert!(s.does_ray_intersect(&arena, &r, false));
}

#[test]
fn sphere_roots_at_distance_plus_minus_radius() {
    // A ray through the exact centre of a sphere of radius r finds roots
    // at distance - r and distance + r: clipping away the first hit makes
    // the second one, at t = 6, visible.
    let (arena, h) = identity_arena();
    let clipped = Sphere::new(
        &arena,
        h,
        false,
        FX_ONE,
        -FX_ONE,
        FX_ONE / 2,
        TWO_PI_FX,
        FULL_SWEEP,
    );
    let r = ray(p(0, 0, 5), v(0, 0, -1), Scalar::PosInf);
    let (t, si) = clipped.ray_intersection(&arena, &r, false).unwrap();
    assert_eq!(t, 6 * FX_ONE);
    assert_eq!(si.point(), p(0, 0, -1));
}

#[test]
fn sphere_azimuth_clip_tries_larger_root() {
    // Sweep of a quarter turn starting at +x: the first root at (-1,0,0)
    // fails the azimuth clip, the second at (1,0,0) passes.
    let (arena, h) = identity_arena();
    let quarter = Sphere::new(
        &arena,
        h,
        false,
        FX_ONE,
        -FX_ONE,
        FX_ONE,
        TWO_PI_FX / 4,
        FX_ONE,
    );
    let r = ray(p(-5, 0, 0), v(1, 0, 0), Scalar::PosInf);
    let (t, si) = quarter.ray_intersection(&arena, &r, false).unwrap();
    assert_eq!(t, 6 * FX_ONE);
    assert_eq!(si.point(), p(1, 0, 0));
}

#[test]
fn sphere_misses() {
    let (arena, h) = identity_arena();
    let s = unit_sphere(&arena, h);
    // Pointing away: both roots negative.
    let away = ray(p(0, 0, 5), v(0, 0, 1), Scalar::PosInf);
    assert_eq!(s.ray_intersection(&arena, &away, false).map(|hit| hit.0), None);
    // Offset past the radius: no real root.
    let offset = ray(p(0, 5, 5), v(0, 0, -1), Scalar::PosInf);
    assert!(!s.does_ray_intersect(&arena, &offset, false));
    // Hit beyond t_max.
    let short = ray(p(0, 0, 5), v(0, 0, -1), Scalar::Finite(3 * FX_ONE));
    assert!(!s.does_ray_intersect(&arena, &short, false));
    // A degenerate direction never hits.
    let still = ray(p(0, 0, 5), v(0, 0, 0), Scalar::PosInf);
    assert!(!s.does_ray_intersect(&arena, &still, false));
}

#[test]
fn sphere_normal_points_outward() {
    // With reverse_orientation off and a handedness-preserving transform,
    // the geometric normal at a hit points away from the centre.
    let (arena, h) = identity_arena();
    let s = unit_sphere(&arena, h);
    let rays = [
        ray(p(0, 0, 5), v(0, 0, -1), Scalar::PosInf),
        ray(p(5, 0, 0), v(-1, 0, 0), Scalar::PosInf),
        ray(p(5, 5, 5), v(-1, -1, -1), Scalar::PosInf),
        ray(p(-4, 0, 0), v(1, 0, 0), Scalar::PosInf),
    ];
    for r in rays {
        if let Some((_, si)) = s.ray_intersection(&arena, &r, false) {
            let n = si.normal();
            let q = si.point();
            let dot = n.x as i128 * q.x as i128 + n.y as i128 * q.y as i128
                + n.z as i128 * q.z as i128;
            assert!(dot > 0);
        } else {
            panic!("expected a hit");
        }
    }
}

#[test]
fn sphere_bounds_and_area() {
    let (arena, h) = identity_arena();
    let s = unit_sphere(&arena, h);
    assert_eq!(
        s.object_bound(),
        Bounds3::from_corners(p(-1, -1, -1), p(1, 1, 1))
    );
    assert_eq!(
        s.world_bound(&arena),
        Bounds3::from_corners(p(-1, -1, -1), p(1, 1, 1))
    );
    // Area = phi_max * r * (z_max - z_min) = 2 pi * 1 * 2 = 4 pi.
    let area = s.surface_area();
    let expected = 4.0 * std::f64::consts::PI;
    let got = area as f64 / FX_ONE as f64;
    assert!((got - expected).abs() < 0.001);
}

#[test]
fn sphere_new_sorts_and_clamps_z_range() {
    let (arena, h) = identity_arena();
    let s = Sphere::new(
        &arena,
        h,
        false,
        FX_ONE,
        5 * FX_ONE,
        -5 * FX_ONE,
        TWO_PI_FX,
        FULL_SWEEP,
    );
    assert_eq!(s.z_min, -FX_ONE);
    assert_eq!(s.z_max, FX_ONE);
    assert!(!s.reverse_orientation());
    assert!(!s.object_to_world_swaps_handedness());
}

fn unit_right_triangle(arena: &TransformArena, h: usize) -> TriangleMesh {
    TiangleMeshBuilder::new(
        h,
        false,
        vec![p(0, 0, 0), p(1, 0, 0), p(0, 1, 0)],
        vec![(0, 1, 2)],
    )
    .build(arena)
    .unwrap()
}

#[test]
fn triangle_hit_with_barycentrics() {
    // Vertices (0,0,0), (1,0,0), (0,1,0); ray from (0.25, 0.25, 1) toward
    // -z: hit at t=1 with barycentric coordinates (0.5, 0.25, 0.25).
    let (arena, h) = identity_arena();
    let mesh = unit_right_triangle(&arena, h);
    let tri = mesh.triangle_at(0);
    let r = ray(
        Point3 {
            x: FX_ONE / 4,
            y: FX_ONE / 4,
            z: FX_ONE,
        },
        v(0, 0, -1),
        Scalar::PosInf,
    );
    let (t, si) = tri.ray_intersection(&mesh, &r, false).unwrap();
    assert_eq!(t, FX_ONE);
    let q = si.point();
    assert_eq!(
        q,
        Point3 {
            x: FX_ONE / 4,
            y: FX_ONE / 4,
            z: 0
        }
    );
    // Barycentric coordinates of the hit point: nonnegative, summing to 1.
    let b1 = q.x as f64 / FX_ONE as f64;
    let b2 = q.y as f64 / FX_ONE as f64;
    let b0 = 1.0 - b1 - b2;
    assert!(b0 >= 0.0 && b1 >= 0.0 && b2 >= 0.0);
    assert!((b0 + b1 + b2 - 1.0).abs() < 1e-9);
    // The default UV parameterization interpolates to (0.5, 0.25).
    assert_eq!(
        si.uv(),
        Point2 {
            x: FX_ONE / 2,
            y: FX_ONE / 4
        }
    );
}

#[test]
fn triangle_misses() {
    let (arena, h) = identity_arena();
    let mesh = unit_right_triangle(&arena, h);
    let tri = mesh.triangle_at(0);
    // Outside the barycentric range.
    let out = ray(p(1, 1, 1), v(0, 0, -1), Scalar::PosInf);
    assert!(!tri.does_ray_intersect(&mesh, &out, false));
    // Parallel to the plane.
    let parallel = ray(p(0, 0, 1), v(1, 0, 0), Scalar::PosInf);
    assert!(!tri.does_ray_intersect(&mesh, &parallel, false));
    // Behind the origin.
    let behind = ray(
        Point3 {
            x: FX_ONE / 4,
            y: FX_ONE / 4,
            z: FX_ONE,
        },
        v(0, 0, 1),
        Scalar::PosInf,
    );
    assert!(!tri.does_ray_intersect(&mesh, &behind, false));
    // Nearer than the hit allows, t_max = 0.5.
    let short = ray(
        Point3 {
            x: FX_ONE / 4,
            y: FX_ONE / 4,
            z: FX_ONE,
        },
        v(0, 0, -1),
        Scalar::Finite(FX_ONE / 2),
    );
    assert!(!tri.does_ray_intersect(&mesh, &short, false));
}

#[test]
fn triangle_bounds_and_area() {
    let (arena, h) = identity_arena();
    let mesh = unit_right_triangle(&arena, h);
    let tri = mesh.triangle_at(0);
    let expected = Bounds3::from_corners(p(0, 0, 0), p(1, 1, 0));
    assert_eq!(tri.world_bound(&mesh), expected);
    assert_eq!(tri.object_bound(&mesh, &arena), expected);
    // A right triangle with unit legs has area one half.
    assert_eq!(tri.surface_area(&mesh), FX_ONE / 2);
    let (q0, q1, q2) = tri.world_space_vertices(&mesh);
    assert_eq!((q0, q1, q2), (p(0, 0, 0), p(1, 0, 0), p(0, 1, 0)));
    let (o0, _, _) = tri.object_space_vertices(&mesh, &arena);
    assert_eq!(o0, p(0, 0, 0));
    assert_eq!(mesh.n_triangles(), 1);
}

#[test]
fn triangle_uses_vertex_uvs_when_present() {
    let (arena, h) = identity_arena();
    let mesh = TiangleMeshBuilder::new(
        h,
        false,
        vec![p(0, 0, 0), p(1, 0, 0), p(0, 1, 0)],
        vec![(0, 1, 2)],
    )
    .uvs(vec![
        Point2 { x: 0, y: 0 },
        Point2 {
            x: 2 * FX_ONE,
            y: 0,
        },
        Point2 {
            x: 0,
            y: 2 * FX_ONE,
        },
    ])
    .build(&arena)
    .unwrap();
    let tri = mesh.triangle_at(0);
    let r = ray(
        Point3 {
            x: FX_ONE / 4,
            y: FX_ONE / 4,
            z: FX_ONE,
        },
        v(0, 0, -1),
        Scalar::PosInf,
    );
    let (_, si) = tri.ray_intersection(&mesh, &r, false).unwrap();
    // u = v = 0.25 against the doubled UV chart.
    assert_eq!(
        si.uv(),
        Point2 {
            x: FX_ONE / 2,
            y: FX_ONE / 2
        }
    );
}

#[test]
fn builder_rejects_bad_indices() {
    let (arena, h) = identity_arena();
    let err = TiangleMeshBuilder::new(h, false, vec![p(0, 0, 0), p(1, 0, 0)], vec![(0, 1, 2)])
        .build(&arena)
        .unwrap_err();
    assert_eq!(err, MeshError::InvalidVertexIndex);
}

#[test]
fn builder_rejects_attribute_length_mismatch() {
    let (arena, h) = identity_arena();
    let err = TiangleMeshBuilder::new(
        h,
        false,
        vec![p(0, 0, 0), p(1, 0, 0), p(0, 1, 0)],
        vec![(0, 1, 2)],
    )
    .normals(vec![v(0, 0, 1)])
    .build(&arena)
    .unwrap_err();
    assert_eq!(err, MeshError::AttributeLengthMismatch);
}

#[test]
fn builder_rejects_invalid_transform_handle() {
    let arena = TransformArena::new();
    let err = TiangleMeshBuilder::new(7, false, vec![p(0, 0, 0)], vec![])
        .build(&arena)
        .unwrap_err();
    assert_eq!(err, MeshError::InvalidTransformHandle);
}

#[test]
fn builder_rejects_vertex_out_of_range() {
    let (arena, h) = identity_arena();
    let err = TiangleMeshBuilder::new(
        h,
        false,
        vec![Point3 {
            x: i64::MAX / 2,
            y: 0,
            z: 0,
        }],
        vec![],
    )
    .build(&arena)
    .unwrap_err();
    assert_eq!(err, MeshError::VertexOutOfRange);
}

#[test]
fn builder_accepts_tangents_and_normals() {
    let (arena, h) = identity_arena();
    let mesh = TiangleMeshBuilder::new(
        h,
        false,
        vec![p(0, 0, 0), p(1, 0, 0), p(0, 1, 0)],
        vec![(0, 1, 2)],
    )
    .tangents(vec![v(1, 0, 0), v(1, 0, 0), v(1, 0, 0)])
    .normals(vec![v(0, 0, 1), v(0, 0, 1), v(0, 0, 1)])
    .build(&arena);
    assert!(mesh.is_ok());
}

#[test]
fn sphere_quadratic_agrees_with_efloat() {
    // The error-tracked float solve of the same quadric encloses the
    // kernel's exact fixed-point parameter.
    let (arena, h) = identity_arena();
    let s = unit_sphere(&arena, h);
    let r = ray(p(0, 0, 5), v(0, 0, -1), Scalar::PosInf);
    let (t, _) = s.ray_intersection(&arena, &r, false).unwrap();
    let t_value = t as f32 / FX_ONE as f32;

    let a = EFloat32::new(1.0);
    let b = EFloat32::new(-10.0);
    let c = EFloat32::new(24.0);
    let four = EFloat32::new(4.0);
    let two = EFloat32::new(2.0);
    let disc = b.clone() * b.clone() - four * a.clone() * c;
    let root = disc.sqrt();
    let t0 = (EFloat32::new(0.0) - b - root) / (two * a);
    assert!(t0.lower_bound() - 1e-3 <= t_value);
    assert!(t_value <= t0.upper_bound() + 1e-3);
}
