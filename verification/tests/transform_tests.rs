use cgmath::Transform as CgTransform;
use raygeom::bounds::Bounds3;
use raygeom::fx::FX_ONE;
use raygeom::ray::Ray;
use raygeom::scalar::Scalar;
use raygeom::shape::TransformArena;
use raygeom::transform::{AffineTransform, Matrix4, SwapHandedness, Transform};
use raygeom::vector::{Point3, Vector3};

fn fxp(v: f32) -> i64 {
    (v * FX_ONE as f32).round() as i64
}

/// A translation matrix in fixed point.
fn translation(tx: i64, ty: i64, tz: i64) -> Matrix4 {
    let mut m = Matrix4::identity();
    m.m03 = tx;
    m.m13 = ty;
    m.m23 = tz;
    m
}

/// An axis-aligned scale matrix in fixed point.
fn scale(sx: i64, sy: i64, sz: i64) -> Matrix4 {
    let mut m = Matrix4::identity();
    m.m00 = sx;
    m.m11 = sy;
    m.m22 = sz;
    m
}

#[test]
fn identity_transforms_nothing() {
    let t = AffineTransform::identity();
    let p = Point3 {
        x: 3 * FX_ONE,
        y: -2 * FX_ONE,
        z: FX_ONE / 2,
    };
    let v = Vector3 {
        x: FX_ONE,
        y: 5 * FX_ONE,
        z: 0,
    };
    assert_eq!(t.transform_point(&p), p);
    assert_eq!(t.transform_vector(&v), v);
    assert_eq!(t.transform_normal(&v), v);
    assert!(!t.swaps_handedness());
}

#[test]
fn translation_moves_points_not_vectors() {
    let m = translation(2 * FX_ONE, -FX_ONE, 3 * FX_ONE);
    let m_inv = translation(-2 * FX_ONE, FX_ONE, -3 * FX_ONE);
    let t = AffineTransform::new(m, m_inv);
    let p = Point3 {
        x: FX_ONE,
        y: FX_ONE,
        z: FX_ONE,
    };
    let v = Vector3 {
        x: FX_ONE,
        y: FX_ONE,
        z: FX_ONE,
    };
    assert_eq!(
        t.transform_point(&p),
        Point3 {
            x: 3 * FX_ONE,
            y: 0,
            z: 4 * FX_ONE
        }
    );
    assert_eq!(t.transform_vector(&v), v);
    assert_eq!(t.inv_transform_point(&t.transform_point(&p)), p);
}

#[test]
fn mirror_swaps_handedness() {
    let m = scale(-FX_ONE, FX_ONE, FX_ONE);
    assert!(m.swaps_handedness());
    assert!(!Matrix4::identity().swaps_handedness());
    let t = AffineTransform::new(m, m);
    assert!(t.swaps_handedness());
}

#[test]
fn normal_uses_inverse_transpose() {
    // Non-uniform scale (2, 1, 1): a vector along the 45-degree diagonal
    // stretches in x, while the surface normal must shear the other way
    // (inverse-transpose), shrinking in x.
    let m = scale(2 * FX_ONE, FX_ONE, FX_ONE);
    let m_inv = scale(FX_ONE / 2, FX_ONE, FX_ONE);
    let t = AffineTransform::new(m, m_inv);
    let n = Vector3 {
        x: FX_ONE,
        y: FX_ONE,
        z: 0,
    };
    let moved = t.transform_vector(&n);
    assert_eq!(moved.x, 2 * FX_ONE);
    let normal = t.transform_normal(&n);
    assert_eq!(normal.x, FX_ONE / 2);
    assert_eq!(normal.y, FX_ONE);
}

#[test]
fn ray_transform_carries_bounds_through() {
    let m = translation(FX_ONE, 0, 0);
    let m_inv = translation(-FX_ONE, 0, 0);
    let t = AffineTransform::new(m, m_inv);
    let r = Ray {
        origin: Point3 { x: 0, y: 0, z: 0 },
        direction: Vector3 {
            x: 0,
            y: FX_ONE,
            z: 0,
        },
        t_max: Scalar::Finite(7 * FX_ONE),
        time: 42,
        medium: None,
    };
    let moved = t.transform(&r);
    assert_eq!(moved.origin.x, FX_ONE);
    assert_eq!(moved.direction.y, FX_ONE);
    assert_eq!(moved.t_max, Scalar::Finite(7 * FX_ONE));
    assert_eq!(moved.time, 42);
}

#[test]
fn bounds_warp_by_translation() {
    let m = translation(FX_ONE, 2 * FX_ONE, 0);
    let m_inv = translation(-FX_ONE, -2 * FX_ONE, 0);
    let t = AffineTransform::new(m, m_inv);
    let b = Bounds3::from_corners(
        Point3 { x: 0, y: 0, z: 0 },
        Point3 {
            x: FX_ONE,
            y: FX_ONE,
            z: FX_ONE,
        },
    );
    let warped = t.transform(&b);
    assert_eq!(
        warped,
        Bounds3::from_corners(
            Point3 {
                x: FX_ONE,
                y: 2 * FX_ONE,
                z: 0
            },
            Point3 {
                x: 2 * FX_ONE,
                y: 3 * FX_ONE,
                z: FX_ONE
            }
        )
    );
    assert_eq!(t.transform(&Bounds3::Empty), Bounds3::Empty);
}

#[test]
fn arena_stores_and_returns_transforms() {
    let mut arena = TransformArena::new();
    assert_eq!(arena.len(), 0);
    let h0 = arena.add(AffineTransform::identity());
    let t1 = AffineTransform::new(
        translation(FX_ONE, 0, 0),
        translation(-FX_ONE, 0, 0),
    );
    let h1 = arena.add(t1);
    assert_eq!((h0, h1), (0, 1));
    assert_eq!(arena.len(), 2);
    let p = Point3 {
        x: FX_ONE,
        y: 0,
        z: 0,
    };
    assert_eq!(arena.get(h0).transform_point(&p), p);
    assert_eq!(arena.get(h1).transform_point(&p).x, 2 * FX_ONE);
}

#[test]
fn matches_cgmath_on_floats() {
    // The fixed-point transform agrees with cgmath's float transform to
    // within the fixed-point quantum.
    let cg = cgmath::Matrix4::from_translation(cgmath::Vector3::new(1.5f32, -2.25, 0.75));
    let m = translation(fxp(1.5), fxp(-2.25), fxp(0.75));
    let m_inv = translation(fxp(-1.5), fxp(2.25), fxp(-0.75));
    let t = AffineTransform::new(m, m_inv);
    let p32 = cgmath::Point3::new(0.5f32, 0.5, 0.5);
    let moved32 = cg.transform_point(p32);
    let moved = t.transform_point(&Point3 {
        x: fxp(0.5),
        y: fxp(0.5),
        z: fxp(0.5),
    });
    let tol = 2.0 / FX_ONE as f32;
    assert!((moved.x as f32 / FX_ONE as f32 - moved32.x).abs() <= tol);
    assert!((moved.y as f32 / FX_ONE as f32 - moved32.y).abs() <= tol);
    assert!((moved.z as f32 / FX_ONE as f32 - moved32.z).abs() <= tol);
}
