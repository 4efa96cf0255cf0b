use raygeom::fx::FX_ONE;
use raygeom::ray::{Ray, RayDifferential};
use raygeom::scalar::{max_partial_ord, min_partial_ord, OrderError, Scalar};
use raygeom::vector::{face_forward, Point3, Vector3};

#[test]
fn min_max_on_ordered_scalars() {
    let a = Scalar::Finite(3 * FX_ONE);
    let b = Scalar::Finite(-2 * FX_ONE);
    assert_eq!(min_partial_ord(a, b), Ok(b));
    assert_eq!(max_partial_ord(a, b), Ok(a));
    assert_eq!(min_partial_ord(a, a), Ok(a));
    assert_eq!(min_partial_ord(Scalar::NegInf, b), Ok(Scalar::NegInf));
    assert_eq!(max_partial_ord(Scalar::PosInf, a), Ok(Scalar::PosInf));
    assert_eq!(
        min_partial_ord(Scalar::NegInf, Scalar::PosInf),
        Ok(Scalar::NegInf)
    );
}

#[test]
fn min_max_reject_unorderable() {
    // An unorderable operand is an explicit error, never an abort.
    let a = Scalar::Finite(FX_ONE);
    assert_eq!(min_partial_ord(Scalar::Nan, a), Err(OrderError));
    assert_eq!(min_partial_ord(a, Scalar::Nan), Err(OrderError));
    assert_eq!(max_partial_ord(Scalar::Nan, Scalar::Nan), Err(OrderError));
}

#[test]
fn scalar_order_with_infinities() {
    assert!(Scalar::NegInf.lt(Scalar::Finite(i64::MIN)));
    assert!(Scalar::Finite(i64::MAX).lt(Scalar::PosInf));
    assert!(!Scalar::PosInf.lt(Scalar::PosInf));
    assert!(Scalar::PosInf.le(Scalar::PosInf));
    assert!(Scalar::Finite(0).le(Scalar::Finite(0)));
    assert!(!Scalar::Finite(1).le(Scalar::Finite(0)));
}

#[test]
fn ray_default_is_zero() {
    let r = Ray::default();
    assert_eq!(r.origin, Point3 { x: 0, y: 0, z: 0 });
    assert_eq!(r.direction, Vector3 { x: 0, y: 0, z: 0 });
    assert_eq!(r.t_max, Scalar::Finite(0));
    assert_eq!(r.time, 0);
    assert!(r.medium.is_none());
}

#[test]
fn scale_sample_distance_recentres_auxiliaries() {
    let mut rd = RayDifferential::default();
    rd.primary.origin = Point3 {
        x: FX_ONE,
        y: 0,
        z: 0,
    };
    rd.primary.direction = Vector3 {
        x: 0,
        y: 0,
        z: FX_ONE,
    };
    rd.dx_origin = Point3 {
        x: 3 * FX_ONE,
        y: 0,
        z: 0,
    };
    rd.dy_origin = Point3 {
        x: FX_ONE,
        y: 5 * FX_ONE,
        z: 0,
    };
    rd.dx_direction = Vector3 {
        x: 2 * FX_ONE,
        y: 0,
        z: FX_ONE,
    };
    rd.dy_direction = Vector3 {
        x: 0,
        y: 2 * FX_ONE,
        z: FX_ONE,
    };
    rd.scale_sample_distance(FX_ONE / 2);
    // Each auxiliary moves halfway back toward the primary.
    assert_eq!(rd.dx_origin.x, 2 * FX_ONE);
    assert_eq!(rd.dy_origin.y, 5 * FX_ONE / 2);
    assert_eq!(rd.dx_direction.x, FX_ONE);
    assert_eq!(rd.dy_direction.y, FX_ONE);
    // The primary ray itself is untouched.
    assert_eq!(rd.primary.origin.x, FX_ONE);
    assert_eq!(rd.primary.direction.z, FX_ONE);
}

#[test]
fn face_forward_flips_only_against() {
    let v = Vector3 {
        x: FX_ONE,
        y: 0,
        z: 0,
    };
    let same = Vector3 {
        x: FX_ONE,
        y: FX_ONE,
        z: 0,
    };
    let against = Vector3 {
        x: -FX_ONE,
        y: FX_ONE,
        z: 0,
    };
    let perpendicular = Vector3 {
        x: 0,
        y: FX_ONE,
        z: 0,
    };
    assert_eq!(face_forward(v, same), v);
    assert_eq!(
        face_forward(v, against),
        Vector3 {
            x: -FX_ONE,
            y: 0,
            z: 0
        }
    );
    // A right angle is kept, not flipped.
    assert_eq!(face_forward(v, perpendicular), v);
}

#[test]
fn normalize_unit_length_and_signs() {
    let v = Vector3 {
        x: 3 * FX_ONE,
        y: -4 * FX_ONE,
        z: 0,
    };
    let n = v.normalize();
    // 3-4-5 triangle: exactly (0.6, -0.8, 0).
    assert_eq!(n.x, 3 * FX_ONE / 5);
    assert_eq!(n.y, -4 * FX_ONE / 5);
    assert_eq!(n.z, 0);
    let zero = Vector3 { x: 0, y: 0, z: 0 };
    assert_eq!(zero.normalize(), zero);
}

#[test]
fn vector_and_point_algebra() {
    let a = Vector3 {
        x: FX_ONE,
        y: 2 * FX_ONE,
        z: -3 * FX_ONE,
    };
    let b = Vector3 {
        x: 4 * FX_ONE,
        y: -FX_ONE,
        z: FX_ONE,
    };
    assert_eq!(
        a.add(b),
        Vector3 {
            x: 5 * FX_ONE,
            y: FX_ONE,
            z: -2 * FX_ONE
        }
    );
    assert_eq!(
        a.sub(b),
        Vector3 {
            x: -3 * FX_ONE,
            y: 3 * FX_ONE,
            z: -4 * FX_ONE
        }
    );
    assert_eq!(
        a.scale(2 * FX_ONE),
        Vector3 {
            x: 2 * FX_ONE,
            y: 4 * FX_ONE,
            z: -6 * FX_ONE
        }
    );
    // Cross of the x and y axes is the z axis.
    let x_axis = Vector3 {
        x: FX_ONE,
        y: 0,
        z: 0,
    };
    let y_axis = Vector3 {
        x: 0,
        y: FX_ONE,
        z: 0,
    };
    assert_eq!(
        x_axis.cross(y_axis),
        Vector3 {
            x: 0,
            y: 0,
            z: FX_ONE
        }
    );
    let p = Point3 {
        x: FX_ONE,
        y: FX_ONE,
        z: FX_ONE,
    };
    let q = p.add_v(a);
    assert_eq!(
        q,
        Point3 {
            x: 2 * FX_ONE,
            y: 3 * FX_ONE,
            z: -2 * FX_ONE
        }
    );
    assert_eq!(q.sub(p), a);
}

#[test]
fn length_is_floor_of_euclidean_norm() {
    let v = Vector3 {
        x: FX_ONE,
        y: FX_ONE,
        z: 0,
    };
    let len = v.length();
    // sqrt(2) = 1.41421..., floor at 16 fractional bits.
    let exact = (2.0_f64).sqrt() * FX_ONE as f64;
    assert_eq!(len, exact.floor() as i64);
}
