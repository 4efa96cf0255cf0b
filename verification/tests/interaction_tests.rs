use raygeom::fx::FX_ONE;
use raygeom::interaction::SurfaceInteraction;
use raygeom::shape::GenericShape;
use raygeom::transform::{AffineTransform, Matrix4, Transform};
use raygeom::vector::{Point2, Point3, Vector3};

fn base_interaction(reverse_orientation: bool, transform_swaps_handedness: bool) -> SurfaceInteraction {
    SurfaceInteraction::new(
        Point3 {
            x: FX_ONE,
            y: 2 * FX_ONE,
            z: 3 * FX_ONE,
        },
        Vector3 { x: 1, y: 1, z: 1 },
        Some(Vector3 {
            x: 0,
            y: 0,
            z: FX_ONE,
        }),
        5,
        GenericShape {
            reverse_orientation,
            transform_swaps_handedness,
        },
        Point2 { x: 0, y: 0 },
        Vector3 {
            x: FX_ONE,
            y: 0,
            z: 0,
        },
        Vector3 {
            x: 0,
            y: FX_ONE,
            z: 0,
        },
        Vector3 { x: 0, y: 0, z: 0 },
        Vector3 { x: 0, y: 0, z: 0 },
    )
}

#[test]
fn orientation_rule_flips_on_xor() {
    let up = Vector3 {
        x: 0,
        y: 0,
        z: FX_ONE,
    };
    let down = Vector3 {
        x: 0,
        y: 0,
        z: -FX_ONE,
    };
    // dpdu x dpdv = +z. Flip exactly when the flags differ.
    assert_eq!(base_interaction(false, false).normal(), up);
    assert_eq!(base_interaction(true, true).normal(), up);
    assert_eq!(base_interaction(true, false).normal(), down);
    assert_eq!(base_interaction(false, true).normal(), down);
}

#[test]
fn new_starts_shading_equal_to_geometric() {
    let si = base_interaction(false, false);
    let sg = si.shading_geometry();
    assert_eq!(sg.normal, si.normal());
    assert_eq!(sg.dpdu, Vector3 { x: FX_ONE, y: 0, z: 0 });
    assert_eq!(sg.dpdv, Vector3 { x: 0, y: FX_ONE, z: 0 });
    assert!(si.medium_interface().is_none());
    assert_eq!(si.time(), 5);
    assert_eq!(
        si.point(),
        Point3 {
            x: FX_ONE,
            y: 2 * FX_ONE,
            z: 3 * FX_ONE
        }
    );
    assert_eq!(si.point_error_bound(), Vector3 { x: 1, y: 1, z: 1 });
    assert_eq!(
        si.neg_ray_direction(),
        Some(Vector3 {
            x: 0,
            y: 0,
            z: FX_ONE
        })
    );
}

#[test]
fn shading_authoritative_reorients_geometric_only() {
    let mut si = base_interaction(false, false);
    let before = si.normal();
    // New partials whose natural normal points along -z, against the
    // geometric normal.
    si.set_shading_geometry(
        Vector3 {
            x: 0,
            y: FX_ONE,
            z: 0,
        },
        Vector3 {
            x: FX_ONE,
            y: 0,
            z: 0,
        },
        Vector3 { x: 0, y: 0, z: 0 },
        Vector3 { x: 0, y: 0, z: 0 },
        true,
    );
    let down = Vector3 {
        x: 0,
        y: 0,
        z: -FX_ONE,
    };
    // The shading normal stands as computed; the geometric normal was
    // flipped into its hemisphere.
    assert_eq!(si.shading_geometry().normal, down);
    assert_eq!(si.normal(), down);
    assert_ne!(si.normal(), before);
}

#[test]
fn geometric_authoritative_reorients_shading_only() {
    let mut si = base_interaction(false, false);
    let before = si.normal();
    si.set_shading_geometry(
        Vector3 {
            x: 0,
            y: FX_ONE,
            z: 0,
        },
        Vector3 {
            x: FX_ONE,
            y: 0,
            z: 0,
        },
        Vector3 { x: 0, y: 0, z: 0 },
        Vector3 { x: 0, y: 0, z: 0 },
        false,
    );
    // The geometric normal is untouched; the shading normal was flipped
    // into its hemisphere.
    assert_eq!(si.normal(), before);
    assert_eq!(si.shading_geometry().normal, before);
}

#[test]
fn shading_in_same_hemisphere_is_kept() {
    let mut si = base_interaction(false, false);
    // A mild perturbation whose natural normal still points up: nothing
    // needs reorienting in either mode.
    si.set_shading_geometry(
        Vector3 {
            x: FX_ONE,
            y: 0,
            z: FX_ONE / 8,
        },
        Vector3 {
            x: 0,
            y: FX_ONE,
            z: 0,
        },
        Vector3 { x: 0, y: 0, z: 0 },
        Vector3 { x: 0, y: 0, z: 0 },
        true,
    );
    assert_eq!(
        si.normal(),
        Vector3 {
            x: 0,
            y: 0,
            z: FX_ONE
        }
    );
    assert!(si.shading_geometry().normal.z > 0);
}

#[test]
fn transforming_interaction_moves_point_and_keeps_frame() {
    let mut m = Matrix4::identity();
    m.m03 = 4 * FX_ONE;
    let mut m_inv = Matrix4::identity();
    m_inv.m03 = -4 * FX_ONE;
    let t = AffineTransform::new(m, m_inv);
    let si = base_interaction(false, false);
    let moved = t.transform(&si);
    assert_eq!(moved.point().x, 5 * FX_ONE);
    assert_eq!(moved.point().y, 2 * FX_ONE);
    // A translation leaves directions and normals unchanged.
    assert_eq!(moved.normal(), si.normal());
    assert_eq!(moved.shading_geometry().normal, si.normal());
    assert_eq!(moved.time(), si.time());
    assert_eq!(moved.uv(), si.uv());
    // The error bound stays conservative (it may only grow).
    assert!(moved.point_error_bound().x >= si.point_error_bound().x);
}
