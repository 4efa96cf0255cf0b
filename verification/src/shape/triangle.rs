//! Triangle meshes. The mesh owns the vertex and attribute buffers; a
//! triangle is a lightweight index into it and duplicates no vertex data.
//! Intersection is evaluated directly against the cached world-space
//! vertices, exactly, with a single rounding at each reported coordinate.

use crate::fx::{fx_mul, fx_mul_s, lemma_tdiv_bound_by, tdiv128, tdiv_s, FX_ONE};
use crate::bounds::{from_corners_s, from_point_s, union_s, Bounds3};
use crate::interaction::{hit_err, hit_err_s, make_si_s, SurfaceInteraction};
use crate::ray::{ray_in_range, Ray, T_MAX_FX};
use crate::scalar::Scalar;
use crate::shape::{GenericShape, TransformArena};
use crate::transform::{
    m4_in_range, p3_xform_ok, xform_point_s, Matrix4, SwapHandedness, VEC_XFORM_MAX,
};
use crate::vector::{
    lemma_mul_bound, p3_in_range, v3_deriv_ok, Point2, Point3, Vector3, COORD_MAX, DERIV_MAX,
};
use vstd::prelude::*;

verus! {

/// Why a mesh could not be built: an invalid configuration is reported to
/// the caller, never a crash.
#[derive(Clone, Copy, PartialEq, Eq, Structural, Debug)]
pub enum MeshError {
    /// The transform handle does not name a transform in the arena.
    InvalidTransformHandle,
    /// An attribute buffer's length differs from the vertex count.
    AttributeLengthMismatch,
    /// A triangle's vertex index is out of range of the vertex buffer.
    InvalidVertexIndex,
    /// A vertex (after the object-to-world transform) leaves the accepted
    /// coordinate range.
    VertexOutOfRange,
}

/// A mesh of triangles: the sole owner of the vertex and attribute
/// buffers.
#[derive(Debug)]
pub struct TriangleMesh {
    object_to_world: usize,
    reverse_orientation: bool,
    transform_swaps_handedness: bool,
    /// The vertices in world space that make up the mesh.
    world_space_vertices: Vec<Point3>,
    /// One entry per triangle: three indices into the vertex buffer.
    triangle_vertex_indices: Vec<(usize, usize, usize)>,
    /// An optional tangent vector for each vertex in the mesh.
    tangents: Option<Vec<Vector3>>,
    /// An optional normal vector for each vertex in the mesh.
    normals: Option<Vec<Vector3>>,
    /// An optional UV coordinate for each vertex in the mesh.
    uvs: Option<Vec<Point2>>,
}

/// A reference to an individual triangle in a mesh: an index, never a
/// copy of vertex data. The owning mesh is passed to every query.
#[derive(Clone, Copy, PartialEq, Eq, Structural, Debug)]
pub struct Triangle {
    index_in_mesh: usize,
}

/// The three indices all name vertices.
pub open spec fn idx_ok(t: (usize, usize, usize), n: int) -> bool {
    t.0 < n && t.1 < n && t.2 < n
}

/// The UV coordinate is within the accepted range.
pub open spec fn uv_ok(p: Point2) -> bool {
    -COORD_MAX <= p.x <= COORD_MAX && -COORD_MAX <= p.y <= COORD_MAX
}

impl TriangleMesh {
    pub closed spec fn o2w_s(self) -> usize {
        self.object_to_world
    }

    pub closed spec fn reverse_orientation_s(self) -> bool {
        self.reverse_orientation
    }

    pub closed spec fn swaps_s(self) -> bool {
        self.transform_swaps_handedness
    }

    pub closed spec fn verts_s(self) -> Seq<Point3> {
        self.world_space_vertices@
    }

    pub closed spec fn indices_s(self) -> Seq<(usize, usize, usize)> {
        self.triangle_vertex_indices@
    }

    pub closed spec fn tangents_s(self) -> Option<Seq<Vector3>> {
        match self.tangents {
            Option::None => Option::None,
            Option::Some(v) => Option::Some(v@),
        }
    }

    pub closed spec fn normals_s(self) -> Option<Seq<Vector3>> {
        match self.normals {
            Option::None => Option::None,
            Option::Some(v) => Option::Some(v@),
        }
    }

    pub closed spec fn uvs_s(self) -> Option<Seq<Point2>> {
        match self.uvs {
            Option::None => Option::None,
            Option::Some(v) => Option::Some(v@),
        }
    }

    /// The orientation attributes the mesh's triangles carry.
    pub open spec fn shape_s(self) -> GenericShape {
        GenericShape {
            reverse_orientation: self.reverse_orientation_s(),
            transform_swaps_handedness: self.swaps_s(),
        }
    }

    /// The buffers are consistent: vertices in range, indices valid,
    /// attribute buffers (when present) one entry per vertex.
    pub open spec fn wf_data(self) -> bool {
        &&& forall|i: int|
            0 <= i < self.verts_s().len() ==> p3_in_range(#[trigger] self.verts_s()[i])
        &&& forall|i: int|
            0 <= i < self.indices_s().len() ==> idx_ok(
                #[trigger] self.indices_s()[i],
                self.verts_s().len() as int,
            )
        &&& (self.tangents_s() matches Some(t) ==> t.len() == self.verts_s().len())
        &&& (self.normals_s() matches Some(n) ==> n.len() == self.verts_s().len())
        &&& (self.uvs_s() matches Some(u) ==> u.len() == self.verts_s().len() && forall|i: int|
            0 <= i < u.len() ==> uv_ok(#[trigger] u[i]))
    }

    /// The mesh's transform handle is valid in the arena and the cached
    /// handedness flag matches the stored transform.
    pub open spec fn wf_with(self, arena: TransformArena) -> bool {
        &&& arena.wf()
        &&& arena.valid_handle(self.o2w_s())
        &&& self.swaps_s() == arena.seq_s()[self.o2w_s() as int].swaps_handedness_s()
    }

    /// The number of triangles in the mesh.
    pub fn n_triangles(&self) -> (r: usize)
        ensures
            r == self.indices_s().len(),
    {
        self.triangle_vertex_indices.len()
    }

    /// The triangle with the given index, as a lightweight view.
    pub fn triangle_at(&self, index: usize) -> (r: Triangle)
        requires
            index < self.indices_s().len(),
        ensures
            r.index_s() == index,
    {
        Triangle { index_in_mesh: index }
    }
}

/// The world-space corner `k` (0, 1 or 2) of triangle `i` of the mesh.
pub open spec fn tri_vert_s(m: TriangleMesh, i: int, k: int) -> Point3 {
    let idx = m.indices_s()[i];
    if k == 0 {
        m.verts_s()[idx.0 as int]
    } else if k == 1 {
        m.verts_s()[idx.1 as int]
    } else {
        m.verts_s()[idx.2 as int]
    }
}

/// The UV coordinate of corner `k` of triangle `i`: the mesh's buffer, or
/// the default parameterization (0,0), (1,0), (1,1).
pub open spec fn tri_uv_vert_s(m: TriangleMesh, i: int, k: int) -> Point2 {
    match m.uvs_s() {
        Option::Some(u) => {
            let idx = m.indices_s()[i];
            if k == 0 {
                u[idx.0 as int]
            } else if k == 1 {
                u[idx.1 as int]
            } else {
                u[idx.2 as int]
            }
        },
        Option::None => {
            if k == 0 {
                Point2 { x: 0, y: 0 }
            } else if k == 1 {
                Point2 { x: FX_ONE, y: 0 }
            } else {
                Point2 { x: FX_ONE, y: FX_ONE }
            }
        },
    }
}

/// The scalar triple product `e1 . (d x e2)` that the intersection test
/// divides by (exact, at triple scale).
pub open spec fn tri_det_s(p0: Point3, p1: Point3, p2: Point3, d: Vector3) -> int {
    let e1x = p1.x - p0.x;
    let e1y = p1.y - p0.y;
    let e1z = p1.z - p0.z;
    let e2x = p2.x - p0.x;
    let e2y = p2.y - p0.y;
    let e2z = p2.z - p0.z;
    e1x * (d.y * e2z - d.z * e2y) + e1y * (d.z * e2x - d.x * e2z) + e1z * (d.x * e2y - d.y * e2x)
}

/// The numerator of the first barycentric coordinate (exact).
pub open spec fn tri_u_num_s(p0: Point3, p1: Point3, p2: Point3, o: Point3, d: Vector3) -> int {
    let e2x = p2.x - p0.x;
    let e2y = p2.y - p0.y;
    let e2z = p2.z - p0.z;
    let tx = o.x - p0.x;
    let ty = o.y - p0.y;
    let tz = o.z - p0.z;
    tx * (d.y * e2z - d.z * e2y) + ty * (d.z * e2x - d.x * e2z) + tz * (d.x * e2y - d.y * e2x)
}

/// The numerator of the second barycentric coordinate (exact).
pub open spec fn tri_v_num_s(p0: Point3, p1: Point3, p2: Point3, o: Point3, d: Vector3) -> int {
    let e1x = p1.x - p0.x;
    let e1y = p1.y - p0.y;
    let e1z = p1.z - p0.z;
    let tx = o.x - p0.x;
    let ty = o.y - p0.y;
    let tz = o.z - p0.z;
    d.x * (ty * e1z - tz * e1y) + d.y * (tz * e1x - tx * e1z) + d.z * (tx * e1y - ty * e1x)
}

/// The numerator of the ray parameter at the plane hit (exact).
pub open spec fn tri_t_num_s(p0: Point3, p1: Point3, p2: Point3, o: Point3, d: Vector3) -> int {
    let e1x = p1.x - p0.x;
    let e1y = p1.y - p0.y;
    let e1z = p1.z - p0.z;
    let e2x = p2.x - p0.x;
    let e2y = p2.y - p0.y;
    let e2z = p2.z - p0.z;
    let tx = o.x - p0.x;
    let ty = o.y - p0.y;
    let tz = o.z - p0.z;
    e2x * (ty * e1z - tz * e1y) + e2y * (tz * e1x - tx * e1z) + e2z * (tx * e1y - ty * e1x)
}

/// The fixed-point ray parameter of the plane hit.
pub open spec fn tri_t_fx_s(p0: Point3, p1: Point3, p2: Point3, r: Ray) -> int {
    tdiv_s(
        tri_t_num_s(p0, p1, p2, r.origin, r.direction) * FX_ONE,
        tri_det_s(p0, p1, p2, r.direction),
    )
}

/// Whether the ray hits the triangle: the plane parameter lies in
/// (0, t_max), both barycentric coordinates are nonnegative, and their sum
/// is at most one — tested exactly on the undivided numerators.
pub open spec fn tri_hit_s(p0: Point3, p1: Point3, p2: Point3, r: Ray) -> bool {
    let det = tri_det_s(p0, p1, p2, r.direction);
    let un = tri_u_num_s(p0, p1, p2, r.origin, r.direction);
    let vn = tri_v_num_s(p0, p1, p2, r.origin, r.direction);
    let t = tri_t_fx_s(p0, p1, p2, r);
    &&& det != 0
    &&& (det > 0 ==> un >= 0 && vn >= 0 && un + vn <= det)
    &&& (det < 0 ==> un <= 0 && vn <= 0 && un + vn >= det)
    &&& 0 < t <= T_MAX_FX
    &&& Scalar::Finite(t as i64).lt_spec(r.t_max)
}

/// The interpolated UV coordinate at barycentric position (u, v).
pub open spec fn tri_uv_s(uv0: Point2, uv1: Point2, uv2: Point2, u: int, v: int) -> Point2 {
    Point2 {
        x: (uv0.x + fx_mul_s(u, uv1.x - uv0.x) + fx_mul_s(v, uv2.x - uv0.x)) as i64,
        y: (uv0.y + fx_mul_s(u, uv1.y - uv0.y) + fx_mul_s(v, uv2.y - uv0.y)) as i64,
    }
}

/// A wide quotient clamped into the machine range (the clamped values are
/// out of derivative range and are discarded where this is applied).
pub open spec fn clamp_i64_s(v: int) -> int {
    if v > i64::MAX {
        i64::MAX as int
    } else if v < i64::MIN {
        i64::MIN as int
    } else {
        v
    }
}

/// The position partials with respect to (u, v): the solution of the 2x2
/// system relating the edge vectors to the per-vertex UV differences. A
/// degenerate UV frame, or a solution out of derivative range, falls back
/// to the edge vectors themselves.
pub open spec fn tri_partials_s(
    p0: Point3,
    p1: Point3,
    p2: Point3,
    uv0: Point2,
    uv1: Point2,
    uv2: Point2,
) -> (Vector3, Vector3) {
    let e1 = Vector3 { x: (p1.x - p0.x) as i64, y: (p1.y - p0.y) as i64, z: (p1.z - p0.z) as i64 };
    let e2 = Vector3 { x: (p2.x - p0.x) as i64, y: (p2.y - p0.y) as i64, z: (p2.z - p0.z) as i64 };
    let du1 = uv1.x - uv0.x;
    let dv1 = uv1.y - uv0.y;
    let du2 = uv2.x - uv0.x;
    let dv2 = uv2.y - uv0.y;
    let uvdet = du1 * dv2 - dv1 * du2;
    if uvdet == 0 {
        (e1, e2)
    } else {
        let du = Vector3 {
            x: clamp_i64_s(tdiv_s((dv2 * e1.x - dv1 * e2.x) * FX_ONE, uvdet)) as i64,
            y: clamp_i64_s(tdiv_s((dv2 * e1.y - dv1 * e2.y) * FX_ONE, uvdet)) as i64,
            z: clamp_i64_s(tdiv_s((dv2 * e1.z - dv1 * e2.z) * FX_ONE, uvdet)) as i64,
        };
        let dv = Vector3 {
            x: clamp_i64_s(tdiv_s((du1 * e2.x - du2 * e1.x) * FX_ONE, uvdet)) as i64,
            y: clamp_i64_s(tdiv_s((du1 * e2.y - du2 * e1.y) * FX_ONE, uvdet)) as i64,
            z: clamp_i64_s(tdiv_s((du1 * e2.z - du2 * e1.z) * FX_ONE, uvdet)) as i64,
        };
        if v3_deriv_ok(du) && v3_deriv_ok(dv) {
            (du, dv)
        } else {
            (e1, e2)
        }
    }
}

/// The exact cross product of two small vectors, at double scale.
fn cross_wide3(a: Vector3, b: Vector3) -> (r: (i128, i128, i128))
    requires
        -0x1_0000_0000 <= a.x <= 0x1_0000_0000,
        -0x1_0000_0000 <= a.y <= 0x1_0000_0000,
        -0x1_0000_0000 <= a.z <= 0x1_0000_0000,
        -0x1_0000_0000 <= b.x <= 0x1_0000_0000,
        -0x1_0000_0000 <= b.y <= 0x1_0000_0000,
        -0x1_0000_0000 <= b.z <= 0x1_0000_0000,
    ensures
        r.0 == a.y * b.z - a.z * b.y,
        r.1 == a.z * b.x - a.x * b.z,
        r.2 == a.x * b.y - a.y * b.x,
        -0x2_0000_0000_0000_0000 <= r.0 <= 0x2_0000_0000_0000_0000,
        -0x2_0000_0000_0000_0000 <= r.1 <= 0x2_0000_0000_0000_0000,
        -0x2_0000_0000_0000_0000 <= r.2 <= 0x2_0000_0000_0000_0000,
{
    proof {
        lemma_mul_bound(a.y as int, b.z as int, 0x1_0000_0000, 0x1_0000_0000);
        lemma_mul_bound(a.z as int, b.y as int, 0x1_0000_0000, 0x1_0000_0000);
        lemma_mul_bound(a.z as int, b.x as int, 0x1_0000_0000, 0x1_0000_0000);
        lemma_mul_bound(a.x as int, b.z as int, 0x1_0000_0000, 0x1_0000_0000);
        lemma_mul_bound(a.x as int, b.y as int, 0x1_0000_0000, 0x1_0000_0000);
        lemma_mul_bound(a.y as int, b.x as int, 0x1_0000_0000, 0x1_0000_0000);
    }
    (
        (a.y as i128) * (b.z as i128) - (a.z as i128) * (b.y as i128),
        (a.z as i128) * (b.x as i128) - (a.x as i128) * (b.z as i128),
        (a.x as i128) * (b.y as i128) - (a.y as i128) * (b.x as i128),
    )
}

/// The exact dot product of a small vector with a wide one.
fn dot_wide3(a: Vector3, bx: i128, by: i128, bz: i128) -> (r: i128)
    requires
        -0x1_0000_0000 <= a.x <= 0x1_0000_0000,
        -0x1_0000_0000 <= a.y <= 0x1_0000_0000,
        -0x1_0000_0000 <= a.z <= 0x1_0000_0000,
        -0x2_0000_0000_0000_0000 <= bx <= 0x2_0000_0000_0000_0000,
        -0x2_0000_0000_0000_0000 <= by <= 0x2_0000_0000_0000_0000,
        -0x2_0000_0000_0000_0000 <= bz <= 0x2_0000_0000_0000_0000,
    ensures
        r == a.x * bx + a.y * by + a.z * bz,
        -0x6_0000_0000_0000_0000_0000_0000 <= r <= 0x6_0000_0000_0000_0000_0000_0000,
{
    proof {
        lemma_mul_bound(a.x as int, bx as int, 0x1_0000_0000, 0x2_0000_0000_0000_0000);
        lemma_mul_bound(a.y as int, by as int, 0x1_0000_0000, 0x2_0000_0000_0000_0000);
        lemma_mul_bound(a.z as int, bz as int, 0x1_0000_0000, 0x2_0000_0000_0000_0000);
    }
    (a.x as i128) * bx + (a.y as i128) * by + (a.z as i128) * bz
}

impl Triangle {
    /// The triangle's index into its mesh.
    pub closed spec fn index_s(self) -> usize {
        self.index_in_mesh
    }

    /// The view names a triangle of the mesh.
    pub open spec fn valid_for(self, m: TriangleMesh) -> bool {
        self.index_s() < m.indices_s().len()
    }

    /// The triangle's vertices in world space (cached on the mesh).
    pub fn world_space_vertices(&self, mesh: &TriangleMesh) -> (r: (Point3, Point3, Point3))
        requires
            mesh.wf_data(),
            self.valid_for(*mesh),
        ensures
            r.0 == tri_vert_s(*mesh, self.index_s() as int, 0),
            r.1 == tri_vert_s(*mesh, self.index_s() as int, 1),
            r.2 == tri_vert_s(*mesh, self.index_s() as int, 2),
            p3_in_range(r.0),
            p3_in_range(r.1),
            p3_in_range(r.2),
    {
        let (i0, i1, i2) = mesh.triangle_vertex_indices[self.index_in_mesh];
        let p0 = mesh.world_space_vertices[i0];
        let p1 = mesh.world_space_vertices[i1];
        let p2 = mesh.world_space_vertices[i2];
        (p0, p1, p2)
    }

    /// The triangle's vertices carried back into object space through the
    /// transform's inverse.
    pub fn object_space_vertices(&self, mesh: &TriangleMesh, arena: &TransformArena) -> (r: (
        Point3,
        Point3,
        Point3,
    ))
        requires
            mesh.wf_data(),
            mesh.wf_with(*arena),
            self.valid_for(*mesh),
        ensures
            r.0 == xform_point_s(
                arena.seq_s()[mesh.o2w_s() as int].inverse_s(),
                tri_vert_s(*mesh, self.index_s() as int, 0),
            ),
            r.1 == xform_point_s(
                arena.seq_s()[mesh.o2w_s() as int].inverse_s(),
                tri_vert_s(*mesh, self.index_s() as int, 1),
            ),
            r.2 == xform_point_s(
                arena.seq_s()[mesh.o2w_s() as int].inverse_s(),
                tri_vert_s(*mesh, self.index_s() as int, 2),
            ),
    {
        let (p0, p1, p2) = self.world_space_vertices(mesh);
        let t = arena.get(mesh.object_to_world);
        (t.inv_transform_point(&p0), t.inv_transform_point(&p1), t.inv_transform_point(&p2))
    }

    /// The matrix that takes the triangle from object space to world
    /// space.
    pub fn object_to_world(&self, mesh: &TriangleMesh, arena: &TransformArena) -> (r: Matrix4)
        requires
            mesh.wf_with(*arena),
        ensures
            r == arena.seq_s()[mesh.o2w_s() as int].matrix_s(),
    {
        arena.get(mesh.object_to_world).matrix()
    }

    /// The matrix that takes the triangle from world space to object
    /// space.
    pub fn world_to_object(&self, mesh: &TriangleMesh, arena: &TransformArena) -> (r: Matrix4)
        requires
            mesh.wf_with(*arena),
        ensures
            r == arena.seq_s()[mesh.o2w_s() as int].inverse_s(),
    {
        arena.get(mesh.object_to_world).inverse()
    }

    /// Whether the mesh's transform swaps coordinate-system handedness.
    pub fn object_to_world_swaps_handedness(&self, mesh: &TriangleMesh) -> (r: bool)
        ensures
            r == mesh.swaps_s(),
    {
        mesh.transform_swaps_handedness
    }

    /// Whether the mesh's normals are flipped to point outside.
    pub fn reverse_orientation(&self, mesh: &TriangleMesh) -> (r: bool)
        ensures
            r == mesh.reverse_orientation_s(),
    {
        mesh.reverse_orientation
    }

    /// The bounding box of the triangle in object space.
    pub fn object_bound(&self, mesh: &TriangleMesh, arena: &TransformArena) -> (r: Bounds3)
        requires
            mesh.wf_data(),
            mesh.wf_with(*arena),
            self.valid_for(*mesh),
        ensures
            ({
                let inv = arena.seq_s()[mesh.o2w_s() as int].inverse_s();
                let q0 = xform_point_s(inv, tri_vert_s(*mesh, self.index_s() as int, 0));
                let q1 = xform_point_s(inv, tri_vert_s(*mesh, self.index_s() as int, 1));
                let q2 = xform_point_s(inv, tri_vert_s(*mesh, self.index_s() as int, 2));
                r == union_s(from_corners_s(q0, q1), from_point_s(q2))
            }),
            r.wf(),
    {
        let (q0, q1, q2) = self.object_space_vertices(mesh, arena);
        Bounds3::from_corners(q0, q1).union_with_point(&q2)
    }

    /// The bounding box of the triangle in world space (already tight: the
    /// corner-warp default is not needed).
    pub fn world_bound(&self, mesh: &TriangleMesh) -> (r: Bounds3)
        requires
            mesh.wf_data(),
            self.valid_for(*mesh),
        ensures
            ({
                let p0 = tri_vert_s(*mesh, self.index_s() as int, 0);
                let p1 = tri_vert_s(*mesh, self.index_s() as int, 1);
                let p2 = tri_vert_s(*mesh, self.index_s() as int, 2);
                r == union_s(from_corners_s(p0, p1), from_point_s(p2))
            }),
            r.wf(),
    {
        let (p0, p1, p2) = self.world_space_vertices(mesh);
        Bounds3::from_corners(p0, p1).union_with_point(&p2)
    }

    /// Half the length of the edge cross product: the triangle's area,
    /// rounded toward zero once.
    pub fn surface_area(&self, mesh: &TriangleMesh) -> (r: i64)
        requires
            mesh.wf_data(),
            self.valid_for(*mesh),
        ensures
            ({
                let p0 = tri_vert_s(*mesh, self.index_s() as int, 0);
                let p1 = tri_vert_s(*mesh, self.index_s() as int, 1);
                let p2 = tri_vert_s(*mesh, self.index_s() as int, 2);
                let cx = (p1.y - p0.y) * (p2.z - p0.z) - (p1.z - p0.z) * (p2.y - p0.y);
                let cy = (p1.z - p0.z) * (p2.x - p0.x) - (p1.x - p0.x) * (p2.z - p0.z);
                let cz = (p1.x - p0.x) * (p2.y - p0.y) - (p1.y - p0.y) * (p2.x - p0.x);
                r == tdiv_s(
                    crate::fx::sqrt_floor(cx * cx + cy * cy + cz * cz),
                    2 * FX_ONE as int,
                )
            }),
            r >= 0,
    {
        let (p0, p1, p2) = self.world_space_vertices(mesh);
        let e1 = Vector3 { x: p1.x - p0.x, y: p1.y - p0.y, z: p1.z - p0.z };
        let e2 = Vector3 { x: p2.x - p0.x, y: p2.y - p0.y, z: p2.z - p0.z };
        let (cx, cy, cz) = cross_wide3(e1, e2);
        proof {
            lemma_mul_bound(e1.y as int, e2.z as int, 2 * COORD_MAX as int, 2 * COORD_MAX as int);
            lemma_mul_bound(e1.z as int, e2.y as int, 2 * COORD_MAX as int, 2 * COORD_MAX as int);
            lemma_mul_bound(e1.z as int, e2.x as int, 2 * COORD_MAX as int, 2 * COORD_MAX as int);
            lemma_mul_bound(e1.x as int, e2.z as int, 2 * COORD_MAX as int, 2 * COORD_MAX as int);
            lemma_mul_bound(e1.x as int, e2.y as int, 2 * COORD_MAX as int, 2 * COORD_MAX as int);
            lemma_mul_bound(e1.y as int, e2.x as int, 2 * COORD_MAX as int, 2 * COORD_MAX as int);
            lemma_mul_bound(cx as int, cx as int, 0x8000_0000_0000_0000, 0x8000_0000_0000_0000);
            lemma_mul_bound(cy as int, cy as int, 0x8000_0000_0000_0000, 0x8000_0000_0000_0000);
            lemma_mul_bound(cz as int, cz as int, 0x8000_0000_0000_0000, 0x8000_0000_0000_0000);
            assert(cx * cx >= 0 && cy * cy >= 0 && cz * cz >= 0) by (nonlinear_arith);
        }
        let sq: u128 = ((cx * cx) as u128) + ((cy * cy) as u128) + ((cz * cz) as u128);
        let root = crate::fx::isqrt(sq);
        proof {
            lemma_area_root_fits(sq as int, root as int);
        }
        let half = tdiv128(root as i128, 2 * FX_ONE as i128);
        half as i64
    }

    /// Returns the nearest ray/triangle intersection in (0, t_max), if
    /// any: the plane hit with nonnegative barycentric coordinates, tested
    /// exactly. The mesh carries no alpha buffer, so a requested alpha
    /// test has nothing to reject and `test_alpha_texture` has no effect.
    pub fn ray_intersection(
        &self,
        mesh: &TriangleMesh,
        ray: &Ray,
        test_alpha_texture: bool,
    ) -> (r: Option<(i64, SurfaceInteraction)>)
        requires
            mesh.wf_data(),
            self.valid_for(*mesh),
            ray_in_range(*ray),
        ensures
            ({
                let i = self.index_s() as int;
                let p0 = tri_vert_s(*mesh, i, 0);
                let p1 = tri_vert_s(*mesh, i, 1);
                let p2 = tri_vert_s(*mesh, i, 2);
                let uv0 = tri_uv_vert_s(*mesh, i, 0);
                let uv1 = tri_uv_vert_s(*mesh, i, 1);
                let uv2 = tri_uv_vert_s(*mesh, i, 2);
                let det = tri_det_s(p0, p1, p2, ray.direction);
                let un = tri_u_num_s(p0, p1, p2, ray.origin, ray.direction);
                let vn = tri_v_num_s(p0, p1, p2, ray.origin, ray.direction);
                let t = tri_t_fx_s(p0, p1, p2, *ray);
                let u = tdiv_s(un * FX_ONE, det);
                let v = tdiv_s(vn * FX_ONE, det);
                let partials = tri_partials_s(p0, p1, p2, uv0, uv1, uv2);
                &&& (r is Some <==> tri_hit_s(p0, p1, p2, *ray))
                &&& (r matches Some(hit) ==> hit.0 == t && hit.1 == make_si_s(
                    crate::ray::ray_at_s(*ray, t),
                    hit_err_s(ray.direction),
                    Some(crate::vector::neg3_s(ray.direction)),
                    ray.time,
                    mesh.shape_s(),
                    tri_uv_s(uv0, uv1, uv2, u, v),
                    partials.0,
                    partials.1,
                    Vector3 { x: 0, y: 0, z: 0 },
                    Vector3 { x: 0, y: 0, z: 0 },
                ))
            }),
    {
        let (p0, p1, p2) = self.world_space_vertices(mesh);
        let e1 = Vector3 { x: p1.x - p0.x, y: p1.y - p0.y, z: p1.z - p0.z };
        let e2 = Vector3 { x: p2.x - p0.x, y: p2.y - p0.y, z: p2.z - p0.z };
        let tv = Vector3 { x: ray.origin.x - p0.x, y: ray.origin.y - p0.y, z: ray.origin.z - p0.z };
        let (pvx, pvy, pvz) = cross_wide3(ray.direction, e2);
        let det = dot_wide3(e1, pvx, pvy, pvz);
        if det == 0 {
            return None;
        }
        let un = dot_wide3(tv, pvx, pvy, pvz);
        let (qvx, qvy, qvz) = cross_wide3(tv, e1);
        let vn = dot_wide3(ray.direction, qvx, qvy, qvz);
        let tn = dot_wide3(e2, qvx, qvy, qvz);
        let bary_ok = if det > 0 {
            un >= 0 && vn >= 0 && un + vn <= det
        } else {
            un <= 0 && vn <= 0 && un + vn >= det
        };
        if !bary_ok {
            return None;
        }
        proof {
            lemma_num_times_one_fits(tn as int);
            lemma_num_times_one_fits(un as int);
            lemma_num_times_one_fits(vn as int);
        }
        let t128 = tdiv128(tn * (FX_ONE as i128), det);
        if !(0 < t128 && t128 <= T_MAX_FX as i128) {
            return None;
        }
        let t = t128 as i64;
        if !Scalar::Finite(t).lt(ray.t_max) {
            return None;
        }
        let u128v = tdiv128(un * (FX_ONE as i128), det);
        let v128v = tdiv128(vn * (FX_ONE as i128), det);
        proof {
            lemma_uv_frac_fits(un as int, det as int);
            lemma_uv_frac_fits(vn as int, det as int);
        }
        let u = u128v as i64;
        let v = v128v as i64;
        let (uv0, uv1, uv2) = self.uv_vertices(mesh);
        let uvx = interp_uv(uv0.x, uv1.x, uv2.x, u, v);
        let uvy = interp_uv(uv0.y, uv1.y, uv2.y, u, v);
        let (dpdu, dpdv) = partials(e1, e2, uv0, uv1, uv2);
        let point = ray.at_t(t);
        let err = hit_err(&ray.direction);
        let si = SurfaceInteraction::new(
            point,
            err,
            Some(ray.direction.neg()),
            ray.time,
            GenericShape {
                reverse_orientation: mesh.reverse_orientation,
                transform_swaps_handedness: mesh.transform_swaps_handedness,
            },
            Point2 { x: uvx, y: uvy },
            dpdu,
            dpdv,
            Vector3 { x: 0, y: 0, z: 0 },
            Vector3 { x: 0, y: 0, z: 0 },
        );
        Some((t, si))
    }

    /// Returns whether the ray intersects the triangle, without keeping
    /// the interaction record.
    pub fn does_ray_intersect(
        &self,
        mesh: &TriangleMesh,
        ray: &Ray,
        test_alpha_texture: bool,
    ) -> (r: bool)
        requires
            mesh.wf_data(),
            self.valid_for(*mesh),
            ray_in_range(*ray),
        ensures
            r == tri_hit_s(
                tri_vert_s(*mesh, self.index_s() as int, 0),
                tri_vert_s(*mesh, self.index_s() as int, 1),
                tri_vert_s(*mesh, self.index_s() as int, 2),
                *ray,
            ),
    {
        self.ray_intersection(mesh, ray, test_alpha_texture).is_some()
    }

    /// The UV coordinates of the triangle's corners: the mesh's buffer or
    /// the default parameterization.
    fn uv_vertices(&self, mesh: &TriangleMesh) -> (r: (Point2, Point2, Point2))
        requires
            mesh.wf_data(),
            self.valid_for(*mesh),
        ensures
            r.0 == tri_uv_vert_s(*mesh, self.index_s() as int, 0),
            r.1 == tri_uv_vert_s(*mesh, self.index_s() as int, 1),
            r.2 == tri_uv_vert_s(*mesh, self.index_s() as int, 2),
            uv_ok(r.0),
            uv_ok(r.1),
            uv_ok(r.2),
    {
        let (i0, i1, i2) = mesh.triangle_vertex_indices[self.index_in_mesh];
        match &mesh.uvs {
            Option::Some(u) => (u[i0], u[i1], u[i2]),
            Option::None => (
                Point2 { x: 0, y: 0 },
                Point2 { x: FX_ONE, y: 0 },
                Point2 { x: FX_ONE, y: FX_ONE },
            ),
        }
    }
}

/// One UV component interpolated to barycentric position (u, v).
fn interp_uv(a0: i64, a1: i64, a2: i64, u: i64, v: i64) -> (r: i64)
    requires
        -COORD_MAX <= a0 <= COORD_MAX,
        -COORD_MAX <= a1 <= COORD_MAX,
        -COORD_MAX <= a2 <= COORD_MAX,
        -FX_ONE <= u <= FX_ONE,
        -FX_ONE <= v <= FX_ONE,
    ensures
        r as int == a0 + fx_mul_s(u as int, a1 - a0) + fx_mul_s(v as int, a2 - a0),
{
    proof {
        lemma_interp_term_fits(u as int, (a1 - a0) as int);
        lemma_interp_term_fits(v as int, (a2 - a0) as int);
    }
    a0 + fx_mul(u, a1 - a0) + fx_mul(v, a2 - a0)
}

proof fn lemma_interp_term_fits(u: int, d: int)
    requires
        -FX_ONE <= u <= FX_ONE,
        -2 * COORD_MAX <= d <= 2 * COORD_MAX,
    ensures
        -2 * COORD_MAX <= fx_mul_s(u, d) <= 2 * COORD_MAX,
{
    lemma_mul_bound(u, d, FX_ONE as int, 2 * COORD_MAX as int);
    lemma_tdiv_bound_by(u * d, FX_ONE as int, 2 * COORD_MAX as int);
}

proof fn lemma_num_times_one_fits(n: int)
    requires
        -0x6_0000_0000_0000_0000_0000_0000 <= n <= 0x6_0000_0000_0000_0000_0000_0000,
    ensures
        i128::MIN < n * FX_ONE < i128::MAX,
{
    lemma_mul_bound(n, FX_ONE as int, 0x6_0000_0000_0000_0000_0000_0000, FX_ONE as int);
}

proof fn lemma_uv_frac_fits(num: int, det: int)
    requires
        det != 0,
        (det > 0 ==> 0 <= num <= det),
        (det < 0 ==> det <= num <= 0),
    ensures
        0 <= tdiv_s(num * FX_ONE, det) <= FX_ONE,
{
    crate::fx::lemma_tdiv_mag(num * FX_ONE, det);
    crate::fx::lemma_tdiv_sign_full(num * FX_ONE, det);
    assert(crate::fx::abs_s(num * FX_ONE) <= FX_ONE as int * crate::fx::abs_s(det))
        by (nonlinear_arith)
        requires
            (det > 0 ==> 0 <= num <= det),
            (det < 0 ==> det <= num <= 0),
            det != 0,
    ;
    lemma_tdiv_bound_by(num * FX_ONE, crate::fx::abs_s(det), FX_ONE as int);
    assert(tdiv_s(num * FX_ONE, det) == tdiv_s(num * FX_ONE, crate::fx::abs_s(det)) || tdiv_s(
        num * FX_ONE,
        det,
    ) == -tdiv_s(num * FX_ONE, crate::fx::abs_s(det)));
    assert((num >= 0 && det > 0) || (num <= 0 && det < 0));
}

/// The partials solver (see `tri_partials_s`).
fn partials(e1: Vector3, e2: Vector3, uv0: Point2, uv1: Point2, uv2: Point2) -> (r: (
    Vector3,
    Vector3,
))
    requires
        -2 * COORD_MAX <= e1.x <= 2 * COORD_MAX,
        -2 * COORD_MAX <= e1.y <= 2 * COORD_MAX,
        -2 * COORD_MAX <= e1.z <= 2 * COORD_MAX,
        -2 * COORD_MAX <= e2.x <= 2 * COORD_MAX,
        -2 * COORD_MAX <= e2.y <= 2 * COORD_MAX,
        -2 * COORD_MAX <= e2.z <= 2 * COORD_MAX,
        uv_ok(uv0),
        uv_ok(uv1),
        uv_ok(uv2),
    ensures
        ({
            let p0 = Point3 { x: 0, y: 0, z: 0 };
            let p1 = Point3 { x: e1.x, y: e1.y, z: e1.z };
            let p2 = Point3 { x: e2.x, y: e2.y, z: e2.z };
            (r.0, r.1) == tri_partials_s(p0, p1, p2, uv0, uv1, uv2)
        }),
        v3_deriv_ok(r.0),
        v3_deriv_ok(r.1),
{
    let du1 = uv1.x - uv0.x;
    let dv1 = uv1.y - uv0.y;
    let du2 = uv2.x - uv0.x;
    let dv2 = uv2.y - uv0.y;
    proof {
        lemma_mul_bound(du1 as int, dv2 as int, 2 * COORD_MAX as int, 2 * COORD_MAX as int);
        lemma_mul_bound(dv1 as int, du2 as int, 2 * COORD_MAX as int, 2 * COORD_MAX as int);
    }
    let uvdet: i128 = (du1 as i128) * (dv2 as i128) - (dv1 as i128) * (du2 as i128);
    if uvdet == 0 {
        proof {
            lemma_edge_deriv_ok(e1);
            lemma_edge_deriv_ok(e2);
        }
        return (e1, e2);
    }
    let dux = partial_component(dv2, e1.x, dv1, e2.x, uvdet);
    let duy = partial_component(dv2, e1.y, dv1, e2.y, uvdet);
    let duz = partial_component(dv2, e1.z, dv1, e2.z, uvdet);
    let dvx = partial_component(du1, e2.x, du2, e1.x, uvdet);
    let dvy = partial_component(du1, e2.y, du2, e1.y, uvdet);
    let dvz = partial_component(du1, e2.z, du2, e1.z, uvdet);
    let du_ok = -DERIV_MAX <= dux && dux <= DERIV_MAX && -DERIV_MAX <= duy && duy <= DERIV_MAX
        && -DERIV_MAX <= duz && duz <= DERIV_MAX;
    let dv_ok = -DERIV_MAX <= dvx && dvx <= DERIV_MAX && -DERIV_MAX <= dvy && dvy <= DERIV_MAX
        && -DERIV_MAX <= dvz && dvz <= DERIV_MAX;
    if du_ok && dv_ok {
        (Vector3 { x: dux, y: duy, z: duz }, Vector3 { x: dvx, y: dvy, z: dvz })
    } else {
        proof {
            lemma_edge_deriv_ok(e1);
            lemma_edge_deriv_ok(e2);
        }
        (e1, e2)
    }
}

proof fn lemma_edge_deriv_ok(e: Vector3)
    requires
        -2 * COORD_MAX <= e.x <= 2 * COORD_MAX,
        -2 * COORD_MAX <= e.y <= 2 * COORD_MAX,
        -2 * COORD_MAX <= e.z <= 2 * COORD_MAX,
    ensures
        v3_deriv_ok(e),
{
}

/// `(a*ep - b*eq) / uvdet` at fixed-point scale: one component of a
/// partial derivative.
fn partial_component(a: i64, ep: i64, b: i64, eq: i64, uvdet: i128) -> (r: i64)
    requires
        uvdet != 0,
        -0x4_0000_0000_0000_0000 <= uvdet <= 0x4_0000_0000_0000_0000,
        -2 * COORD_MAX <= a <= 2 * COORD_MAX,
        -2 * COORD_MAX <= b <= 2 * COORD_MAX,
        -2 * COORD_MAX <= ep <= 2 * COORD_MAX,
        -2 * COORD_MAX <= eq <= 2 * COORD_MAX,
    ensures
        r as int == clamp_i64_s(tdiv_s((a * ep - b * eq) * FX_ONE, uvdet as int)),
{
    proof {
        lemma_mul_bound(a as int, ep as int, 2 * COORD_MAX as int, 2 * COORD_MAX as int);
        lemma_mul_bound(b as int, eq as int, 2 * COORD_MAX as int, 2 * COORD_MAX as int);
        lemma_mul_bound(
            (a as int) * (ep as int) - (b as int) * (eq as int),
            FX_ONE as int,
            0x8_0000_0000_0000_0000,
            FX_ONE as int,
        );
    }
    let num: i128 = ((a as i128) * (ep as i128) - (b as i128) * (eq as i128)) * (FX_ONE as i128);
    let q = tdiv128(num, uvdet);
    if q > i64::MAX as i128 {
        i64::MAX
    } else if q < i64::MIN as i128 {
        i64::MIN
    } else {
        q as i64
    }
}

/// Collects the pieces of a mesh, then validates and builds it: indices
/// must name vertices, attribute buffers must match the vertex count, and
/// every vertex must stay in range after the object-to-world transform —
/// an invalid configuration is an explicit error, never an abort.
pub struct TiangleMeshBuilder {
    object_to_world: usize,
    reverse_orientation: bool,
    object_space_vertices: Vec<Point3>,
    triangle_vertex_indices: Vec<(usize, usize, usize)>,
    tangents: Option<Vec<Vector3>>,
    normals: Option<Vec<Vector3>>,
    uvs: Option<Vec<Point2>>,
}

/// The vertex can go through the transform and lands in range.
pub open spec fn build_vert_ok(m: Matrix4, p: Point3) -> bool {
    p3_xform_ok(p) && p3_in_range(xform_point_s(m, p))
}

impl TiangleMeshBuilder {
    pub closed spec fn o2w_s(self) -> usize {
        self.object_to_world
    }

    pub closed spec fn reverse_orientation_s(self) -> bool {
        self.reverse_orientation
    }

    pub closed spec fn object_verts_s(self) -> Seq<Point3> {
        self.object_space_vertices@
    }

    pub closed spec fn indices_s(self) -> Seq<(usize, usize, usize)> {
        self.triangle_vertex_indices@
    }

    pub closed spec fn tangents_s(self) -> Option<Seq<Vector3>> {
        match self.tangents {
            Option::None => Option::None,
            Option::Some(v) => Option::Some(v@),
        }
    }

    pub closed spec fn normals_s(self) -> Option<Seq<Vector3>> {
        match self.normals {
            Option::None => Option::None,
            Option::Some(v) => Option::Some(v@),
        }
    }

    pub closed spec fn uvs_s(self) -> Option<Seq<Point2>> {
        match self.uvs {
            Option::None => Option::None,
            Option::Some(v) => Option::Some(v@),
        }
    }

    /// Starts a mesh from its transform handle, orientation flag,
    /// object-space vertices and triangle index triples.
    pub fn new(
        object_to_world: usize,
        reverse_orientation: bool,
        object_space_vertices: Vec<Point3>,
        triangle_vertex_indices: Vec<(usize, usize, usize)>,
    ) -> (r: TiangleMeshBuilder)
        ensures
            r.o2w_s() == object_to_world,
            r.reverse_orientation_s() == reverse_orientation,
            r.object_verts_s() == object_space_vertices@,
            r.indices_s() == triangle_vertex_indices@,
            r.tangents_s() is None,
            r.normals_s() is None,
            r.uvs_s() is None,
    {
        TiangleMeshBuilder {
            object_to_world,
            reverse_orientation,
            object_space_vertices,
            triangle_vertex_indices,
            tangents: None,
            normals: None,
            uvs: None,
        }
    }

    /// Adds a per-vertex tangent buffer.
    pub fn tangents(self, tangents: Vec<Vector3>) -> (r: TiangleMeshBuilder)
        ensures
            r.tangents_s() == Some(tangents@),
            r.o2w_s() == self.o2w_s(),
            r.reverse_orientation_s() == self.reverse_orientation_s(),
            r.object_verts_s() == self.object_verts_s(),
            r.indices_s() == self.indices_s(),
            r.normals_s() == self.normals_s(),
            r.uvs_s() == self.uvs_s(),
    {
        TiangleMeshBuilder { tangents: Some(tangents), ..self }
    }

    /// Adds a per-vertex normal buffer.
    pub fn normals(self, normals: Vec<Vector3>) -> (r: TiangleMeshBuilder)
        ensures
            r.normals_s() == Some(normals@),
            r.o2w_s() == self.o2w_s(),
            r.reverse_orientation_s() == self.reverse_orientation_s(),
            r.object_verts_s() == self.object_verts_s(),
            r.indices_s() == self.indices_s(),
            r.tangents_s() == self.tangents_s(),
            r.uvs_s() == self.uvs_s(),
    {
        TiangleMeshBuilder { normals: Some(normals), ..self }
    }

    /// Adds a per-vertex UV buffer.
    pub fn uvs(self, uvs: Vec<Point2>) -> (r: TiangleMeshBuilder)
        ensures
            r.uvs_s() == Some(uvs@),
            r.o2w_s() == self.o2w_s(),
            r.reverse_orientation_s() == self.reverse_orientation_s(),
            r.object_verts_s() == self.object_verts_s(),
            r.indices_s() == self.indices_s(),
            r.tangents_s() == self.tangents_s(),
            r.normals_s() == self.normals_s(),
    {
        TiangleMeshBuilder { uvs: Some(uvs), ..self }
    }

    /// Every attribute buffer present matches the vertex count, and UVs
    /// are in range.
    pub open spec fn attrs_ok(self) -> bool {
        &&& (self.tangents_s() matches Some(t) ==> t.len() == self.object_verts_s().len())
        &&& (self.normals_s() matches Some(n) ==> n.len() == self.object_verts_s().len())
        &&& (self.uvs_s() matches Some(u) ==> u.len() == self.object_verts_s().len() && forall|
            i: int,
        |
            0 <= i < u.len() ==> uv_ok(#[trigger] u[i]))
    }

    /// Every index triple names vertices.
    pub open spec fn indices_ok(self) -> bool {
        forall|i: int|
            0 <= i < self.indices_s().len() ==> idx_ok(
                #[trigger] self.indices_s()[i],
                self.object_verts_s().len() as int,
            )
    }

    /// Every vertex survives the transform in range.
    pub open spec fn verts_ok(self, m: Matrix4) -> bool {
        forall|i: int|
            0 <= i < self.object_verts_s().len() ==> build_vert_ok(
                m,
                #[trigger] self.object_verts_s()[i],
            )
    }

    /// The error `build` reports, if any, checked in this order: the
    /// transform handle, the attribute buffers, the index triples, the
    /// vertices.
    pub open spec fn build_err_s(self, arena: TransformArena) -> Option<MeshError> {
        if !arena.valid_handle(self.o2w_s()) {
            Some(MeshError::InvalidTransformHandle)
        } else if !self.attrs_ok() {
            Some(MeshError::AttributeLengthMismatch)
        } else if !self.indices_ok() {
            Some(MeshError::InvalidVertexIndex)
        } else if !self.verts_ok(arena.seq_s()[self.o2w_s() as int].matrix_s()) {
            Some(MeshError::VertexOutOfRange)
        } else {
            None
        }
    }

    /// Validates the collected pieces and builds the mesh, transforming
    /// the vertices into world space and caching the transform's
    /// handedness flag.
    #[verifier::loop_isolation(false)]
    pub fn build(self, arena: &TransformArena) -> (r: Result<TriangleMesh, MeshError>)
        requires
            arena.wf(),
        ensures
            (r is Ok) <==> (self.build_err_s(*arena) is None),
            (r matches Err(e) ==> Some(e) == self.build_err_s(*arena)),
            (r matches Ok(m) ==> {
                let t = arena.seq_s()[self.o2w_s() as int];
                &&& m.o2w_s() == self.o2w_s()
                &&& m.reverse_orientation_s() == self.reverse_orientation_s()
                &&& m.swaps_s() == t.swaps_handedness_s()
                &&& m.verts_s().len() == self.object_verts_s().len()
                &&& (forall|i: int|
                    0 <= i < m.verts_s().len() ==> #[trigger] m.verts_s()[i] == xform_point_s(
                        t.matrix_s(),
                        self.object_verts_s()[i],
                    ))
                &&& m.indices_s() == self.indices_s()
                &&& m.tangents_s() == self.tangents_s()
                &&& m.normals_s() == self.normals_s()
                &&& m.uvs_s() == self.uvs_s()
                &&& m.wf_data()
                &&& m.wf_with(*arena)
            }),
    {
        let n = self.object_space_vertices.len();
        if self.object_to_world >= arena.len() {
            return Err(MeshError::InvalidTransformHandle);
        }
        let t = arena.get(self.object_to_world);
        match &self.tangents {
            Option::Some(ts) => {
                if ts.len() != n {
                    return Err(MeshError::AttributeLengthMismatch);
                }
            },
            Option::None => {},
        }
        match &self.normals {
            Option::Some(ns) => {
                if ns.len() != n {
                    return Err(MeshError::AttributeLengthMismatch);
                }
            },
            Option::None => {},
        }
        match &self.uvs {
            Option::Some(us) => {
                if us.len() != n {
                    return Err(MeshError::AttributeLengthMismatch);
                }
                let mut i: usize = 0;
                while i < us.len()
                    invariant
                        us.len() == n,
                        i <= n,
                        forall|j: int| 0 <= j < i ==> uv_ok(#[trigger] us@[j]),
                    decreases n - i,
                {
                    let uv = us[i];
                    if !(-COORD_MAX <= uv.x && uv.x <= COORD_MAX && -COORD_MAX <= uv.y && uv.y
                        <= COORD_MAX) {
                        return Err(MeshError::AttributeLengthMismatch);
                    }
                    i += 1;
                }
            },
            Option::None => {},
        }
        let mut i: usize = 0;
        while i < self.triangle_vertex_indices.len()
            invariant
                forall|j: int|
                    0 <= j < i ==> idx_ok(#[trigger] self.indices_s()[j], n as int),
                i <= self.indices_s().len(),
                n == self.object_verts_s().len(),
            decreases self.triangle_vertex_indices.len() - i,
        {
            let (i0, i1, i2) = self.triangle_vertex_indices[i];
            if i0 >= n || i1 >= n || i2 >= n {
                return Err(MeshError::InvalidVertexIndex);
            }
            i += 1;
        }
        let mut world: Vec<Point3> = Vec::new();
        let mut i: usize = 0;
        while i < n
            invariant
                n == self.object_verts_s().len(),
                t.wf(),
                *t == arena.seq_s()[self.o2w_s() as int],
                i <= n,
                world@.len() == i,
                forall|j: int|
                    0 <= j < i ==> build_vert_ok(
                        t.matrix_s(),
                        #[trigger] self.object_verts_s()[j],
                    ),
                forall|j: int|
                    0 <= j < i ==> #[trigger] world@[j] == xform_point_s(
                        t.matrix_s(),
                        self.object_verts_s()[j],
                    ),
                forall|j: int| 0 <= j < i ==> p3_in_range(#[trigger] world@[j]),
            decreases n - i,
        {
            let p = self.object_space_vertices[i];
            if !(-VEC_XFORM_MAX <= p.x && p.x <= VEC_XFORM_MAX && -VEC_XFORM_MAX <= p.y && p.y
                <= VEC_XFORM_MAX && -VEC_XFORM_MAX <= p.z && p.z <= VEC_XFORM_MAX) {
                return Err(MeshError::VertexOutOfRange);
            }
            let q = t.transform_point(&p);
            if !(-COORD_MAX <= q.x && q.x <= COORD_MAX && -COORD_MAX <= q.y && q.y <= COORD_MAX
                && -COORD_MAX <= q.z && q.z <= COORD_MAX) {
                return Err(MeshError::VertexOutOfRange);
            }
            world.push(q);
            i += 1;
        }
        let swaps = t.swaps_handedness();
        Ok(
            TriangleMesh {
                object_to_world: self.object_to_world,
                reverse_orientation: self.reverse_orientation,
                transform_swaps_handedness: swaps,
                world_space_vertices: world,
                triangle_vertex_indices: self.triangle_vertex_indices,
                tangents: self.tangents,
                normals: self.normals,
                uvs: self.uvs,
            },
        )
    }
}

proof fn lemma_area_root_fits(sq: int, root: int)
    requires
        crate::fx::is_sqrt_floor(sq, root),
        sq <= u128::MAX,
    ensures
        0 <= root <= 0xFFFF_FFFF_FFFF_FFFF,
        0 <= tdiv_s(root, 2 * FX_ONE as int) <= T_MAX_FX,
{
    crate::fx::lemma_tdiv_sign(root, 2 * FX_ONE as int);
    assert(root <= 0xFFFF_FFFF_FFFF_FFFF) by (nonlinear_arith)
        requires
            0 <= root,
            root * root <= 0xFFFF_FFFF_FFFF_FFFF_FFFF_FFFF_FFFF_FFFF,
    ;
    lemma_tdiv_bound_by(root, 2 * FX_ONE as int, T_MAX_FX as int);
}

} // verus!
