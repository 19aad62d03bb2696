use vstd::prelude::*;
use crate::chunk::{
    cell_faces, chunk_faces, column_faces, corner, corner_offset, face_if_exposed, face_written, in_chunk,
    layer_faces, layers_faces, mesh_of, point_of, quad_pattern, voxel_index, ColorMode, Face,
    FaceType, GridPoint, NeighborsView, Vertex, CHUNK_DEPTH, CHUNK_HEIGHT, CHUNK_WIDTH,
    MAX_VOXEL_COUNT_PER_CHUNK,
};

verus! {

pub open spec fn vec_diff(a: (int, int, int), b: (int, int, int)) -> (int, int, int) {
    (a.0 - b.0, a.1 - b.1, a.2 - b.2)
}

pub open spec fn cross(a: (int, int, int), b: (int, int, int)) -> (int, int, int) {
    (a.1 * b.2 - a.2 * b.1, a.2 * b.0 - a.0 * b.2, a.0 * b.1 - a.1 * b.0)
}

/// The normal of triangle (a, b, c) under counter-clockwise winding.
pub open spec fn triangle_normal(a: (int, int, int), b: (int, int, int), c: (int, int, int)) -> (
    int,
    int,
    int,
) {
    cross(vec_diff(b, a), vec_diff(c, a))
}

/// The outward unit normal of a face direction.
pub open spec fn face_normal(f: FaceType) -> (int, int, int) {
    match f {
        FaceType::Front => (0, 0, 1),
        FaceType::Back => (0, 0, -1),
        FaceType::Right => (1, 0, 0),
        FaceType::Left => (-1, 0, 0),
        FaceType::Top => (0, 1, 0),
        FaceType::Bottom => (0, -1, 0),
    }
}

/// The position of the vertex that index `m` of a mesh points at.
pub open spec fn indexed_point(vertices: Seq<Vertex>, indices: Seq<u32>, m: int) -> (int, int, int) {
    point_of(vertices[indices[m] as int].position)
}

/// Every index of a mesh points at one of its vertices, and the mesh has four
/// vertices and six indices per face.
pub proof fn lemma_indices_in_bounds(
    vertices: Seq<Vertex>,
    indices: Seq<u32>,
    faces: Seq<Face>,
    origin: GridPoint,
    mode: ColorMode,
)
    requires
        mesh_of(vertices, indices, faces, origin, mode),
    ensures
        vertices.len() == 4 * faces.len(),
        indices.len() == 6 * faces.len(),
        forall|m: int| 0 <= m < indices.len() ==> #[trigger] indices[m] < vertices.len(),
{
    reveal(mesh_of);
    assert forall|m: int| 0 <= m < indices.len() implies #[trigger] indices[m] < vertices.len() by {
        let i = m / 6;
        assert(0 <= i < faces.len());
        assert(face_written(vertices, indices, i, faces[i], origin, mode));
        assert(6 * i <= m < 6 * i + 6);
    }
}

/// Both triangles of every face of a mesh, wound counter-clockwise, face
/// outward: their normal is the face direction's unit normal.
pub proof fn lemma_triangles_face_outward(
    vertices: Seq<Vertex>,
    indices: Seq<u32>,
    faces: Seq<Face>,
    origin: GridPoint,
    mode: ColorMode,
    i: int,
)
    requires
        mesh_of(vertices, indices, faces, origin, mode),
        0 <= i < faces.len(),
    ensures
        triangle_normal(
            indexed_point(vertices, indices, 6 * i),
            indexed_point(vertices, indices, 6 * i + 1),
            indexed_point(vertices, indices, 6 * i + 2),
        ) == face_normal(faces[i].3),
        triangle_normal(
            indexed_point(vertices, indices, 6 * i + 3),
            indexed_point(vertices, indices, 6 * i + 4),
            indexed_point(vertices, indices, 6 * i + 5),
        ) == face_normal(faces[i].3),
{
    reveal(mesh_of);
    let f = faces[i];
    assert(face_written(vertices, indices, i, f, origin, mode));
    let c = (origin.x + f.0, origin.y + f.1, origin.z + f.2);
    assert(indices[6 * i] == 4 * i);
    assert(indices[6 * i + 1] == 4 * i + 1);
    assert(indices[6 * i + 2] == 4 * i + 3);
    assert(indices[6 * i + 3] == 4 * i + 3);
    assert(indices[6 * i + 4] == 4 * i + 2);
    assert(indices[6 * i + 5] == 4 * i);
    let pt0 = point_of(vertices[4 * i].position);
    let pt1 = point_of(vertices[4 * i + 1].position);
    let pt2 = point_of(vertices[4 * i + 2].position);
    let pt3 = point_of(vertices[4 * i + 3].position);
    assert(pt0 == corner(c, f.3, 0));
    assert(pt1 == corner(c, f.3, 1));
    assert(pt2 == corner(c, f.3, 2));
    assert(pt3 == corner(c, f.3, 3));
    assert(indexed_point(vertices, indices, 6 * i) == pt0);
    assert(indexed_point(vertices, indices, 6 * i + 1) == pt1);
    assert(indexed_point(vertices, indices, 6 * i + 2) == pt3);
    assert(indexed_point(vertices, indices, 6 * i + 3) == pt3);
    assert(indexed_point(vertices, indices, 6 * i + 4) == pt2);
    assert(indexed_point(vertices, indices, 6 * i + 5) == pt0);
    let e1 = vec_diff(pt1, pt0);
    let e2 = vec_diff(pt3, pt0);
    let e3 = vec_diff(pt2, pt3);
    let e4 = vec_diff(pt0, pt3);
    match f.3 {
        FaceType::Front => {
            assert(e1 == (1int, 0int, 0int) && e2 == (1int, 1int, 0int));
            assert(e3 == (-1int, 0int, 0int) && e4 == (-1int, -1int, 0int));
            assert(cross(e1, e2) == cross((1int, 0int, 0int), (1int, 1int, 0int)));
            assert(cross(e3, e4) == cross((-1int, 0int, 0int), (-1int, -1int, 0int)));
            assert(cross((1int, 0int, 0int), (1int, 1int, 0int)) == (0int, 0int, 1int)) by (nonlinear_arith);
            assert(cross((-1int, 0int, 0int), (-1int, -1int, 0int)) == (0int, 0int, 1int)) by (nonlinear_arith);
        },
        FaceType::Back => {
            assert(e1 == (-1int, 0int, 0int) && e2 == (-1int, 1int, 0int));
            assert(e3 == (1int, 0int, 0int) && e4 == (1int, -1int, 0int));
            assert(cross(e1, e2) == cross((-1int, 0int, 0int), (-1int, 1int, 0int)));
            assert(cross(e3, e4) == cross((1int, 0int, 0int), (1int, -1int, 0int)));
            assert(cross((-1int, 0int, 0int), (-1int, 1int, 0int)) == (0int, 0int, -1int)) by (nonlinear_arith);
            assert(cross((1int, 0int, 0int), (1int, -1int, 0int)) == (0int, 0int, -1int)) by (nonlinear_arith);
        },
        FaceType::Right => {
            assert(e1 == (0int, 0int, -1int) && e2 == (0int, 1int, -1int));
            assert(e3 == (0int, 0int, 1int) && e4 == (0int, -1int, 1int));
            assert(cross(e1, e2) == cross((0int, 0int, -1int), (0int, 1int, -1int)));
            assert(cross(e3, e4) == cross((0int, 0int, 1int), (0int, -1int, 1int)));
            assert(cross((0int, 0int, -1int), (0int, 1int, -1int)) == (1int, 0int, 0int)) by (nonlinear_arith);
            assert(cross((0int, 0int, 1int), (0int, -1int, 1int)) == (1int, 0int, 0int)) by (nonlinear_arith);
        },
        FaceType::Left => {
            assert(e1 == (0int, 0int, 1int) && e2 == (0int, 1int, 1int));
            assert(e3 == (0int, 0int, -1int) && e4 == (0int, -1int, -1int));
            assert(cross(e1, e2) == cross((0int, 0int, 1int), (0int, 1int, 1int)));
            assert(cross(e3, e4) == cross((0int, 0int, -1int), (0int, -1int, -1int)));
            assert(cross((0int, 0int, 1int), (0int, 1int, 1int)) == (-1int, 0int, 0int)) by (nonlinear_arith);
            assert(cross((0int, 0int, -1int), (0int, -1int, -1int)) == (-1int, 0int, 0int)) by (nonlinear_arith);
        },
        FaceType::Top => {
            assert(e1 == (1int, 0int, 0int) && e2 == (1int, 0int, -1int));
            assert(e3 == (-1int, 0int, 0int) && e4 == (-1int, 0int, 1int));
            assert(cross(e1, e2) == cross((1int, 0int, 0int), (1int, 0int, -1int)));
            assert(cross(e3, e4) == cross((-1int, 0int, 0int), (-1int, 0int, 1int)));
            assert(cross((1int, 0int, 0int), (1int, 0int, -1int)) == (0int, 1int, 0int)) by (nonlinear_arith);
            assert(cross((-1int, 0int, 0int), (-1int, 0int, 1int)) == (0int, 1int, 0int)) by (nonlinear_arith);
        },
        FaceType::Bottom => {
            assert(e1 == (1int, 0int, 0int) && e2 == (1int, 0int, 1int));
            assert(e3 == (-1int, 0int, 0int) && e4 == (-1int, 0int, -1int));
            assert(cross(e1, e2) == cross((1int, 0int, 0int), (1int, 0int, 1int)));
            assert(cross(e3, e4) == cross((-1int, 0int, 0int), (-1int, 0int, -1int)));
            assert(cross((1int, 0int, 0int), (1int, 0int, 1int)) == (0int, -1int, 0int)) by (nonlinear_arith);
            assert(cross((-1int, 0int, 0int), (-1int, 0int, -1int)) == (0int, -1int, 0int)) by (nonlinear_arith);
        },
    }
}

/// Distinct cells of a chunk have distinct places in its occupancy data.
pub proof fn lemma_voxel_index_injective(x: int, y: int, z: int, a: int, b: int, c: int)
    requires
        in_chunk(x, y, z),
        in_chunk(a, b, c),
        (x, y, z) != (a, b, c),
    ensures
        voxel_index(x, y, z) != voxel_index(a, b, c),
        0 <= voxel_index(x, y, z) < MAX_VOXEL_COUNT_PER_CHUNK,
{
}

/// Writing `value` into one cell and then reading a cell gives `value` for
/// that cell and the old occupancy for every other cell.
pub proof fn lemma_set_then_get(
    data: Seq<u8>,
    x: int,
    y: int,
    z: int,
    value: u8,
    a: int,
    b: int,
    c: int,
)
    requires
        data.len() == MAX_VOXEL_COUNT_PER_CHUNK,
        in_chunk(x, y, z),
        in_chunk(a, b, c),
    ensures
        data.update(voxel_index(x, y, z), value)[voxel_index(a, b, c)] == if (a, b, c) == (x, y, z) {
            value
        } else {
            data[voxel_index(a, b, c)]
        },
{
    if (a, b, c) != (x, y, z) {
        lemma_voxel_index_injective(x, y, z, a, b, c);
    }
}


/// No neighboring chunk is known.
pub open spec fn no_neighbors() -> NeighborsView {
    NeighborsView { left: None, right: None, back: None, front: None }
}

/// Every cell of the chunk is solid.
pub open spec fn all_solid(data: Seq<u8>) -> bool {
    &&& data.len() == MAX_VOXEL_COUNT_PER_CHUNK
    &&& forall|i: int| 0 <= i < MAX_VOXEL_COUNT_PER_CHUNK ==> #[trigger] data[i] == 1
}

/// How many of the two end cells of a row of 16 lie at `v`.
spec fn ends_at(v: int) -> int {
    (if v == 0 {
        1int
    } else {
        0int
    }) + (if v == 15 {
        1int
    } else {
        0int
    })
}

/// How many of the two end cells of a row of 16 lie below `n`.
spec fn ends_below(n: int) -> int {
    (if n >= 1 {
        1int
    } else {
        0int
    }) + (if n >= 16 {
        1int
    } else {
        0int
    })
}

proof fn lemma_solid_cell(data: Seq<u8>, x: int, y: int, z: int)
    requires
        all_solid(data),
        in_chunk(x, y, z),
    ensures
        cell_faces(data, no_neighbors(), x, y, z).len() == ends_at(x) + ends_at(y) + ends_at(z),
{
    reveal(face_if_exposed);
    let nb = no_neighbors();
    assert(data[voxel_index(x, y, z)] == 1);
    if z + 1 < 16 {
        assert(data[voxel_index(x, y, z + 1)] == 1);
    }
    if z > 0 {
        assert(data[voxel_index(x, y, z - 1)] == 1);
    }
    if x + 1 < 16 {
        assert(data[voxel_index(x + 1, y, z)] == 1);
    }
    if x > 0 {
        assert(data[voxel_index(x - 1, y, z)] == 1);
    }
    if y + 1 < 16 {
        assert(data[voxel_index(x, y + 1, z)] == 1);
    }
    if y > 0 {
        assert(data[voxel_index(x, y - 1, z)] == 1);
    }
}

proof fn lemma_solid_column(data: Seq<u8>, x: int, z: int, n: nat)
    requires
        all_solid(data),
        0 <= x < 16,
        0 <= z < 16,
        n <= 16,
    ensures
        column_faces(data, no_neighbors(), x, z, n).len() == n * ends_at(x) + n * ends_at(z)
            + ends_below(n as int),
    decreases n,
{
    let nb = no_neighbors();
    let a = ends_at(x);
    let b = ends_at(z);
    if n > 0 {
        lemma_solid_column(data, x, z, (n - 1) as nat);
        lemma_solid_cell(data, x, n - 1, z);
        assert(column_faces(data, nb, x, z, n) == column_faces(data, nb, x, z, (n - 1) as nat)
            + cell_faces(data, nb, x, n - 1, z));
        assert((n - 1) * a + a == n * a) by (nonlinear_arith);
        assert((n - 1) * b + b == n * b) by (nonlinear_arith);
    } else {
        assert(n * a == 0 && n * b == 0) by (nonlinear_arith)
            requires
                n == 0,
        ;
    }
}

proof fn lemma_solid_layer(data: Seq<u8>, z: int, n: nat)
    requires
        all_solid(data),
        0 <= z < 16,
        n <= 16,
    ensures
        layer_faces(data, no_neighbors(), z, n).len() == 16 * n * ends_at(z) + 16 * ends_below(n as int)
            + 2 * n,
    decreases n,
{
    let nb = no_neighbors();
    let b = ends_at(z);
    if n > 0 {
        lemma_solid_layer(data, z, (n - 1) as nat);
        lemma_solid_column(data, n - 1, z, 16);
        assert(layer_faces(data, nb, z, n) == layer_faces(data, nb, z, (n - 1) as nat)
            + column_faces(data, nb, n - 1, z, 16));
        assert(16 * (n - 1) * b + 16 * b == 16 * n * b) by (nonlinear_arith);
    } else {
        assert(16 * n * b == 0) by (nonlinear_arith)
            requires
                n == 0,
        ;
    }
}

proof fn lemma_solid_layers(data: Seq<u8>, n: nat)
    requires
        all_solid(data),
        n <= 16,
    ensures
        layers_faces(data, no_neighbors(), n).len() == 256 * ends_below(n as int) + 64 * n,
    decreases n,
{
    let nb = no_neighbors();
    if n > 0 {
        lemma_solid_layers(data, (n - 1) as nat);
        lemma_solid_layer(data, n - 1, 16);
        assert(layers_faces(data, nb, n) == layers_faces(data, nb, (n - 1) as nat) + layer_faces(
            data,
            nb,
            n - 1,
            16,
        ));
    }
}

/// A solid chunk with no known neighbor shows exactly its surface: one face
/// per unit square of its six sides.
pub proof fn lemma_solid_chunk_face_count(data: Seq<u8>)
    requires
        all_solid(data),
    ensures
        chunk_faces(data, no_neighbors()).len() == 2 * (CHUNK_WIDTH * CHUNK_HEIGHT + CHUNK_HEIGHT
            * CHUNK_DEPTH + CHUNK_WIDTH * CHUNK_DEPTH),
{
    lemma_solid_layers(data, 16);
}


/// The place of a face direction in the order the mesher visits them.
pub open spec fn face_rank(f: FaceType) -> int {
    match f {
        FaceType::Front => 0,
        FaceType::Back => 1,
        FaceType::Right => 2,
        FaceType::Left => 3,
        FaceType::Top => 4,
        FaceType::Bottom => 5,
    }
}

/// Orders faces by cell, then by direction.
pub open spec fn face_key(f: Face) -> int {
    6 * voxel_index(f.0, f.1, f.2) + face_rank(f.3)
}

pub open spec fn keys_increasing(s: Seq<Face>) -> bool {
    forall|i: int, j: int| 0 <= i < j < s.len() ==> face_key(#[trigger] s[i]) < face_key(#[trigger] s[j])
}

pub open spec fn keys_within(s: Seq<Face>, lo: int, hi: int) -> bool {
    forall|i: int| 0 <= i < s.len() ==> lo <= #[trigger] face_key(s[i]) < hi
}

proof fn lemma_concat_ordered(a: Seq<Face>, b: Seq<Face>, lo: int, mid: int, hi: int)
    requires
        lo <= mid <= hi,
        keys_increasing(a),
        keys_increasing(b),
        keys_within(a, lo, mid),
        keys_within(b, mid, hi),
    ensures
        keys_increasing(a + b),
        keys_within(a + b, lo, hi),
{
    let s = a + b;
    assert forall|i: int, j: int| 0 <= i < j < s.len() implies face_key(#[trigger] s[i]) < face_key(
        #[trigger] s[j],
    ) by {
        if j < a.len() {
            assert(s[i] == a[i] && s[j] == a[j]);
        } else if i >= a.len() {
            assert(s[i] == b[i - a.len()] && s[j] == b[j - a.len()]);
        } else {
            assert(s[i] == a[i] && s[j] == b[j - a.len()]);
            assert(face_key(a[i]) < mid);
            assert(mid <= face_key(b[j - a.len()]));
        }
    }
    assert forall|i: int| 0 <= i < s.len() implies lo <= #[trigger] face_key(s[i]) < hi by {
        if i < a.len() {
            assert(s[i] == a[i]);
            assert(lo <= face_key(a[i]) < mid);
        } else {
            assert(s[i] == b[i - a.len()]);
            assert(mid <= face_key(b[i - a.len()]) < hi);
        }
    }
}

proof fn lemma_face_if_exposed_ordered(
    data: Seq<u8>,
    nb: NeighborsView,
    x: int,
    y: int,
    z: int,
    f: FaceType,
)
    ensures
        keys_increasing(face_if_exposed(data, nb, x, y, z, f)),
        keys_within(
            face_if_exposed(data, nb, x, y, z, f),
            6 * voxel_index(x, y, z) + face_rank(f),
            6 * voxel_index(x, y, z) + face_rank(f) + 1,
        ),
{
    reveal(face_if_exposed);
}

proof fn lemma_cell_ordered(data: Seq<u8>, nb: NeighborsView, x: int, y: int, z: int)
    ensures
        keys_increasing(cell_faces(data, nb, x, y, z)),
        keys_within(
            cell_faces(data, nb, x, y, z),
            6 * voxel_index(x, y, z),
            6 * voxel_index(x, y, z) + 6,
        ),
{
    let b = 6 * voxel_index(x, y, z);
    if cell_faces(data, nb, x, y, z).len() > 0 {
        let f0 = face_if_exposed(data, nb, x, y, z, FaceType::Front);
        let f1 = face_if_exposed(data, nb, x, y, z, FaceType::Back);
        let f2 = face_if_exposed(data, nb, x, y, z, FaceType::Right);
        let f3 = face_if_exposed(data, nb, x, y, z, FaceType::Left);
        let f4 = face_if_exposed(data, nb, x, y, z, FaceType::Top);
        let f5 = face_if_exposed(data, nb, x, y, z, FaceType::Bottom);
        lemma_face_if_exposed_ordered(data, nb, x, y, z, FaceType::Front);
        lemma_face_if_exposed_ordered(data, nb, x, y, z, FaceType::Back);
        lemma_face_if_exposed_ordered(data, nb, x, y, z, FaceType::Right);
        lemma_face_if_exposed_ordered(data, nb, x, y, z, FaceType::Left);
        lemma_face_if_exposed_ordered(data, nb, x, y, z, FaceType::Top);
        lemma_face_if_exposed_ordered(data, nb, x, y, z, FaceType::Bottom);
        lemma_concat_ordered(f0, f1, b, b + 1, b + 2);
        lemma_concat_ordered(f0 + f1, f2, b, b + 2, b + 3);
        lemma_concat_ordered(f0 + f1 + f2, f3, b, b + 3, b + 4);
        lemma_concat_ordered(f0 + f1 + f2 + f3, f4, b, b + 4, b + 5);
        lemma_concat_ordered(f0 + f1 + f2 + f3 + f4, f5, b, b + 5, b + 6);
    }
}

proof fn lemma_column_ordered(data: Seq<u8>, nb: NeighborsView, x: int, z: int, n: nat)
    ensures
        keys_increasing(column_faces(data, nb, x, z, n)),
        keys_within(
            column_faces(data, nb, x, z, n),
            6 * voxel_index(x, 0, z),
            6 * voxel_index(x, 0, z) + 6 * n,
        ),
    decreases n,
{
    if n > 0 {
        lemma_column_ordered(data, nb, x, z, (n - 1) as nat);
        lemma_cell_ordered(data, nb, x, n - 1, z);
        lemma_concat_ordered(
            column_faces(data, nb, x, z, (n - 1) as nat),
            cell_faces(data, nb, x, n - 1, z),
            6 * voxel_index(x, 0, z),
            6 * voxel_index(x, n - 1, z),
            6 * voxel_index(x, 0, z) + 6 * n,
        );
    }
}

proof fn lemma_layer_ordered(data: Seq<u8>, nb: NeighborsView, z: int, n: nat)
    ensures
        keys_increasing(layer_faces(data, nb, z, n)),
        keys_within(layer_faces(data, nb, z, n), 1536 * z, 1536 * z + 96 * n),
    decreases n,
{
    if n > 0 {
        lemma_layer_ordered(data, nb, z, (n - 1) as nat);
        lemma_column_ordered(data, nb, n - 1, z, 16);
        lemma_concat_ordered(
            layer_faces(data, nb, z, (n - 1) as nat),
            column_faces(data, nb, n - 1, z, 16),
            1536 * z,
            1536 * z + 96 * (n - 1),
            1536 * z + 96 * n,
        );
    }
}

proof fn lemma_layers_ordered(data: Seq<u8>, nb: NeighborsView, n: nat)
    ensures
        keys_increasing(layers_faces(data, nb, n)),
        keys_within(layers_faces(data, nb, n), 0, 1536 * (n as int)),
    decreases n,
{
    if n > 0 {
        lemma_layers_ordered(data, nb, (n - 1) as nat);
        lemma_layer_ordered(data, nb, n - 1, 16);
        lemma_concat_ordered(
            layers_faces(data, nb, (n - 1) as nat),
            layer_faces(data, nb, n - 1, 16),
            0,
            1536 * (n - 1),
            1536 * (n as int),
        );
    }
}

/// The positions of the four vertices of face number `i` of a mesh.
pub open spec fn quad_positions(vertices: Seq<Vertex>, i: int) -> Set<(int, int, int)> {
    set![
        point_of(vertices[4 * i].position),
        point_of(vertices[4 * i + 1].position),
        point_of(vertices[4 * i + 2].position),
        point_of(vertices[4 * i + 3].position),
    ]
}

/// The corner of a face template that is lowest on every axis.
spec fn lowest_corner(f: FaceType) -> int {
    match f {
        FaceType::Front => 0,
        FaceType::Back => 1,
        FaceType::Right => 1,
        FaceType::Left => 0,
        FaceType::Top => 2,
        FaceType::Bottom => 0,
    }
}

proof fn lemma_lowest_corner(f: FaceType, k: int)
    requires
        0 <= k < 4,
    ensures
        corner_offset(f, lowest_corner(f)).0 <= corner_offset(f, k).0,
        corner_offset(f, lowest_corner(f)).1 <= corner_offset(f, k).1,
        corner_offset(f, lowest_corner(f)).2 <= corner_offset(f, k).2,
{
}

/// No two faces of a chunk's mesh that face the same way sit on the same
/// four corners.
pub proof fn lemma_no_duplicate_faces(
    data: Seq<u8>,
    nb: NeighborsView,
    vertices: Seq<Vertex>,
    indices: Seq<u32>,
    origin: GridPoint,
    mode: ColorMode,
    i: int,
    j: int,
)
    requires
        mesh_of(vertices, indices, chunk_faces(data, nb), origin, mode),
        0 <= i < j < chunk_faces(data, nb).len(),
        chunk_faces(data, nb)[i].3 == chunk_faces(data, nb)[j].3,
    ensures
        quad_positions(vertices, i) != quad_positions(vertices, j),
{
    reveal(mesh_of);
    let faces = chunk_faces(data, nb);
    lemma_layers_ordered(data, nb, 16);
    let fi = faces[i];
    let fj = faces[j];
    assert(face_key(fi) < face_key(fj));
    assert((fi.0, fi.1, fi.2) != (fj.0, fj.1, fj.2));
    assert(face_written(vertices, indices, i, fi, origin, mode));
    assert(face_written(vertices, indices, j, fj, origin, mode));
    let ci = (origin.x + fi.0, origin.y + fi.1, origin.z + fi.2);
    let cj = (origin.x + fj.0, origin.y + fj.1, origin.z + fj.2);
    let f = fi.3;
    let li = lowest_corner(f);
    if quad_positions(vertices, i) == quad_positions(vertices, j) {
        let pi = point_of(vertices[4 * i + li].position);
        let pj = point_of(vertices[4 * j + li].position);
        assert(quad_positions(vertices, i).contains(pi));
        assert(quad_positions(vertices, j).contains(pj));
        assert(quad_positions(vertices, j).contains(pi));
        assert(quad_positions(vertices, i).contains(pj));
        lemma_lowest_corner(f, 0);
        lemma_lowest_corner(f, 1);
        lemma_lowest_corner(f, 2);
        lemma_lowest_corner(f, 3);
        assert(pi == corner(ci, f, li));
        assert(pj == corner(cj, f, li));
        assert(pi == corner(cj, f, 0) || pi == corner(cj, f, 1) || pi == corner(cj, f, 2) || pi
            == corner(cj, f, 3));
        assert(pj == corner(ci, f, 0) || pj == corner(ci, f, 1) || pj == corner(ci, f, 2) || pj
            == corner(ci, f, 3));
        assert(false);
    }
}

} // verus!
