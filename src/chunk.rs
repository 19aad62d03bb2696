use rand::Rng;
use vstd::prelude::*;
use crate::mesh_lemmas::lemma_indices_in_bounds;

verus! {

pub const CHUNK_WIDTH: usize = 16;

pub const CHUNK_DEPTH: usize = 16;

pub const CHUNK_HEIGHT: usize = 16;

/// Number of voxels in one chunk.
pub const MAX_VOXEL_COUNT_PER_CHUNK: usize = CHUNK_WIDTH * CHUNK_HEIGHT * CHUNK_DEPTH;

/// The position of a cell inside a chunk's occupancy array.
pub open spec fn voxel_index(x: int, y: int, z: int) -> int {
    y + x * (CHUNK_HEIGHT as int) + z * (CHUNK_WIDTH as int) * (CHUNK_HEIGHT as int)
}

pub open spec fn in_chunk(x: int, y: int, z: int) -> bool {
    0 <= x < CHUNK_WIDTH as int && 0 <= y < CHUNK_HEIGHT as int && 0 <= z < CHUNK_DEPTH as int
}

/// Flattens local chunk coordinates into an index of the occupancy array.
pub fn to_1d_array(x: usize, y: usize, z: usize) -> (r: usize)
    requires
        in_chunk(x as int, y as int, z as int),
    ensures
        r == voxel_index(x as int, y as int, z as int),
        r < MAX_VOXEL_COUNT_PER_CHUNK,
{
    y + x * CHUNK_HEIGHT + (z * CHUNK_WIDTH * CHUNK_HEIGHT)
}

/// A point with non-negative integer coordinates: a voxel corner in world space,
/// or the world-space origin of a chunk.
#[derive(Clone, Copy, Debug, PartialEq, Eq, Hash, Structural)]
pub struct GridPoint {
    pub x: usize,
    pub y: usize,
    pub z: usize,
}

impl GridPoint {
    pub fn new(x: usize, y: usize, z: usize) -> (r: GridPoint)
        ensures
            r == (GridPoint { x, y, z }),
    {
        GridPoint { x, y, z }
    }
}

/// The six faces of a voxel, by the direction they face.
#[derive(Clone, Copy, Debug, PartialEq, Eq, Hash, Structural)]
pub enum FaceType {
    /// +z
    Front,
    /// -z
    Back,
    /// +x
    Right,
    /// -x
    Left,
    /// +y
    Top,
    /// -y
    Bottom,
}

/// The six colors a face can be painted with.
#[derive(Clone, Copy, Debug, PartialEq, Eq, Hash, Structural)]
pub enum Color {
    Green,
    Cyan,
    Orange,
    Purple,
    White,
    Black,
}

/// How faces get their color.
#[derive(Clone, Copy, Debug, PartialEq, Eq, Hash, Structural)]
pub enum ColorMode {
    /// Each face direction has its own color.
    FixedPerDirection,
    /// Each face gets one of the six colors at random (a debugging aid).
    DebugRandom,
}

/// A mesh vertex: a world-space corner position and a color.
#[derive(Clone, Copy, Debug, PartialEq, Eq, Hash, Structural)]
pub struct Vertex {
    pub position: GridPoint,
    pub color: Color,
}

pub open spec fn face_color(f: FaceType) -> Color {
    match f {
        FaceType::Front => Color::Green,
        FaceType::Back => Color::Cyan,
        FaceType::Right => Color::Orange,
        FaceType::Left => Color::Purple,
        FaceType::Top => Color::White,
        FaceType::Bottom => Color::Black,
    }
}

/// The color a face direction is painted with under `ColorMode::FixedPerDirection`.
pub fn color_for_face(f: FaceType) -> (r: Color)
    ensures
        r == face_color(f),
{
    match f {
        FaceType::Front => Color::Green,
        FaceType::Back => Color::Cyan,
        FaceType::Right => Color::Orange,
        FaceType::Left => Color::Purple,
        FaceType::Top => Color::White,
        FaceType::Bottom => Color::Black,
    }
}

pub open spec fn color_of_index(i: int) -> Color {
    if i == 0 {
        Color::Green
    } else if i == 1 {
        Color::Cyan
    } else if i == 2 {
        Color::Orange
    } else if i == 3 {
        Color::Purple
    } else if i == 4 {
        Color::Black
    } else {
        Color::White
    }
}

/// Picks one of the six colors by a number below six.
pub fn color_from_index(i: u32) -> (r: Color)
    requires
        i < 6,
    ensures
        r == color_of_index(i as int),
{
    if i == 0 {
        Color::Green
    } else if i == 1 {
        Color::Cyan
    } else if i == 2 {
        Color::Orange
    } else if i == 3 {
        Color::Purple
    } else if i == 4 {
        Color::Black
    } else {
        Color::White
    }
}

/// Offset of corner `k` of a face from the lower corner of its unit cube.
/// The four corners of each face are listed so that the triangles
/// (0, 1, 3) and (3, 2, 0) wind counter-clockwise seen from outside.
pub open spec fn corner_offset(f: FaceType, k: int) -> (int, int, int) {
    match f {
        FaceType::Front => if k == 0 { (0, 0, 1) } else if k == 1 { (1, 0, 1) } else if k == 2 { (0, 1, 1) } else { (1, 1, 1) },
        FaceType::Back => if k == 0 { (1, 0, 0) } else if k == 1 { (0, 0, 0) } else if k == 2 { (1, 1, 0) } else { (0, 1, 0) },
        FaceType::Right => if k == 0 { (1, 0, 1) } else if k == 1 { (1, 0, 0) } else if k == 2 { (1, 1, 1) } else { (1, 1, 0) },
        FaceType::Left => if k == 0 { (0, 0, 0) } else if k == 1 { (0, 0, 1) } else if k == 2 { (0, 1, 0) } else { (0, 1, 1) },
        FaceType::Bottom => if k == 0 { (0, 0, 0) } else if k == 1 { (1, 0, 0) } else if k == 2 { (0, 0, 1) } else { (1, 0, 1) },
        FaceType::Top => if k == 0 { (0, 1, 1) } else if k == 1 { (1, 1, 1) } else if k == 2 { (0, 1, 0) } else { (1, 1, 0) },
    }
}

pub open spec fn point_of(p: GridPoint) -> (int, int, int) {
    (p.x as int, p.y as int, p.z as int)
}

/// World-space position of corner `k` of face `f` of the cell whose lower corner is `c`.
pub open spec fn corner(c: (int, int, int), f: FaceType, k: int) -> (int, int, int) {
    let o = corner_offset(f, k);
    (c.0 + o.0, c.1 + o.1, c.2 + o.2)
}

/// Offsets into a face's four vertices for its two triangles.
pub open spec fn quad_pattern(j: int) -> int {
    if j == 0 {
        0
    } else if j == 1 {
        1
    } else if j == 2 {
        3
    } else if j == 3 {
        3
    } else if j == 4 {
        2
    } else {
        0
    }
}

fn corner_offset_exec(f: FaceType, k: usize) -> (r: (usize, usize, usize))
    requires
        k < 4,
    ensures
        (r.0 as int, r.1 as int, r.2 as int) == corner_offset(f, k as int),
        r.0 <= 1 && r.1 <= 1 && r.2 <= 1,
{
    match f {
        FaceType::Front => if k == 0 { (0, 0, 1) } else if k == 1 { (1, 0, 1) } else if k == 2 { (0, 1, 1) } else { (1, 1, 1) },
        FaceType::Back => if k == 0 { (1, 0, 0) } else if k == 1 { (0, 0, 0) } else if k == 2 { (1, 1, 0) } else { (0, 1, 0) },
        FaceType::Right => if k == 0 { (1, 0, 1) } else if k == 1 { (1, 0, 0) } else if k == 2 { (1, 1, 1) } else { (1, 1, 0) },
        FaceType::Left => if k == 0 { (0, 0, 0) } else if k == 1 { (0, 0, 1) } else if k == 2 { (0, 1, 0) } else { (0, 1, 1) },
        FaceType::Bottom => if k == 0 { (0, 0, 0) } else if k == 1 { (1, 0, 0) } else if k == 2 { (0, 0, 1) } else { (1, 0, 1) },
        FaceType::Top => if k == 0 { (0, 1, 1) } else if k == 1 { (1, 1, 1) } else if k == 2 { (0, 1, 0) } else { (1, 1, 0) },
    }
}

/// Builds the four vertices of face `face_type` of the cell at local
/// coordinates (x, y, z) of the chunk whose origin is `world_coordinates`.
pub fn generate_voxel_face(
    x: usize,
    y: usize,
    z: usize,
    world_coordinates: &GridPoint,
    face_type: FaceType,
    color: Color,
) -> (r: [Vertex; 4])
    requires
        world_coordinates.x + x < usize::MAX,
        world_coordinates.y + y < usize::MAX,
        world_coordinates.z + z < usize::MAX,
    ensures
        forall|k: int|
            #![trigger r@[k]]
            0 <= k < 4 ==> {
                &&& point_of(r@[k].position) == corner(
                    (world_coordinates.x + x, world_coordinates.y + y, world_coordinates.z + z),
                    face_type,
                    k,
                )
                &&& r@[k].color == color
            },
{
    let cx = world_coordinates.x + x;
    let cy = world_coordinates.y + y;
    let cz = world_coordinates.z + z;
    let o0 = corner_offset_exec(face_type, 0);
    let o1 = corner_offset_exec(face_type, 1);
    let o2 = corner_offset_exec(face_type, 2);
    let o3 = corner_offset_exec(face_type, 3);
    let v0 = Vertex { position: GridPoint { x: cx + o0.0, y: cy + o0.1, z: cz + o0.2 }, color };
    let v1 = Vertex { position: GridPoint { x: cx + o1.0, y: cy + o1.1, z: cz + o1.2 }, color };
    let v2 = Vertex { position: GridPoint { x: cx + o2.0, y: cy + o2.1, z: cz + o2.2 }, color };
    let v3 = Vertex { position: GridPoint { x: cx + o3.0, y: cy + o3.1, z: cz + o3.2 }, color };
    [v0, v1, v2, v3]
}

/// The six indices of the two triangles of face number `face_count`.
pub fn generate_index_for_face(face_count: u32) -> (r: [u32; 6])
    requires
        face_count < 0x4000_0000,
    ensures
        forall|j: int| 0 <= j < 6 ==> #[trigger] r@[j] == 4 * face_count + quad_pattern(j),
{
    let offset = face_count * 4;
    [offset, offset + 1, offset + 3, offset + 3, offset + 2, offset]
}


/// A face of a cell: local cell coordinates and the direction it faces.
pub type Face = (int, int, int, FaceType);

/// Occupancy data of the horizontally adjacent chunks that are known.
/// Left is -x, right is +x, back is -z and front is +z.
pub struct ChunkNeighbors {
    pub left: Option<Vec<u8>>,
    pub right: Option<Vec<u8>>,
    pub back: Option<Vec<u8>>,
    pub front: Option<Vec<u8>>,
}

/// What the mesher reads of the neighbors: their occupancy data, where known.
pub struct NeighborsView {
    pub left: Option<Seq<u8>>,
    pub right: Option<Seq<u8>>,
    pub back: Option<Seq<u8>>,
    pub front: Option<Seq<u8>>,
}

pub open spec fn neighbor_view(d: Option<Vec<u8>>) -> Option<Seq<u8>> {
    match d {
        Some(v) => Some(v@),
        None => None,
    }
}

pub open spec fn neighbor_ok(d: Option<Seq<u8>>) -> bool {
    match d {
        Some(v) => v.len() == MAX_VOXEL_COUNT_PER_CHUNK,
        None => true,
    }
}

impl View for ChunkNeighbors {
    type V = NeighborsView;

    open spec fn view(&self) -> NeighborsView {
        NeighborsView {
            left: neighbor_view(self.left),
            right: neighbor_view(self.right),
            back: neighbor_view(self.back),
            front: neighbor_view(self.front),
        }
    }
}

impl NeighborsView {
    pub open spec fn wf(&self) -> bool {
        neighbor_ok(self.left) && neighbor_ok(self.right) && neighbor_ok(self.back) && neighbor_ok(
            self.front,
        )
    }
}

impl ChunkNeighbors {
    pub open spec fn wf(&self) -> bool {
        self@.wf()
    }

    /// No neighbor is known: every face on the chunk's border is visible.
    pub fn none() -> (r: ChunkNeighbors)
        ensures
            r.wf(),
            r@ == (NeighborsView { left: None, right: None, back: None, front: None }),
    {
        ChunkNeighbors { left: None, right: None, back: None, front: None }
    }
}

/// Whether the cell at (x, y, z) of `data` is solid.
pub open spec fn solid(data: Seq<u8>, x: int, y: int, z: int) -> bool {
    data[voxel_index(x, y, z)] == 1
}

/// Whether the cell at (x, y, z) of a neighbor, if there is one, is solid.
pub open spec fn neighbor_solid(d: Option<Seq<u8>>, x: int, y: int, z: int) -> bool {
    match d {
        Some(v) => solid(v, x, y, z),
        None => false,
    }
}

/// Whether face `f` of the cell at (x, y, z) borders no solid cell, in this
/// chunk or in the neighbor across the chunk's border.
pub open spec fn face_exposed(
    data: Seq<u8>,
    nb: NeighborsView,
    x: int,
    y: int,
    z: int,
    f: FaceType,
) -> bool {
    let w = CHUNK_WIDTH as int;
    let h = CHUNK_HEIGHT as int;
    let d = CHUNK_DEPTH as int;
    match f {
        FaceType::Front => if z + 1 < d {
            !solid(data, x, y, z + 1)
        } else {
            !neighbor_solid(nb.front, x, y, 0)
        },
        FaceType::Back => if z > 0 {
            !solid(data, x, y, z - 1)
        } else {
            !neighbor_solid(nb.back, x, y, d - 1)
        },
        FaceType::Right => if x + 1 < w {
            !solid(data, x + 1, y, z)
        } else {
            !neighbor_solid(nb.right, 0, y, z)
        },
        FaceType::Left => if x > 0 {
            !solid(data, x - 1, y, z)
        } else {
            !neighbor_solid(nb.left, w - 1, y, z)
        },
        FaceType::Top => y + 1 >= h || !solid(data, x, y + 1, z),
        FaceType::Bottom => y == 0 || !solid(data, x, y - 1, z),
    }
}

#[verifier::opaque]
pub open spec fn face_if_exposed(
    data: Seq<u8>,
    nb: NeighborsView,
    x: int,
    y: int,
    z: int,
    f: FaceType,
) -> Seq<Face> {
    if face_exposed(data, nb, x, y, z, f) {
        seq![(x, y, z, f)]
    } else {
        seq![]
    }
}

/// The visible faces of one cell, in the order front, back, right, left, top, bottom.
pub open spec fn cell_faces(data: Seq<u8>, nb: NeighborsView, x: int, y: int, z: int) -> Seq<
    Face,
> {
    if solid(data, x, y, z) {
        face_if_exposed(data, nb, x, y, z, FaceType::Front) + face_if_exposed(
            data,
            nb,
            x,
            y,
            z,
            FaceType::Back,
        ) + face_if_exposed(data, nb, x, y, z, FaceType::Right) + face_if_exposed(
            data,
            nb,
            x,
            y,
            z,
            FaceType::Left,
        ) + face_if_exposed(data, nb, x, y, z, FaceType::Top) + face_if_exposed(
            data,
            nb,
            x,
            y,
            z,
            FaceType::Bottom,
        )
    } else {
        seq![]
    }
}

/// The visible faces of the cells (x, y, z) with y < n, by increasing y.
pub open spec fn column_faces(data: Seq<u8>, nb: NeighborsView, x: int, z: int, n: nat) -> Seq<
    Face,
>
    decreases n,
{
    if n == 0 {
        seq![]
    } else {
        column_faces(data, nb, x, z, (n - 1) as nat) + cell_faces(data, nb, x, n - 1, z)
    }
}

/// The visible faces of the columns (x, z) with x < n, by increasing x.
pub open spec fn layer_faces(data: Seq<u8>, nb: NeighborsView, z: int, n: nat) -> Seq<Face>
    decreases n,
{
    if n == 0 {
        seq![]
    } else {
        layer_faces(data, nb, z, (n - 1) as nat) + column_faces(
            data,
            nb,
            n - 1,
            z,
            CHUNK_HEIGHT as nat,
        )
    }
}

/// The visible faces of the layers z < n, by increasing z.
pub open spec fn layers_faces(data: Seq<u8>, nb: NeighborsView, n: nat) -> Seq<Face>
    decreases n,
{
    if n == 0 {
        seq![]
    } else {
        layers_faces(data, nb, (n - 1) as nat) + layer_faces(data, nb, n - 1, CHUNK_WIDTH as nat)
    }
}

/// Every visible face of a chunk, in the order the mesher emits them:
/// z outermost, then x, then y, then the six directions.
pub open spec fn chunk_faces(data: Seq<u8>, nb: NeighborsView) -> Seq<Face> {
    layers_faces(data, nb, CHUNK_DEPTH as nat)
}

/// Face number `i` of a mesh, with the given color mode, is face `f` of the
/// chunk whose origin is `origin`: its four vertices sit on the face's
/// corners, share one color, and its six indices form the two triangles.
pub open spec fn face_written(
    vertices: Seq<Vertex>,
    indices: Seq<u32>,
    i: int,
    f: Face,
    origin: GridPoint,
    mode: ColorMode,
) -> bool {
    let c = (origin.x + f.0, origin.y + f.1, origin.z + f.2);
    &&& forall|m: int|
        #![trigger vertices[m]]
        4 * i <= m < 4 * i + 4 ==> {
            &&& point_of(vertices[m].position) == corner(c, f.3, m - 4 * i)
            &&& vertices[m].color == vertices[4 * i].color
        }
    &&& forall|m: int| 6 * i <= m < 6 * i + 6 ==> #[trigger] indices[m] == 4 * i + quad_pattern(m - 6 * i)
    &&& mode == ColorMode::FixedPerDirection ==> vertices[4 * i].color == face_color(f.3)
}

/// The vertex and index buffers hold exactly the faces `faces`, in order.
#[verifier::opaque]
pub open spec fn mesh_of(
    vertices: Seq<Vertex>,
    indices: Seq<u32>,
    faces: Seq<Face>,
    origin: GridPoint,
    mode: ColorMode,
) -> bool {
    &&& vertices.len() == 4 * faces.len()
    &&& indices.len() == 6 * faces.len()
    &&& forall|i: int|
        0 <= i < faces.len() ==> #[trigger] face_written(vertices, indices, i, faces[i], origin, mode)
}

/// The world-space origin leaves room for every corner of the chunk.
pub open spec fn origin_in_range(o: GridPoint) -> bool {
    &&& o.x + CHUNK_WIDTH < usize::MAX
    &&& o.y + CHUNK_HEIGHT < usize::MAX
    &&& o.z + CHUNK_DEPTH < usize::MAX
}

/// One chunk: its occupancy data (0 empty, 1 solid), its world-space origin,
/// and the mesh of its visible faces.
pub struct ChunkMeshData {
    vertices: Vec<Vertex>,
    indices: Vec<u32>,
    num_of_faces: u32,
    chunk_data: Vec<u8>,
    world_coordinates: GridPoint,
}


/// A mesh of `faces` has four vertices and six indices per face.
pub proof fn lemma_mesh_sizes(
    vertices: Seq<Vertex>,
    indices: Seq<u32>,
    faces: Seq<Face>,
    origin: GridPoint,
    mode: ColorMode,
)
    requires
        mesh_of(vertices, indices, faces, origin, mode),
    ensures
        vertices.len() == 4 * faces.len(),
        indices.len() == 6 * faces.len(),
{
    reveal(mesh_of);
}

proof fn lemma_face_written_extend(
    v: Seq<Vertex>,
    ind: Seq<u32>,
    more_v: Seq<Vertex>,
    more_i: Seq<u32>,
    i: int,
    f: Face,
    origin: GridPoint,
    mode: ColorMode,
)
    requires
        0 <= i,
        4 * i + 4 <= v.len(),
        6 * i + 6 <= ind.len(),
        face_written(v, ind, i, f, origin, mode),
    ensures
        face_written(v + more_v, ind + more_i, i, f, origin, mode),
{
    let v2 = v + more_v;
    let i2 = ind + more_i;
    assert forall|m: int| 4 * i <= m < 4 * i + 4 implies #[trigger] v2[m] == v[m] by {}
    assert forall|m: int| 6 * i <= m < 6 * i + 6 implies #[trigger] i2[m] == ind[m] by {}
}

proof fn lemma_cell_faces_len(data: Seq<u8>, nb: NeighborsView, x: int, y: int, z: int)
    ensures
        cell_faces(data, nb, x, y, z).len() <= 6,
{
    reveal(face_if_exposed);
}

proof fn lemma_column_faces_len(data: Seq<u8>, nb: NeighborsView, x: int, z: int, n: nat)
    ensures
        column_faces(data, nb, x, z, n).len() <= 6 * n,
    decreases n,
{
    if n > 0 {
        lemma_column_faces_len(data, nb, x, z, (n - 1) as nat);
        lemma_cell_faces_len(data, nb, x, n - 1, z);
    }
}

proof fn lemma_layer_faces_len(data: Seq<u8>, nb: NeighborsView, z: int, n: nat)
    ensures
        layer_faces(data, nb, z, n).len() <= 96 * n,
    decreases n,
{
    if n > 0 {
        lemma_layer_faces_len(data, nb, z, (n - 1) as nat);
        lemma_column_faces_len(data, nb, n - 1, z, CHUNK_HEIGHT as nat);
    }
}

proof fn lemma_layers_faces_len(data: Seq<u8>, nb: NeighborsView, n: nat)
    ensures
        layers_faces(data, nb, n).len() <= 1536 * n,
    decreases n,
{
    if n > 0 {
        lemma_layers_faces_len(data, nb, (n - 1) as nat);
        lemma_layer_faces_len(data, nb, n - 1, CHUNK_WIDTH as nat);
    }
}

/// Relies on rand::thread_rng and rand::Rng::gen_range: a number drawn from 0..6.
#[verifier::external_body]
fn random_color_index() -> (r: u32)
    ensures
        r < 6,
{
    rand::thread_rng().gen_range(0..6u32)
}

impl ChunkMeshData {
    /// The chunk's vertex buffer.
    pub closed spec fn vertices_view(&self) -> Seq<Vertex> {
        self.vertices@
    }

    /// The chunk's index buffer.
    pub closed spec fn indices_view(&self) -> Seq<u32> {
        self.indices@
    }

    /// The chunk's occupancy data.
    pub closed spec fn data(&self) -> Seq<u8> {
        self.chunk_data@
    }

    /// The chunk's world-space origin.
    pub closed spec fn origin(&self) -> GridPoint {
        self.world_coordinates
    }

    /// The number of faces in the chunk's mesh.
    pub closed spec fn face_count(&self) -> nat {
        self.num_of_faces as nat
    }

    pub open spec fn wf(&self) -> bool {
        &&& self.data().len() == MAX_VOXEL_COUNT_PER_CHUNK
        &&& origin_in_range(self.origin())
        &&& self.vertices_view().len() == 4 * self.face_count()
        &&& self.indices_view().len() == 6 * self.face_count()
    }

    /// An empty chunk with no mesh, placed at `world_coordinates`.
    pub fn new(world_coordinates: GridPoint) -> (r: ChunkMeshData)
        requires
            origin_in_range(world_coordinates),
        ensures
            r.wf(),
            r.origin() == world_coordinates,
            forall|i: int| 0 <= i < MAX_VOXEL_COUNT_PER_CHUNK ==> #[trigger] r.data()[i] == 0,
            r.face_count() == 0,
            r.vertices_view().len() == 0,
            r.indices_view().len() == 0,
    {
        let mut chunk_data: Vec<u8> = Vec::new();
        let mut i: usize = 0;
        while i < MAX_VOXEL_COUNT_PER_CHUNK
            invariant
                i <= MAX_VOXEL_COUNT_PER_CHUNK,
                chunk_data@.len() == i,
                forall|j: int| 0 <= j < i ==> #[trigger] chunk_data@[j] == 0,
            decreases MAX_VOXEL_COUNT_PER_CHUNK - i,
        {
            chunk_data.push(0);
            i += 1;
        }
        ChunkMeshData {
            vertices: Vec::new(),
            indices: Vec::new(),
            num_of_faces: 0,
            chunk_data,
            world_coordinates,
        }
    }

    /// The occupancy of the cell at local coordinates (x, y, z).
    pub fn get(&self, x: usize, y: usize, z: usize) -> (r: u8)
        requires
            self.wf(),
            in_chunk(x as int, y as int, z as int),
        ensures
            r == self.data()[voxel_index(x as int, y as int, z as int)],
    {
        self.chunk_data[to_1d_array(x, y, z)]
    }

    /// Sets the occupancy of the cell at local coordinates (x, y, z).
    pub fn set(&mut self, x: usize, y: usize, z: usize, value: u8)
        requires
            old(self).wf(),
            in_chunk(x as int, y as int, z as int),
        ensures
            final(self).wf(),
            final(self).data() == old(self).data().update(
                voxel_index(x as int, y as int, z as int),
                value,
            ),
            final(self).origin() == old(self).origin(),
            final(self).face_count() == old(self).face_count(),
            final(self).vertices_view() == old(self).vertices_view(),
            final(self).indices_view() == old(self).indices_view(),
    {
        let i = to_1d_array(x, y, z);
        self.chunk_data.set(i, value);
    }

    /// Fills every cell of the chunk: the chunk becomes solid.
    pub fn generate_data(&mut self)
        requires
            old(self).wf(),
        ensures
            final(self).wf(),
            final(self).data().len() == MAX_VOXEL_COUNT_PER_CHUNK,
            forall|i: int|
                0 <= i < MAX_VOXEL_COUNT_PER_CHUNK ==> #[trigger] final(self).data()[i] == 1,
            final(self).origin() == old(self).origin(),
            final(self).face_count() == old(self).face_count(),
            final(self).vertices_view() == old(self).vertices_view(),
            final(self).indices_view() == old(self).indices_view(),
    {
        let mut i: usize = 0;
        while i < MAX_VOXEL_COUNT_PER_CHUNK
            invariant
                i <= MAX_VOXEL_COUNT_PER_CHUNK,
                self.wf(),
                forall|j: int| 0 <= j < i ==> #[trigger] self.data()[j] == 1,
                self.origin() == old(self).origin(),
                self.face_count() == old(self).face_count(),
                self.vertices_view() == old(self).vertices_view(),
                self.indices_view() == old(self).indices_view(),
            decreases MAX_VOXEL_COUNT_PER_CHUNK - i,
        {
            self.chunk_data.set(i, 1);
            i += 1;
        }
    }

    /// Whether face `f` of the cell at (x, y, z) is to be drawn.
    fn is_face_exposed(&self, nb: &ChunkNeighbors, x: usize, y: usize, z: usize, f: FaceType) -> (r:
        bool)
        requires
            self.wf(),
            nb.wf(),
            in_chunk(x as int, y as int, z as int),
        ensures
            r == face_exposed(self.data(), nb@, x as int, y as int, z as int, f),
    {
        match f {
            FaceType::Front => if z + 1 < CHUNK_DEPTH {
                self.chunk_data[to_1d_array(x, y, z + 1)] != 1
            } else {
                match &nb.front {
                    Some(d) => d[to_1d_array(x, y, 0)] != 1,
                    None => true,
                }
            },
            FaceType::Back => if z > 0 {
                self.chunk_data[to_1d_array(x, y, z - 1)] != 1
            } else {
                match &nb.back {
                    Some(d) => d[to_1d_array(x, y, CHUNK_DEPTH - 1)] != 1,
                    None => true,
                }
            },
            FaceType::Right => if x + 1 < CHUNK_WIDTH {
                self.chunk_data[to_1d_array(x + 1, y, z)] != 1
            } else {
                match &nb.right {
                    Some(d) => d[to_1d_array(0, y, z)] != 1,
                    None => true,
                }
            },
            FaceType::Left => if x > 0 {
                self.chunk_data[to_1d_array(x - 1, y, z)] != 1
            } else {
                match &nb.left {
                    Some(d) => d[to_1d_array(CHUNK_WIDTH - 1, y, z)] != 1,
                    None => true,
                }
            },
            FaceType::Top => y + 1 >= CHUNK_HEIGHT || self.chunk_data[to_1d_array(x, y + 1, z)] != 1,
            FaceType::Bottom => y == 0 || self.chunk_data[to_1d_array(x, y - 1, z)] != 1,
        }
    }

    /// Appends face `face_type` of the cell at (x, y, z), painted `color`, to the mesh.
    fn generate_mesh_face_data(
        &mut self,
        x: usize,
        y: usize,
        z: usize,
        face_type: FaceType,
        color: Color,
        Ghost(faces): Ghost<Seq<Face>>,
        Ghost(mode): Ghost<ColorMode>,
    )
        requires
            old(self).wf(),
            in_chunk(x as int, y as int, z as int),
            mesh_of(old(self).vertices_view(), old(self).indices_view(), faces, old(self).origin(), mode),
            faces.len() < 6 * MAX_VOXEL_COUNT_PER_CHUNK,
            mode == ColorMode::FixedPerDirection ==> color == face_color(face_type),
        ensures
            final(self).wf(),
            final(self).data() == old(self).data(),
            final(self).origin() == old(self).origin(),
            mesh_of(
                final(self).vertices_view(),
                final(self).indices_view(),
                faces.push((x as int, y as int, z as int, face_type)),
                old(self).origin(),
                mode,
            ),
            final(self).face_count() == faces.len() + 1,
    {
        let ghost old_v = self.vertices@;
        let ghost old_i = self.indices@;
        let ghost n = faces.len() as int;
        proof {
            lemma_mesh_sizes(old_v, old_i, faces, self.world_coordinates, mode);
        }
        let vertex_face = generate_voxel_face(x, y, z, &self.world_coordinates, face_type, color);
        self.vertices.push(vertex_face[0]);
        self.vertices.push(vertex_face[1]);
        self.vertices.push(vertex_face[2]);
        self.vertices.push(vertex_face[3]);
        let idx = generate_index_for_face(self.num_of_faces);
        self.indices.push(idx[0]);
        self.indices.push(idx[1]);
        self.indices.push(idx[2]);
        self.indices.push(idx[3]);
        self.indices.push(idx[4]);
        self.indices.push(idx[5]);
        self.num_of_faces = self.num_of_faces + 1;
        proof {
            reveal(mesh_of);
            let nf = faces.push((x as int, y as int, z as int, face_type));
            assert(self.vertices@ == old_v + vertex_face@);
            assert(self.indices@ == old_i + idx@);
            assert forall|i: int| 0 <= i < nf.len() implies #[trigger] face_written(
                self.vertices@,
                self.indices@,
                i,
                nf[i],
                self.world_coordinates,
                mode,
            ) by {
                if i < n {
                    lemma_face_written_extend(old_v, old_i, vertex_face@, idx@, i, faces[i], self.world_coordinates, mode);
                } else {
                    assert forall|m: int| 4 * i <= m < 4 * i + 4 implies #[trigger] self.vertices@[m]
                        == vertex_face@[m - 4 * i] by {}
                    assert forall|m: int| 6 * i <= m < 6 * i + 6 implies #[trigger] self.indices@[m]
                        == 4 * i + quad_pattern(m - 6 * i) by {
                        assert(self.indices@[m] == idx@[m - 6 * i]);
                    }
                    assert(self.vertices@[4 * i].color == color);
                }
            }
        }
    }

    /// Appends face `f` of the cell at (x, y, z) to the mesh if it is exposed.
    fn emit_if_exposed(
        &mut self,
        nb: &ChunkNeighbors,
        x: usize,
        y: usize,
        z: usize,
        f: FaceType,
        mode: ColorMode,
        Ghost(faces): Ghost<Seq<Face>>,
    )
        requires
            old(self).wf(),
            nb.wf(),
            in_chunk(x as int, y as int, z as int),
            mesh_of(old(self).vertices_view(), old(self).indices_view(), faces, old(self).origin(), mode),
            faces.len() < 6 * MAX_VOXEL_COUNT_PER_CHUNK,
        ensures
            final(self).wf(),
            final(self).data() == old(self).data(),
            final(self).origin() == old(self).origin(),
            mesh_of(
                final(self).vertices_view(),
                final(self).indices_view(),
                faces + face_if_exposed(old(self).data(), nb@, x as int, y as int, z as int, f),
                old(self).origin(),
                mode,
            ),
            final(self).face_count() == (faces + face_if_exposed(
                old(self).data(),
                nb@,
                x as int,
                y as int,
                z as int,
                f,
            )).len(),
            face_if_exposed(old(self).data(), nb@, x as int, y as int, z as int, f).len() <= 1,
    {
        proof {
            reveal(face_if_exposed);
        }
        if self.is_face_exposed(nb, x, y, z, f) {
            let color = match mode {
                ColorMode::FixedPerDirection => color_for_face(f),
                ColorMode::DebugRandom => color_from_index(random_color_index()),
            };
            self.generate_mesh_face_data(x, y, z, f, color, Ghost(faces), Ghost(mode));
            assert(faces + seq![(x as int, y as int, z as int, f)] =~= faces.push(
                (x as int, y as int, z as int, f),
            ));
        } else {
            assert(faces + seq![] =~= faces);
            proof {
                lemma_mesh_sizes(self.vertices@, self.indices@, faces, self.world_coordinates, mode);
            }
        }
    }

    /// Appends the visible faces of the cell at (x, y, z) to the mesh.
    fn generate_cell_faces(
        &mut self,
        nb: &ChunkNeighbors,
        x: usize,
        y: usize,
        z: usize,
        mode: ColorMode,
        Ghost(faces): Ghost<Seq<Face>>,
    )
        requires
            old(self).wf(),
            nb.wf(),
            in_chunk(x as int, y as int, z as int),
            mesh_of(old(self).vertices_view(), old(self).indices_view(), faces, old(self).origin(), mode),
            faces.len() + 6 <= 6 * MAX_VOXEL_COUNT_PER_CHUNK,
        ensures
            final(self).wf(),
            final(self).data() == old(self).data(),
            final(self).origin() == old(self).origin(),
            mesh_of(
                final(self).vertices_view(),
                final(self).indices_view(),
                faces + cell_faces(old(self).data(), nb@, x as int, y as int, z as int),
                old(self).origin(),
                mode,
            ),
            final(self).face_count() == (faces + cell_faces(
                old(self).data(),
                nb@,
                x as int,
                y as int,
                z as int,
            )).len(),
    {
        let ghost data = self.chunk_data@;
        let ghost (xi, yi, zi) = (x as int, y as int, z as int);
        if self.chunk_data[to_1d_array(x, y, z)] == 1 {
            let ghost f0 = faces;
            self.emit_if_exposed(nb, x, y, z, FaceType::Front, mode, Ghost(f0));
            let ghost f1 = f0 + face_if_exposed(data, nb@, xi, yi, zi, FaceType::Front);
            self.emit_if_exposed(nb, x, y, z, FaceType::Back, mode, Ghost(f1));
            let ghost f2 = f1 + face_if_exposed(data, nb@, xi, yi, zi, FaceType::Back);
            self.emit_if_exposed(nb, x, y, z, FaceType::Right, mode, Ghost(f2));
            let ghost f3 = f2 + face_if_exposed(data, nb@, xi, yi, zi, FaceType::Right);
            self.emit_if_exposed(nb, x, y, z, FaceType::Left, mode, Ghost(f3));
            let ghost f4 = f3 + face_if_exposed(data, nb@, xi, yi, zi, FaceType::Left);
            self.emit_if_exposed(nb, x, y, z, FaceType::Top, mode, Ghost(f4));
            let ghost f5 = f4 + face_if_exposed(data, nb@, xi, yi, zi, FaceType::Top);
            self.emit_if_exposed(nb, x, y, z, FaceType::Bottom, mode, Ghost(f5));
            let ghost f6 = f5 + face_if_exposed(data, nb@, xi, yi, zi, FaceType::Bottom);
            assert(f6 =~= faces + cell_faces(data, nb@, xi, yi, zi));
        } else {
            assert(faces + cell_faces(data, nb@, xi, yi, zi) =~= faces);
            proof {
                lemma_mesh_sizes(self.vertices@, self.indices@, faces, self.world_coordinates, mode);
            }
        }
    }

    /// Rebuilds the mesh of the chunk: one quad for every face of a solid cell
    /// that borders no solid cell, in this chunk or in a known neighbor.
    /// Returns the number of faces.
    pub fn generate_mesh(&mut self, neighbors: &ChunkNeighbors, mode: ColorMode) -> (r: u32)
        requires
            old(self).wf(),
            neighbors.wf(),
        ensures
            final(self).wf(),
            final(self).data() == old(self).data(),
            final(self).origin() == old(self).origin(),
            mesh_of(
                final(self).vertices_view(),
                final(self).indices_view(),
                chunk_faces(old(self).data(), neighbors@),
                old(self).origin(),
                mode,
            ),
            r == chunk_faces(old(self).data(), neighbors@).len(),
            final(self).face_count() == r,
            forall|m: int|
                0 <= m < final(self).indices_view().len() ==> #[trigger] final(self).indices_view()[m]
                    < final(self).vertices_view().len(),
    {
        let ghost data = self.chunk_data@;
        let ghost nb = neighbors@;
        self.vertices = Vec::new();
        self.indices = Vec::new();
        self.num_of_faces = 0;
        proof {
            reveal(mesh_of);
        }
        let mut z: usize = 0;
        while z < CHUNK_DEPTH
            invariant
                z <= CHUNK_DEPTH,
                self.wf(),
                neighbors.wf(),
                nb == neighbors@,
                self.data() == data,
                self.origin() == old(self).origin(),
                mesh_of(
                    self.vertices_view(),
                    self.indices_view(),
                    layers_faces(data, nb, z as nat),
                    self.origin(),
                    mode,
                ),
                self.face_count() == layers_faces(data, nb, z as nat).len(),
            decreases CHUNK_DEPTH - z,
        {
            let ghost done_layers = layers_faces(data, nb, z as nat);
            proof {
                lemma_layers_faces_len(data, nb, z as nat);
            }
            let mut x: usize = 0;
            while x < CHUNK_WIDTH
                invariant
                    z < CHUNK_DEPTH,
                    x <= CHUNK_WIDTH,
                    self.wf(),
                    neighbors.wf(),
                    nb == neighbors@,
                    self.data() == data,
                    self.origin() == old(self).origin(),
                    done_layers == layers_faces(data, nb, z as nat),
                    done_layers.len() <= 1536 * z,
                    mesh_of(
                        self.vertices_view(),
                        self.indices_view(),
                        done_layers + layer_faces(data, nb, z as int, x as nat),
                        self.origin(),
                        mode,
                    ),
                    self.face_count() == (done_layers + layer_faces(
                        data,
                        nb,
                        z as int,
                        x as nat,
                    )).len(),
                decreases CHUNK_WIDTH - x,
            {
                let ghost done_columns = done_layers + layer_faces(data, nb, z as int, x as nat);
                proof {
                    lemma_layer_faces_len(data, nb, z as int, x as nat);
                }
                let mut y: usize = 0;
                while y < CHUNK_HEIGHT
                    invariant
                        z < CHUNK_DEPTH,
                        x < CHUNK_WIDTH,
                        y <= CHUNK_HEIGHT,
                        self.wf(),
                        neighbors.wf(),
                        nb == neighbors@,
                        self.data() == data,
                        self.origin() == old(self).origin(),
                        done_columns == done_layers + layer_faces(data, nb, z as int, x as nat),
                        done_columns.len() <= 1536 * z + 96 * x,
                        mesh_of(
                            self.vertices_view(),
                            self.indices_view(),
                            done_columns + column_faces(data, nb, x as int, z as int, y as nat),
                            self.origin(),
                            mode,
                        ),
                        self.face_count() == (done_columns + column_faces(
                            data,
                            nb,
                            x as int,
                            z as int,
                            y as nat,
                        )).len(),
                    decreases CHUNK_HEIGHT - y,
                {
                    let ghost before = done_columns + column_faces(
                        data,
                        nb,
                        x as int,
                        z as int,
                        y as nat,
                    );
                    proof {
                        lemma_column_faces_len(data, nb, x as int, z as int, y as nat);
                    }
                    self.generate_cell_faces(neighbors, x, y, z, mode, Ghost(before));
                    proof {
                        assert(before + cell_faces(data, nb, x as int, y as int, z as int)
                            =~= done_columns + column_faces(
                            data,
                            nb,
                            x as int,
                            z as int,
                            (y + 1) as nat,
                        ));
                    }
                    y += 1;
                }
                proof {
                    assert(done_columns + column_faces(
                        data,
                        nb,
                        x as int,
                        z as int,
                        CHUNK_HEIGHT as nat,
                    ) =~= done_layers + layer_faces(data, nb, z as int, (x + 1) as nat));
                }
                x += 1;
            }
            proof {
                assert(done_layers + layer_faces(data, nb, z as int, CHUNK_WIDTH as nat)
                    =~= layers_faces(data, nb, (z + 1) as nat));
            }
            z += 1;
        }
        proof {
            lemma_indices_in_bounds(
                self.vertices@,
                self.indices@,
                layers_faces(data, nb, CHUNK_DEPTH as nat),
                self.world_coordinates,
                mode,
            );
        }
        self.num_of_faces
    }

    /// The chunk's occupancy data.
    pub fn chunk_data(&self) -> (r: &Vec<u8>)
        ensures
            r@ == self.data(),
    {
        &self.chunk_data
    }

    /// The chunk's vertex buffer.
    pub fn vertices(&self) -> (r: &Vec<Vertex>)
        ensures
            r@ == self.vertices_view(),
    {
        &self.vertices
    }

    /// The chunk's index buffer.
    pub fn indices(&self) -> (r: &Vec<u32>)
        ensures
            r@ == self.indices_view(),
    {
        &self.indices
    }

    /// The number of faces in the chunk's mesh.
    pub fn num_of_faces(&self) -> (r: u32)
        ensures
            r == self.face_count(),
    {
        self.num_of_faces
    }

    /// The chunk's world-space origin.
    pub fn world_coordinates(&self) -> (r: GridPoint)
        ensures
            r == self.origin(),
    {
        self.world_coordinates
    }
}

} // verus!
