use vstd::prelude::*;
use vstd::arithmetic::div_mod::lemma_fundamental_div_mod;
use crate::chunk::{
    chunk_faces, mesh_of, origin_in_range, ChunkMeshData, ChunkNeighbors, ColorMode, GridPoint,
    NeighborsView, MAX_VOXEL_COUNT_PER_CHUNK,
};

verus! {

/// Side of a chunk in world units, along x and along z.
pub const CHUNK_SIZE: usize = 16;

/// A neighbor in the grid of chunks: left is -x, right is +x,
/// top is the previous row (-z), bottom is the next row (+z).
#[derive(Clone, Copy, Debug, PartialEq, Eq, Hash, Structural)]
pub enum Direction {
    Left,
    Right,
    Top,
    Bottom,
}

/// The index, in a grid of chunks `width` chunks wide stored row by row,
/// of the chunk that holds world point (x, z).
pub open spec fn chunk_index(x: int, z: int, width: int) -> int {
    (z / 16) * width + x / 16
}

/// The world-space x of the origin of chunk `index`.
pub open spec fn chunk_origin_x(index: int, width: int) -> int {
    (index % width) * 16
}

/// The world-space z of the origin of chunk `index`.
pub open spec fn chunk_origin_z(index: int, width: int) -> int {
    (index / width) * 16
}

/// A grid of `width` by `depth` chunks whose world coordinates fit in `usize`.
pub open spec fn grid_ok(width: int, depth: int) -> bool {
    &&& width > 0
    &&& depth > 0
    &&& width * 16 < usize::MAX
    &&& depth * 16 < usize::MAX
    &&& width * depth <= usize::MAX
}

/// The index of the neighbor of chunk `index` in direction `dir`,
/// or `None` at the grid's edge.
pub open spec fn neighbor_index(index: int, width: int, depth: int, dir: Direction) -> Option<int> {
    match dir {
        Direction::Left => if index % width == 0 {
            None
        } else {
            Some(index - 1)
        },
        Direction::Right => if index % width + 1 == width {
            None
        } else {
            Some(index + 1)
        },
        Direction::Top => if index < width {
            None
        } else {
            Some(index - width)
        },
        Direction::Bottom => if index / width + 1 >= depth {
            None
        } else {
            Some(index + width)
        },
    }
}

/// Index of the chunk that holds world point (x, z).
pub fn coords_to_index(x: usize, z: usize, width: usize) -> (r: usize)
    requires
        chunk_index(x as int, z as int, width as int) <= usize::MAX,
    ensures
        r == chunk_index(x as int, z as int, width as int),
{
    z / CHUNK_SIZE * width + x / CHUNK_SIZE
}

/// World-space (x, z) of the origin of chunk `index`.
pub fn index_to_coords(index: usize, width: usize) -> (r: (usize, usize))
    requires
        width > 0,
        chunk_origin_x(index as int, width as int) <= usize::MAX,
        chunk_origin_z(index as int, width as int) <= usize::MAX,
    ensures
        r.0 == chunk_origin_x(index as int, width as int),
        r.1 == chunk_origin_z(index as int, width as int),
{
    let x = (index % width) * CHUNK_SIZE;
    let z = (index / width) * CHUNK_SIZE;
    (x, z)
}

proof fn lemma_grid_point(index: int, width: int, depth: int)
    requires
        grid_ok(width, depth),
        0 <= index < width * depth,
    ensures
        0 <= index % width < width,
        0 <= index / width < depth,
        (index / width) * width + index % width == index,
        chunk_origin_x(index, width) + 16 <= width * 16,
        chunk_origin_z(index, width) + 16 <= depth * 16,
        (index < width) == (index / width == 0),
        (index / width) * width + width <= width * depth,
{
    lemma_fundamental_div_mod(index, width);
    assert(0 <= index % width < width) by (nonlinear_arith)
        requires
            width > 0,
            index >= 0,
    ;
    assert(0 <= index / width < depth) by (nonlinear_arith)
        requires
            width > 0,
            0 <= index < width * depth,
            (index / width) * width + index % width == index,
            0 <= index % width,
    ;
    assert((index < width) == (index / width == 0)) by (nonlinear_arith)
        requires
            width > 0,
            index >= 0,
            (index / width) * width + index % width == index,
            0 <= index % width < width,
            0 <= index / width,
    ;
    assert((index / width) * width + width <= width * depth) by (nonlinear_arith)
        requires
            width > 0,
            0 <= index / width < depth,
    ;
}

/// The neighbor of chunk `index` in direction `dir`, in a grid of `width`
/// by `depth` chunks; `None` where that neighbor would be off the grid.
pub fn get_chunk(index: usize, width: usize, depth: usize, dir: Direction) -> (r: Option<usize>)
    requires
        grid_ok(width as int, depth as int),
        index < width * depth,
    ensures
        r == match neighbor_index(index as int, width as int, depth as int, dir) {
            Some(j) => Some(j as usize),
            None => None::<usize>,
        },
        r matches Some(j) ==> j < width * depth,
{
    proof {
        lemma_grid_point(index as int, width as int, depth as int);
    }
    let (x, z) = index_to_coords(index, width);
    let ghost q = index as int / width as int;
    let ghost m = index as int % width as int;
    assert(x / 16 == m);
    assert(z / 16 == q);
    match dir {
        Direction::Left => {
            if x < CHUNK_SIZE {
                None
            } else {
                assert((x - 16) / 16 == m - 1);
                Some(coords_to_index(x - CHUNK_SIZE, z, width))
            }
        },
        Direction::Right => {
            if x + CHUNK_SIZE >= width * CHUNK_SIZE {
                None
            } else {
                assert((x + 16) / 16 == m + 1);
                Some(coords_to_index(x + CHUNK_SIZE, z, width))
            }
        },
        Direction::Top => {
            if z < CHUNK_SIZE {
                None
            } else {
                assert((z - 16) / 16 == q - 1);
                assert((q - 1) * width == q * width - width) by (nonlinear_arith);
                Some(coords_to_index(x, z - CHUNK_SIZE, width))
            }
        },
        Direction::Bottom => {
            if z + CHUNK_SIZE >= depth * CHUNK_SIZE {
                None
            } else {
                assert((z + 16) / 16 == q + 1);
                assert((q + 1) * width == q * width + width) by (nonlinear_arith);
                assert(q * width + width + m < width * depth) by (nonlinear_arith)
                    requires
                        q + 2 <= depth,
                        0 <= m < width,
                ;
                Some(coords_to_index(x, z + CHUNK_SIZE, width))
            }
        },
    }
}


/// The occupancy data of a solid chunk.
pub open spec fn solid_data() -> Seq<u8> {
    Seq::new(MAX_VOXEL_COUNT_PER_CHUNK as nat, |i: int| 1u8)
}

pub open spec fn solid_if_present(n: Option<int>) -> Option<Seq<u8>> {
    match n {
        Some(_) => Some(solid_data()),
        None => None,
    }
}

/// What a chunk of a solid grid sees of its neighbors: a solid chunk on every
/// side that the grid has.
pub open spec fn grid_neighbors(index: int, width: int, depth: int) -> NeighborsView {
    NeighborsView {
        left: solid_if_present(neighbor_index(index, width, depth, Direction::Left)),
        right: solid_if_present(neighbor_index(index, width, depth, Direction::Right)),
        back: solid_if_present(neighbor_index(index, width, depth, Direction::Top)),
        front: solid_if_present(neighbor_index(index, width, depth, Direction::Bottom)),
    }
}

/// The world-space origin of chunk `index` of a grid `width` chunks wide.
pub open spec fn chunk_origin(index: int, width: int) -> GridPoint {
    GridPoint {
        x: chunk_origin_x(index, width) as usize,
        y: 0,
        z: chunk_origin_z(index, width) as usize,
    }
}

/// Chunk `index` of a solid grid, placed and meshed.
pub open spec fn chunk_built(
    c: ChunkMeshData,
    index: int,
    width: int,
    depth: int,
    mode: ColorMode,
) -> bool {
    let faces = chunk_faces(solid_data(), grid_neighbors(index, width, depth));
    &&& c.wf()
    &&& c.origin() == chunk_origin(index, width)
    &&& c.data() == solid_data()
    &&& mesh_of(c.vertices_view(), c.indices_view(), faces, c.origin(), mode)
    &&& c.face_count() == faces.len()
}

/// A copy of the occupancy data of chunk `j`, if there is one.
fn neighbor_data(chunks: &Vec<ChunkMeshData>, j: Option<usize>) -> (r: Option<Vec<u8>>)
    requires
        j matches Some(k) ==> k < chunks@.len() && chunks@[k as int].data() == solid_data(),
    ensures
        match j {
            Some(_) => r matches Some(v) && v@ == solid_data(),
            None => r is None,
        },
{
    match j {
        Some(k) => {
            let v = chunks[k].chunk_data().clone();
            assert(v@ =~= solid_data());
            Some(v)
        },
        None => None,
    }
}

/// Builds a grid of `width` by `depth` solid chunks, row by row, and meshes
/// each one, hiding the faces that touch a neighboring chunk.
pub fn generate_chunks(width: usize, depth: usize, mode: ColorMode) -> (r: Vec<ChunkMeshData>)
    requires
        grid_ok(width as int, depth as int),
    ensures
        r@.len() == width * depth,
        forall|i: int|
            0 <= i < r@.len() ==> #[trigger] chunk_built(
                r@[i],
                i,
                width as int,
                depth as int,
                mode,
            ),
{
    let n = width * depth;
    let mut chunks: Vec<ChunkMeshData> = Vec::new();
    let mut i: usize = 0;
    while i < n
        invariant
            grid_ok(width as int, depth as int),
            n == width * depth,
            i <= n,
            chunks@.len() == i,
            forall|j: int|
                0 <= j < i ==> {
                    &&& (#[trigger] chunks@[j]).wf()
                    &&& chunks@[j].origin() == chunk_origin(j, width as int)
                    &&& chunks@[j].data() == solid_data()
                },
        decreases n - i,
    {
        proof {
            lemma_grid_point(i as int, width as int, depth as int);
        }
        let (x, z) = index_to_coords(i, width);
        let origin = GridPoint::new(x, 0, z);
        assert(origin_in_range(origin));
        let mut chunk = ChunkMeshData::new(origin);
        chunk.generate_data();
        assert(chunk.data() =~= solid_data());
        chunks.push(chunk);
        i += 1;
    }
    let mut i: usize = 0;
    while i < n
        invariant
            grid_ok(width as int, depth as int),
            n == width * depth,
            i <= n,
            chunks@.len() == n,
            forall|j: int|
                0 <= j < n ==> {
                    &&& (#[trigger] chunks@[j]).wf()
                    &&& chunks@[j].origin() == chunk_origin(j, width as int)
                    &&& chunks@[j].data() == solid_data()
                },
            forall|j: int|
                0 <= j < i ==> #[trigger] chunk_built(
                    chunks@[j],
                    j,
                    width as int,
                    depth as int,
                    mode,
                ),
        decreases n - i,
    {
        let left = get_chunk(i, width, depth, Direction::Left);
        let right = get_chunk(i, width, depth, Direction::Right);
        let top = get_chunk(i, width, depth, Direction::Top);
        let bottom = get_chunk(i, width, depth, Direction::Bottom);
        let neighbors = ChunkNeighbors {
            left: neighbor_data(&chunks, left),
            right: neighbor_data(&chunks, right),
            back: neighbor_data(&chunks, top),
            front: neighbor_data(&chunks, bottom),
        };
        assert(neighbors@ == grid_neighbors(i as int, width as int, depth as int));
        chunks[i].generate_mesh(&neighbors, mode);
        i += 1;
    }
    chunks
}

} // verus!
