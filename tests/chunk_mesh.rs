use std::collections::HashSet;

use voxel_world::chunk::{
    color_for_face, color_from_index, generate_index_for_face, generate_voxel_face, to_1d_array,
    ChunkMeshData, ChunkNeighbors, Color, ColorMode, FaceType, GridPoint, Vertex,
    MAX_VOXEL_COUNT_PER_CHUNK,
};

fn solid_chunk(origin: GridPoint) -> ChunkMeshData {
    let mut chunk = ChunkMeshData::new(origin);
    chunk.generate_data();
    chunk
}

fn face_of_color(c: Color) -> FaceType {
    match c {
        Color::Green => FaceType::Front,
        Color::Cyan => FaceType::Back,
        Color::Orange => FaceType::Right,
        Color::Purple => FaceType::Left,
        Color::White => FaceType::Top,
        Color::Black => FaceType::Bottom,
    }
}

fn normal_of(f: FaceType) -> (i64, i64, i64) {
    match f {
        FaceType::Front => (0, 0, 1),
        FaceType::Back => (0, 0, -1),
        FaceType::Right => (1, 0, 0),
        FaceType::Left => (-1, 0, 0),
        FaceType::Top => (0, 1, 0),
        FaceType::Bottom => (0, -1, 0),
    }
}

fn pos(v: &Vertex) -> (i64, i64, i64) {
    (v.position.x as i64, v.position.y as i64, v.position.z as i64)
}

fn triangle_normal(a: (i64, i64, i64), b: (i64, i64, i64), c: (i64, i64, i64)) -> (i64, i64, i64) {
    let u = (b.0 - a.0, b.1 - a.1, b.2 - a.2);
    let w = (c.0 - a.0, c.1 - a.1, c.2 - a.2);
    (u.1 * w.2 - u.2 * w.1, u.2 * w.0 - u.0 * w.2, u.0 * w.1 - u.1 * w.0)
}

#[test]
fn solid_16_chunk_has_1536_faces() {
    let mut chunk = solid_chunk(GridPoint::new(0, 0, 0));
    let faces = chunk.generate_mesh(&ChunkNeighbors::none(), ColorMode::FixedPerDirection);
    assert_eq!(faces, 2 * (16 * 16 + 16 * 16 + 16 * 16));
    assert_eq!(faces, 1536);
    assert_eq!(chunk.num_of_faces(), 1536);
    assert_eq!(chunk.vertices().len(), 6144);
    assert_eq!(chunk.indices().len(), 9216);
}

#[test]
fn every_index_points_at_a_vertex() {
    let mut chunk = solid_chunk(GridPoint::new(16, 0, 32));
    let faces = chunk.generate_mesh(&ChunkNeighbors::none(), ColorMode::FixedPerDirection);
    assert_eq!(chunk.indices().len(), 6 * faces as usize);
    assert_eq!(chunk.vertices().len(), 4 * faces as usize);
    for &i in chunk.indices() {
        assert!((i as usize) < chunk.vertices().len());
    }
}

#[test]
fn solid_chunk_has_no_duplicate_faces() {
    let mut chunk = solid_chunk(GridPoint::new(0, 0, 0));
    chunk.generate_mesh(&ChunkNeighbors::none(), ColorMode::FixedPerDirection);
    let v = chunk.vertices();
    let mut seen = HashSet::new();
    for q in 0..v.len() / 4 {
        let mut corners: Vec<(i64, i64, i64)> = (0..4).map(|k| pos(&v[4 * q + k])).collect();
        corners.sort();
        assert!(seen.insert((corners, v[4 * q].color)));
    }
    assert_eq!(seen.len(), 1536);
}

#[test]
fn triangles_face_outward() {
    let mut chunk = solid_chunk(GridPoint::new(0, 0, 16));
    chunk.generate_mesh(&ChunkNeighbors::none(), ColorMode::FixedPerDirection);
    let v = chunk.vertices();
    let ind = chunk.indices();
    for q in 0..ind.len() / 6 {
        let p = |m: usize| pos(&v[ind[6 * q + m] as usize]);
        let expected = normal_of(face_of_color(v[ind[6 * q] as usize].color));
        assert_eq!(triangle_normal(p(0), p(1), p(2)), expected);
        assert_eq!(triangle_normal(p(3), p(4), p(5)), expected);
    }
}

#[test]
fn top_face_normal_points_up() {
    let f = generate_voxel_face(0, 0, 0, &GridPoint::new(0, 0, 0), FaceType::Top, Color::White);
    let idx = generate_index_for_face(0);
    let p = |m: usize| pos(&f[idx[m] as usize]);
    assert_eq!(triangle_normal(p(0), p(1), p(2)), (0, 1, 0));
    assert_eq!(triangle_normal(p(3), p(4), p(5)), (0, 1, 0));
}

#[test]
fn set_then_get_touches_one_cell() {
    let mut chunk = ChunkMeshData::new(GridPoint::new(0, 0, 0));
    chunk.set(3, 5, 7, 1);
    assert_eq!(chunk.get(3, 5, 7), 1);
    let mut ones = 0;
    for x in 0..16 {
        for y in 0..16 {
            for z in 0..16 {
                if chunk.get(x, y, z) == 1 {
                    ones += 1;
                    assert_eq!((x, y, z), (3, 5, 7));
                }
            }
        }
    }
    assert_eq!(ones, 1);
}

#[test]
fn flattening_is_one_to_one() {
    let mut seen = HashSet::new();
    for x in 0..16 {
        for y in 0..16 {
            for z in 0..16 {
                let i = to_1d_array(x, y, z);
                assert!(i < MAX_VOXEL_COUNT_PER_CHUNK);
                assert!(seen.insert(i));
            }
        }
    }
    assert_eq!(seen.len(), 4096);
    assert_eq!(to_1d_array(1, 2, 3), 2 + 16 + 3 * 256);
}

#[test]
fn new_chunk_is_empty() {
    let mut chunk = ChunkMeshData::new(GridPoint::new(0, 0, 0));
    assert_eq!(chunk.chunk_data().len(), MAX_VOXEL_COUNT_PER_CHUNK);
    assert!(chunk.chunk_data().iter().all(|&c| c == 0));
    assert_eq!(chunk.generate_mesh(&ChunkNeighbors::none(), ColorMode::FixedPerDirection), 0);
    assert!(chunk.vertices().is_empty());
    assert!(chunk.indices().is_empty());
}

#[test]
fn single_voxel_has_six_faces() {
    let mut chunk = ChunkMeshData::new(GridPoint::new(32, 0, 48));
    chunk.set(2, 3, 4, 1);
    assert_eq!(chunk.generate_mesh(&ChunkNeighbors::none(), ColorMode::FixedPerDirection), 6);
    let v = chunk.vertices();
    // Front face of the cell at world (34, 3, 52).
    assert_eq!(pos(&v[0]), (34, 3, 53));
    assert_eq!(pos(&v[1]), (35, 3, 53));
    assert_eq!(pos(&v[2]), (34, 4, 53));
    assert_eq!(pos(&v[3]), (35, 4, 53));
    assert_eq!(v[0].color, Color::Green);
    let colors: Vec<Color> = (0..6).map(|q| v[4 * q].color).collect();
    assert_eq!(
        colors,
        vec![Color::Green, Color::Cyan, Color::Orange, Color::Purple, Color::White, Color::Black]
    );
    assert_eq!(chunk.indices()[6..12].to_vec(), vec![4, 5, 7, 7, 6, 4]);
}

#[test]
fn touching_voxels_hide_their_shared_faces() {
    let mut chunk = ChunkMeshData::new(GridPoint::new(0, 0, 0));
    chunk.set(5, 5, 5, 1);
    chunk.set(6, 5, 5, 1);
    assert_eq!(chunk.generate_mesh(&ChunkNeighbors::none(), ColorMode::FixedPerDirection), 10);
}

#[test]
fn solid_left_neighbor_hides_the_left_side() {
    let mut chunk = solid_chunk(GridPoint::new(16, 0, 0));
    let left = solid_chunk(GridPoint::new(0, 0, 0));
    let neighbors = ChunkNeighbors {
        left: Some(left.chunk_data().clone()),
        right: None,
        back: None,
        front: None,
    };
    assert_eq!(chunk.generate_mesh(&neighbors, ColorMode::FixedPerDirection), 1536 - 256);
}

#[test]
fn empty_neighbors_hide_nothing() {
    let mut chunk = solid_chunk(GridPoint::new(0, 0, 0));
    let empty = ChunkMeshData::new(GridPoint::new(0, 0, 0));
    let neighbors = ChunkNeighbors {
        left: Some(empty.chunk_data().clone()),
        right: Some(empty.chunk_data().clone()),
        back: Some(empty.chunk_data().clone()),
        front: Some(empty.chunk_data().clone()),
    };
    assert_eq!(chunk.generate_mesh(&neighbors, ColorMode::FixedPerDirection), 1536);
}

#[test]
fn all_four_solid_neighbors_leave_top_and_bottom() {
    let mut chunk = solid_chunk(GridPoint::new(0, 0, 0));
    let other = solid_chunk(GridPoint::new(0, 0, 0));
    let neighbors = ChunkNeighbors {
        left: Some(other.chunk_data().clone()),
        right: Some(other.chunk_data().clone()),
        back: Some(other.chunk_data().clone()),
        front: Some(other.chunk_data().clone()),
    };
    assert_eq!(chunk.generate_mesh(&neighbors, ColorMode::FixedPerDirection), 512);
}

#[test]
fn meshing_twice_rebuilds_the_same_mesh() {
    let mut chunk = solid_chunk(GridPoint::new(0, 0, 0));
    let first = chunk.generate_mesh(&ChunkNeighbors::none(), ColorMode::FixedPerDirection);
    let v1 = chunk.vertices().clone();
    let second = chunk.generate_mesh(&ChunkNeighbors::none(), ColorMode::FixedPerDirection);
    assert_eq!(first, second);
    assert_eq!(&v1, chunk.vertices());
}

#[test]
fn random_colors_keep_geometry_and_paint_whole_faces() {
    let mut fixed = solid_chunk(GridPoint::new(0, 0, 0));
    let mut random = solid_chunk(GridPoint::new(0, 0, 0));
    fixed.generate_mesh(&ChunkNeighbors::none(), ColorMode::FixedPerDirection);
    random.generate_mesh(&ChunkNeighbors::none(), ColorMode::DebugRandom);
    assert_eq!(fixed.indices(), random.indices());
    let (a, b) = (fixed.vertices(), random.vertices());
    assert_eq!(a.len(), b.len());
    for q in 0..a.len() / 4 {
        for k in 0..4 {
            assert_eq!(a[4 * q + k].position, b[4 * q + k].position);
            assert_eq!(b[4 * q + k].color, b[4 * q].color);
        }
    }
    let distinct: HashSet<String> = b.iter().map(|v| format!("{:?}", v.color)).collect();
    assert!(distinct.len() > 1);
}

#[test]
fn index_pattern_of_third_face() {
    assert_eq!(generate_index_for_face(2), [8, 9, 11, 11, 10, 8]);
    assert_eq!(generate_index_for_face(0), [0, 1, 3, 3, 2, 0]);
}

#[test]
fn face_corner_tables() {
    let o = GridPoint::new(10, 0, 20);
    let p = |f: FaceType| -> Vec<(i64, i64, i64)> {
        generate_voxel_face(1, 2, 3, &o, f, Color::Black).iter().map(pos).collect()
    };
    assert_eq!(p(FaceType::Front), vec![(11, 2, 24), (12, 2, 24), (11, 3, 24), (12, 3, 24)]);
    assert_eq!(p(FaceType::Back), vec![(12, 2, 23), (11, 2, 23), (12, 3, 23), (11, 3, 23)]);
    assert_eq!(p(FaceType::Right), vec![(12, 2, 24), (12, 2, 23), (12, 3, 24), (12, 3, 23)]);
    assert_eq!(p(FaceType::Left), vec![(11, 2, 23), (11, 2, 24), (11, 3, 23), (11, 3, 24)]);
    assert_eq!(p(FaceType::Bottom), vec![(11, 2, 23), (12, 2, 23), (11, 2, 24), (12, 2, 24)]);
    assert_eq!(p(FaceType::Top), vec![(11, 3, 24), (12, 3, 24), (11, 3, 23), (12, 3, 23)]);
}

#[test]
fn colors_by_direction_and_by_number() {
    assert_eq!(color_for_face(FaceType::Front), Color::Green);
    assert_eq!(color_for_face(FaceType::Back), Color::Cyan);
    assert_eq!(color_for_face(FaceType::Right), Color::Orange);
    assert_eq!(color_for_face(FaceType::Left), Color::Purple);
    assert_eq!(color_for_face(FaceType::Top), Color::White);
    assert_eq!(color_for_face(FaceType::Bottom), Color::Black);
    assert_eq!(color_from_index(0), Color::Green);
    assert_eq!(color_from_index(4), Color::Black);
    assert_eq!(color_from_index(5), Color::White);
}
