use voxel_world::chunk::{ColorMode, GridPoint};
use voxel_world::world::{coords_to_index, generate_chunks, get_chunk, index_to_coords, Direction};

#[test]
fn coords_and_indices() {
    assert_eq!(coords_to_index(0, 0, 4), 0);
    assert_eq!(coords_to_index(17, 0, 4), 1);
    assert_eq!(coords_to_index(63, 15, 4), 3);
    assert_eq!(coords_to_index(20, 40, 4), 2 * 4 + 1);
    assert_eq!(index_to_coords(0, 4), (0, 0));
    assert_eq!(index_to_coords(3, 4), (48, 0));
    assert_eq!(index_to_coords(9, 4), (16, 32));
}

#[test]
fn neighbors_in_a_grid() {
    // A grid 4 chunks wide and 3 deep.
    assert_eq!(get_chunk(0, 4, 3, Direction::Left), None);
    assert_eq!(get_chunk(1, 4, 3, Direction::Left), Some(0));
    assert_eq!(get_chunk(4, 4, 3, Direction::Left), None);
    assert_eq!(get_chunk(3, 4, 3, Direction::Right), None);
    assert_eq!(get_chunk(2, 4, 3, Direction::Right), Some(3));
    assert_eq!(get_chunk(2, 4, 3, Direction::Top), None);
    assert_eq!(get_chunk(6, 4, 3, Direction::Top), Some(2));
    assert_eq!(get_chunk(6, 4, 3, Direction::Bottom), Some(10));
    assert_eq!(get_chunk(10, 4, 3, Direction::Bottom), None);
}

#[test]
fn row_of_four_solid_chunks() {
    let chunks = generate_chunks(4, 1, ColorMode::FixedPerDirection);
    assert_eq!(chunks.len(), 4);
    let counts: Vec<u32> = chunks.iter().map(|c| c.num_of_faces()).collect();
    assert_eq!(counts, vec![1536 - 256, 1536 - 512, 1536 - 512, 1536 - 256]);
    for (i, c) in chunks.iter().enumerate() {
        assert_eq!(c.world_coordinates(), GridPoint::new(16 * i, 0, 0));
        assert!(c.chunk_data().iter().all(|&v| v == 1));
    }
}

#[test]
fn two_by_two_grid_hides_inner_sides() {
    let chunks = generate_chunks(2, 2, ColorMode::FixedPerDirection);
    assert_eq!(chunks.len(), 4);
    for c in &chunks {
        assert_eq!(c.num_of_faces(), 1536 - 512);
    }
    assert_eq!(chunks[3].world_coordinates(), GridPoint::new(16, 0, 16));
}
