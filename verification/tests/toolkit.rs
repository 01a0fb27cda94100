//! Tests for the wireframe index generator, chunk addressing, and the noise
//! generator.

use vibesurfer::chunks::ChunkId;
use vibesurfer::noise::NoiseGenerator;
use vibesurfer::wireframe::generate_grid_indices;

#[test]
fn test_generate_grid_indices_two_by_two() {
    // A 2x2 vertex grid: two horizontal segments, then two vertical ones.
    let indices = generate_grid_indices(2);
    assert_eq!(indices, vec![0, 1, 2, 3, 0, 2, 1, 3]);
}

#[test]
fn test_generate_grid_indices_three_by_three() {
    let indices = generate_grid_indices(3);
    assert_eq!(indices.len(), 4 * 3 * 2);
    // Horizontal segments, row by row.
    assert_eq!(
        &indices[..12],
        &[0, 1, 1, 2, 3, 4, 4, 5, 6, 7, 7, 8]
    );
    // Vertical segments, row by row.
    assert_eq!(
        &indices[12..],
        &[0, 3, 1, 4, 2, 5, 3, 6, 4, 7, 5, 8]
    );
}

#[test]
fn test_chunk_neighbors() {
    let id = ChunkId { lat_cell: 2, lon_cell: -3 };
    let neighbors = id.neighbors();
    assert_eq!(neighbors.len(), 9);
    assert_eq!(neighbors[0], ChunkId { lat_cell: 1, lon_cell: -4 });
    assert_eq!(neighbors[4], id);
    assert_eq!(neighbors[8], ChunkId { lat_cell: 3, lon_cell: -2 });
    for (k, n) in neighbors.iter().enumerate() {
        assert_eq!(n.lat_cell, id.lat_cell + (k as i32 / 3) - 1);
        assert_eq!(n.lon_cell, id.lon_cell + (k as i32 % 3) - 1);
    }
}

#[test]
fn test_noise_is_deterministic() {
    let a = NoiseGenerator::new(42);
    let b = NoiseGenerator::new(42);
    let mut x: i64 = -5_000_000;
    while x < 5_000_000 {
        assert_eq!(a.sample_3d(x, 0, x / 3), b.sample_3d(x, 0, x / 3));
        x += 777_777;
    }
}

#[test]
fn test_noise_stays_in_range() {
    let gen = NoiseGenerator::new(7);
    let mut x: i64 = -2_000_000;
    let mut seen_nonzero = false;
    while x < 2_000_000 {
        let v = gen.sample_3d(x, x / 2, -x);
        assert!((-1000..=1000).contains(&v));
        if v != 0 {
            seen_nonzero = true;
        }
        x += 99_991;
    }
    assert!(seen_nonzero);
}
