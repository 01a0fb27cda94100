//! Tests for the ocean grid, the tick update, the triangle filter, and the
//! audio-reactive parameter mapping.

use vibesurfer::mesh::{OceanGrid, Vec3Milli};
use vibesurfer::params::{AudioReactiveMapping, OceanPhysics};
use vibesurfer::system::{AudioBands, OceanSystem};

/// A small grid with extent 100 m (half = 50 m): 100 cells of 1 m.
fn small_physics() -> OceanPhysics {
    OceanPhysics {
        grid_size: 100,
        grid_spacing_m: 1000,
        wave_speed: 500,
        base_terrain_amplitude_m: 100_000,
        base_terrain_frequency: 3,
        detail_amplitude_m: 2000,
        detail_frequency: 100,
        base_line_width: 20,
        noise_seed: 42,
    }
}

#[test]
fn ocean_test_ocean_grid_creation() {
    let physics = OceanPhysics::default();
    let grid = OceanGrid::new(&physics);

    // Vertex count: (grid_size + 1)^2.
    assert_eq!(grid.vertices.len(), (physics.grid_size + 1).pow(2));

    // Triangle count: grid_size^2 cells * 2 triangles * 3 indices.
    assert_eq!(grid.indices.len(), physics.grid_size.pow(2) * 6);
}

#[test]
fn mod_test_ocean_grid_creation() {
    let physics = OceanPhysics::default();
    let grid = OceanGrid::new(&physics);

    assert_eq!(grid.vertices.len(), (physics.grid_size + 1).pow(2));
    assert_eq!(grid.indices.len(), physics.grid_size.pow(2) * 6);
}

#[test]
fn ocean_test_audio_reactive_mapping() {
    let physics = OceanPhysics::default();
    let mapping = AudioReactiveMapping::default();
    let mut ocean = OceanSystem::new(physics, mapping);

    let bands = AudioBands { low: 1000, mid: 500, high: 200 };

    let (amplitude, frequency, line_width) = ocean.update(
        0,
        &bands,
        Vec3Milli { x: 0, y: 0, z: 0 },
    );

    // Audio modulation is applied on top of every base parameter.
    assert!(amplitude > ocean.physics.detail_amplitude_m);
    assert!(frequency > ocean.physics.detail_frequency);
    assert!(line_width > ocean.physics.base_line_width);
}

#[test]
fn system_test_audio_reactive_mapping() {
    let physics = OceanPhysics::default();
    let mapping = AudioReactiveMapping::default();
    let mut ocean = OceanSystem::new(physics, mapping);

    let bands = AudioBands { low: 1000, mid: 500, high: 200 };

    let (amplitude, frequency, line_width) = ocean.update(
        0,
        &bands,
        Vec3Milli { x: 0, y: 0, z: 0 },
    );

    assert!(amplitude > ocean.physics.detail_amplitude_m);
    assert!(frequency > ocean.physics.detail_frequency);
    assert!(line_width > ocean.physics.base_line_width);
}

#[test]
fn test_default_mapping_exact_values() {
    // Default gains (3.0, 0.15, 0.03) on bands (1.0, 0.5, 0.2) over base
    // detail parameters (2.0, 0.1, 0.02) give exactly (5.0, 0.175, 0.026).
    let physics = OceanPhysics::default();
    let mapping = AudioReactiveMapping::default();
    let mut ocean = OceanSystem::new(physics, mapping);

    let bands = AudioBands { low: 1000, mid: 500, high: 200 };
    let (amplitude, frequency, line_width) = ocean.update(
        0,
        &bands,
        Vec3Milli { x: 0, y: 0, z: 0 },
    );

    assert_eq!(amplitude, 5000);
    assert_eq!(frequency, 175);
    assert_eq!(line_width, 26);
}

#[test]
fn test_small_grid_index_content() {
    let mut physics = small_physics();
    physics.grid_size = 1;
    physics.grid_spacing_m = 2000;
    let grid = OceanGrid::new(&physics);
    assert_eq!(grid.vertices.len(), 4);
    assert_eq!(grid.indices, vec![0, 2, 1, 1, 2, 3]);
    assert_eq!(grid.filtered_indices, grid.indices);
}

#[test]
fn test_update_wraps_all_locals_into_window() {
    let physics = small_physics();
    let half = (physics.grid_size as i64) * physics.grid_spacing_m / 2;
    let mut grid = OceanGrid::new(&physics);

    // A large, odd camera move on both axes.
    grid.update(1000, 2000, 100, Vec3Milli { x: 37_777, y: 0, z: -91_003 }, &physics);

    for v in &grid.vertices {
        assert!(-half <= v.position.x && v.position.x < half);
        assert!(-half <= v.position.z && v.position.z < half);
    }
}

#[test]
fn test_filtered_triangles_have_short_edges() {
    let physics = small_physics();
    let mut grid = OceanGrid::new(&physics);

    // A move of a fraction of the extent wraps one band of vertices.
    grid.update(1000, 2000, 100, Vec3Milli { x: 13_000, y: 0, z: 7_000 }, &physics);

    let max_edge_sq = {
        let m = 10 * physics.grid_spacing_m as i128;
        m * m
    };
    assert_eq!(grid.filtered_indices.len() % 3, 0);
    // Some triangles must have been dropped at the wrap seam.
    assert!(grid.filtered_indices.len() < grid.indices.len());
    let mut t = 0;
    while t < grid.filtered_indices.len() {
        let a = grid.vertices[grid.filtered_indices[t] as usize].position;
        let b = grid.vertices[grid.filtered_indices[t + 1] as usize].position;
        let c = grid.vertices[grid.filtered_indices[t + 2] as usize].position;
        for (p, q) in [(a, b), (b, c), (c, a)] {
            let dx = (p.x - q.x) as i128;
            let dy = (p.y - q.y) as i128;
            let dz = (p.z - q.z) as i128;
            assert!(dx * dx + dy * dy + dz * dz <= max_edge_sq);
        }
        t += 3;
    }
}

#[test]
fn test_cache_reused_when_camera_still() {
    let physics = small_physics();
    let mut grid = OceanGrid::new(&physics);
    let camera = Vec3Milli { x: 5_000, y: 0, z: 3_000 };

    // First tick: every cache entry is dirty and gets computed.
    grid.update(1000, 2000, 100, camera, &physics);
    let heights_before = grid.base_terrain_heights.clone();

    // Second tick with zero camera delta and the same time: the base
    // terrain cache is reused untouched.
    grid.update(1000, 2000, 100, camera, &physics);
    assert_eq!(grid.base_terrain_heights, heights_before);
}

#[test]
fn test_wrap_scenario_end_to_end() {
    // Grid extent 100 m, half = 50 m, 1 m spacing.
    let physics = small_physics();
    let mut grid = OceanGrid::new(&physics);

    // Clear all dirty flags with a zero-delta tick.
    grid.update(0, 2000, 100, Vec3Milli { x: 0, y: 0, z: 0 }, &physics);

    // Row 50 sits at local z = 0; columns 95 and 2 sit at x = 45 and -48.
    let cols = physics.grid_size + 1;
    let idx_45 = 50 * cols + 95;
    let idx_minus_48 = 50 * cols + 2;
    assert_eq!(grid.vertices[idx_45].position.x, 45_000);
    assert_eq!(grid.vertices[idx_minus_48].position.x, -48_000);
    let h_45 = grid.base_terrain_heights[idx_45];
    let h_minus_48 = grid.base_terrain_heights[idx_minus_48];

    // Camera delta +10 m on x.
    let camera = Vec3Milli { x: 10_000, y: 0, z: 0 };
    grid.update(0, 2000, 100, camera, &physics);

    // 45 slides to 35 with no wrap: its cached base height survives.
    assert_eq!(grid.vertices[idx_45].position.x, 35_000);
    assert_eq!(grid.base_terrain_heights[idx_45], h_45);

    // -48 slides to -58, which wraps to -58 + 100 = 42: it now stands for
    // a different physical location, so its base height was recomputed
    // from the world position, bypassing the stale cache.
    assert_eq!(grid.vertices[idx_minus_48].position.x, 42_000);
    let world_x = camera.x + grid.vertices[idx_minus_48].position.x;
    let world_z = camera.z + grid.vertices[idx_minus_48].position.z;
    assert_eq!(
        grid.base_terrain_heights[idx_minus_48],
        grid.query_base_terrain(world_x, world_z, &physics)
    );
    let _ = h_minus_48;
}

#[test]
fn test_query_base_terrain_stable_and_bounded() {
    let physics = small_physics();
    let grid = OceanGrid::new(&physics);
    let a = grid.query_base_terrain(123_456, -654_321, &physics);
    let b = grid.query_base_terrain(123_456, -654_321, &physics);
    assert_eq!(a, b);
    assert!(a.abs() <= physics.base_terrain_amplitude_m);
}

#[test]
fn test_audio_bands_default_is_silence() {
    let bands = AudioBands::default();
    assert_eq!(bands, AudioBands { low: 0, mid: 0, high: 0 });
}
