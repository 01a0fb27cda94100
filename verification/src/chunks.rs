//! Spherical terrain chunk addressing.
//!
//! A chunk is one cell of a latitude/longitude grid over the planet
//! surface; streaming keeps the chunk under the camera and its ring of
//! neighbors resident.

use vstd::prelude::*;

verus! {

/// One cell of the latitude/longitude chunk grid.
#[derive(Debug, Hash, Eq, PartialEq, Copy, Clone, Structural)]
pub struct ChunkId {
    /// Latitude cell index.
    pub lat_cell: i32,
    /// Longitude cell index.
    pub lon_cell: i32,
}

impl ChunkId {
    /// The 3 x 3 block of chunks centered on this one, row by row: entry
    /// `k` offsets the latitude by `k / 3 - 1` and the longitude by
    /// `k % 3 - 1`.
    pub fn neighbors(&self) -> (r: Vec<ChunkId>)
        requires
            i32::MIN < self.lat_cell < i32::MAX,
            i32::MIN < self.lon_cell < i32::MAX,
        ensures
            r@.len() == 9,
            forall|k: int|
                0 <= k < 9 ==> (#[trigger] r@[k]).lat_cell == self.lat_cell + (k / 3 - 1)
                    && r@[k].lon_cell == self.lon_cell + (k % 3 - 1),
    {
        let mut neighbors: Vec<ChunkId> = Vec::new();
        neighbors.push(ChunkId { lat_cell: self.lat_cell - 1, lon_cell: self.lon_cell - 1 });
        neighbors.push(ChunkId { lat_cell: self.lat_cell - 1, lon_cell: self.lon_cell });
        neighbors.push(ChunkId { lat_cell: self.lat_cell - 1, lon_cell: self.lon_cell + 1 });
        neighbors.push(ChunkId { lat_cell: self.lat_cell, lon_cell: self.lon_cell - 1 });
        neighbors.push(ChunkId { lat_cell: self.lat_cell, lon_cell: self.lon_cell });
        neighbors.push(ChunkId { lat_cell: self.lat_cell, lon_cell: self.lon_cell + 1 });
        neighbors.push(ChunkId { lat_cell: self.lat_cell + 1, lon_cell: self.lon_cell - 1 });
        neighbors.push(ChunkId { lat_cell: self.lat_cell + 1, lon_cell: self.lon_cell });
        neighbors.push(ChunkId { lat_cell: self.lat_cell + 1, lon_cell: self.lon_cell + 1 });
        neighbors
    }
}

} // verus!
