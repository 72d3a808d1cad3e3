use vstd::prelude::*;

verus! {

/// Number of block cells in one chunk section (16 x 16 x 16).
pub const SECTION_CELLS: usize = 4096;

/// A vertical slice of a chunk, stored palette-compressed: each cell holds an
/// index into `pallet`, whose entries are global block-type identifiers.
#[derive(Debug)]
pub struct ChunkSection {
    pub block_count: u16,
    pub pallet: Vec<i32>,
    pub data: [i32; SECTION_CELLS],
}

impl ChunkSection {
    /// Every cell refers to an entry of the palette.
    pub open spec fn wf(&self) -> bool {
        forall|i: int| 0 <= i < SECTION_CELLS ==> 0 <= #[trigger] self.data@[i] < self.pallet@.len()
    }
}

/// A column of sections, keyed by their vertical index.
#[derive(Debug)]
pub struct Chunk {
    pub sections: std::collections::HashMap<i8, ChunkSection>,
}

/// The scene: chunks keyed by their horizontal coordinate.
#[derive(Debug)]
pub struct World {
    pub chunks: std::collections::HashMap<i64, Chunk>,
}

} // verus!
