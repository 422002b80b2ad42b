use vstd::prelude::*;

verus! {

/// Integer block coordinates.
#[derive(Debug, Clone, Copy, PartialEq, Eq, Hash, Structural)]
pub struct BlockPos {
    pub x: i32,
    pub y: i32,
    pub z: i32,
}

/// Chunk column coordinates.
#[derive(Debug, Clone, Copy, PartialEq, Eq, Hash, Structural)]
pub struct ChunkPos {
    pub x: i32,
    pub z: i32,
}

/// A 16-block-high section of a chunk column.
#[derive(Debug, Clone, Copy, PartialEq, Eq, Hash, Structural)]
pub struct SectionPos {
    pub chunk: ChunkPos,
    pub y: i32,
}

/// Number of sections in a column (Y from -4 to 19).
pub const SECTIONS_PER_CHUNK: usize = 24;
/// Lowest section index.
pub const MIN_SECTION_Y: i32 = -4;
/// Upper world height limit.
pub const WORLD_MAX_Y: i32 = 320;
/// Lower world height limit.
pub const WORLD_MIN_Y: i32 = -64;
/// Edge length of a section.
pub const SECTION_SIZE: usize = 16;
/// Most block entities a chunk may hold.
pub const MAX_BLOCK_ENTITIES_PER_CHUNK: usize = 256;

/// Floor division by 16.
pub fn div16(v: i32) -> (r: i32)
    ensures
        r as int == v as int / 16,
{
    match v.checked_div_euclid(16) {
        Some(q) => q,
        None => 0,
    }
}

/// Non-negative remainder modulo 16.
pub fn mod16(v: i32) -> (r: i32)
    ensures
        r as int == v as int % 16,
        0 <= r < 16,
{
    match v.checked_rem_euclid(16) {
        Some(q) => q,
        None => 0,
    }
}

impl BlockPos {
    /// The origin.
    pub fn zero() -> (r: BlockPos)
        ensures
            r == (BlockPos { x: 0, y: 0, z: 0 }),
    {
        BlockPos { x: 0, y: 0, z: 0 }
    }

    pub fn new(x: i32, y: i32, z: i32) -> (r: BlockPos)
        ensures
            r == (BlockPos { x, y, z }),
    {
        BlockPos { x, y, z }
    }

    /// Column that holds this block.
    pub fn to_chunk_pos(self) -> (r: ChunkPos)
        ensures
            r.x as int == self.x as int / 16,
            r.z as int == self.z as int / 16,
    {
        ChunkPos { x: div16(self.x), z: div16(self.z) }
    }

    /// Position within the column (each in 0..16).
    pub fn chunk_relative(self) -> (r: (usize, usize))
        ensures
            r.0 as int == self.x as int % 16,
            r.1 as int == self.z as int % 16,
    {
        (mod16(self.x) as usize, mod16(self.z) as usize)
    }

    /// Index of the section that holds this block.
    pub fn section_y(self) -> (r: i32)
        ensures
            r as int == self.y as int / 16,
    {
        div16(self.y)
    }

    /// Height within the section (0..16).
    pub fn section_relative_y(self) -> (r: usize)
        ensures
            r as int == self.y as int % 16,
    {
        mod16(self.y) as usize
    }
}

impl ChunkPos {
    pub fn new(x: i32, z: i32) -> (r: ChunkPos)
        ensures
            r == (ChunkPos { x, z }),
    {
        ChunkPos { x, z }
    }
}

impl SectionPos {
    pub fn new(chunk: ChunkPos, y: i32) -> (r: SectionPos)
        ensures
            r == (SectionPos { chunk, y }),
    {
        SectionPos { chunk, y }
    }
}

/// A block coordinate is its column times sixteen plus its offset in the
/// column, and likewise vertically for sections; offsets lie in 0..16.
pub proof fn block_pos_decomposes(p: BlockPos)
    ensures
        (p.x as int / 16) * 16 + p.x as int % 16 == p.x,
        (p.z as int / 16) * 16 + p.z as int % 16 == p.z,
        (p.y as int / 16) * 16 + p.y as int % 16 == p.y,
        0 <= p.x as int % 16 < 16,
        0 <= p.z as int % 16 < 16,
        0 <= p.y as int % 16 < 16,
{
}

} // verus!
