//! The in-memory model of a world file.
//!
//! A world holds a target dimension, horizontal extents in chunks, and a
//! list of chunks; a chunk holds its signed chunk coordinates and its
//! sections, ordered bottom to top; a section holds a palette of block-kind
//! identifiers, flat arrays of 4096 palette and biome indices in
//! `y * 256 + x * 16 + z` order, and a sparse list of per-voxel tag entries.

use vstd::prelude::*;

use crate::tags::DanBlockData;

verus! {

/// The number of voxels in one 16 x 16 x 16 section.
pub const SECTION_VOLUME: usize = 4096;

/// Chunk coordinates are limited so that every voxel coordinate
/// `chunk * 16 + local` fits in an `i32`.
pub const CHUNK_COORD_LIMIT: i32 = 134217728;

/// Section counts are limited so that every vertical base offset
/// `1 + 16 * index + 15` fits in an `i32`.
pub const MAX_SECTIONS: usize = 67108864;

/// The dimension a world targets.
#[derive(Clone, Copy, Debug, PartialEq, Eq, Structural)]
pub enum DanDimension {
    Overworld,
    Nether,
    End,
}

/// The tags attached to one voxel, keyed by its section-local coordinates.
#[derive(Clone, Debug, PartialEq, Eq)]
pub struct VoxelTags {
    pub x: u8,
    pub y: u8,
    pub z: u8,
    pub tags: Vec<DanBlockData>,
}

/// One 16 x 16 x 16 section of a chunk.
#[derive(Clone, Debug, PartialEq, Eq)]
pub struct Section {
    /// Block-kind identifiers, indexed by the palette indices in `blocks`.
    pub palette: Vec<String>,
    /// 4096 palette indices, one per voxel, in `y * 256 + x * 16 + z` order.
    pub blocks: Vec<u16>,
    /// 4096 biome indices in the same order.
    pub biomes: Vec<u16>,
    /// Sparse per-voxel tag entries; voxels without an entry carry no tags.
    pub data: Vec<VoxelTags>,
}

/// A vertical column of sections at signed chunk coordinates.
#[derive(Clone, Debug, PartialEq, Eq)]
pub struct Chunk {
    pub x: i32,
    pub z: i32,
    /// Sections ordered bottom to top, each spanning 16 vertical levels.
    pub sections: Vec<Section>,
}

/// A whole world description.
#[derive(Clone, Debug, PartialEq, Eq)]
pub struct VoxelWorld {
    pub dimension: DanDimension,
    /// Horizontal extent in chunks along x.
    pub width: u16,
    /// Horizontal extent in chunks along z.
    pub depth: u16,
    pub chunks: Vec<Chunk>,
}

/// The first tag entry for the voxel at `(x, y, z)`, if any.
pub open spec fn spec_find_tags(entries: Seq<VoxelTags>, x: u8, y: u8, z: u8) -> Option<
    Seq<DanBlockData>,
>
    decreases entries.len(),
{
    if entries.len() == 0 {
        None
    } else if entries[0].x == x && entries[0].y == y && entries[0].z == z {
        Some(entries[0].tags@)
    } else {
        spec_find_tags(entries.drop_first(), x, y, z)
    }
}

impl Section {
    /// A well-formed section has exactly one palette index and one biome
    /// index per voxel, and every tag entry addresses a voxel inside the
    /// section.
    pub open spec fn wf(self) -> bool {
        &&& self.blocks@.len() == SECTION_VOLUME
        &&& self.biomes@.len() == SECTION_VOLUME
        &&& forall|i: int|
            0 <= i < self.data@.len() ==> (#[trigger] self.data@[i]).x < 16 && self.data@[i].y < 16
                && self.data@[i].z < 16
    }

    /// Looks up the tag entry for the voxel at section-local `(x, y, z)`.
    pub fn find_tags(&self, x: u8, y: u8, z: u8) -> (r: Option<&Vec<DanBlockData>>)
        ensures
            r is Some <==> spec_find_tags(self.data@, x, y, z) is Some,
            r matches Some(t) ==> spec_find_tags(self.data@, x, y, z) == Some(t@),
    {
        let mut i: usize = 0;
        proof {
            assert(self.data@.skip(0) =~= self.data@);
        }
        while i < self.data.len()
            invariant
                i <= self.data@.len(),
                spec_find_tags(self.data@, x, y, z) == spec_find_tags(
                    self.data@.skip(i as int),
                    x,
                    y,
                    z,
                ),
            decreases self.data@.len() - i,
        {
            proof {
                assert(self.data@.skip(i as int)[0] == self.data@[i as int]);
                assert(self.data@.skip(i as int).drop_first() =~= self.data@.skip(i as int + 1));
            }
            let entry = &self.data[i];
            if entry.x == x && entry.y == y && entry.z == z {
                return Some(&entry.tags);
            }
            i = i + 1;
        }
        proof {
            assert(self.data@.skip(self.data@.len() as int) =~= Seq::<VoxelTags>::empty());
        }
        None
    }

    /// Checks section well-formedness at run time.
    pub fn wf_check(&self) -> (b: bool)
        ensures
            b == self.wf(),
    {
        if self.blocks.len() != SECTION_VOLUME || self.biomes.len() != SECTION_VOLUME {
            return false;
        }
        let mut i: usize = 0;
        while i < self.data.len()
            invariant
                i <= self.data@.len(),
                self.blocks@.len() == SECTION_VOLUME,
                self.biomes@.len() == SECTION_VOLUME,
                forall|j: int|
                    0 <= j < i ==> (#[trigger] self.data@[j]).x < 16 && self.data@[j].y < 16
                        && self.data@[j].z < 16,
            decreases self.data@.len() - i,
        {
            let entry = &self.data[i];
            if entry.x >= 16 || entry.y >= 16 || entry.z >= 16 {
                return false;
            }
            i = i + 1;
        }
        true
    }
}

impl Chunk {
    /// A well-formed chunk has coordinates and a section count small enough
    /// that every derived voxel coordinate fits in an `i32`, and only
    /// well-formed sections.
    pub open spec fn wf(self) -> bool {
        &&& -CHUNK_COORD_LIMIT <= self.x < CHUNK_COORD_LIMIT
        &&& -CHUNK_COORD_LIMIT <= self.z < CHUNK_COORD_LIMIT
        &&& self.sections@.len() <= MAX_SECTIONS
        &&& forall|i: int| 0 <= i < self.sections@.len() ==> (#[trigger] self.sections@[i]).wf()
    }

    /// Checks chunk well-formedness at run time.
    pub fn wf_check(&self) -> (b: bool)
        ensures
            b == self.wf(),
    {
        if self.x < -CHUNK_COORD_LIMIT || self.x >= CHUNK_COORD_LIMIT {
            return false;
        }
        if self.z < -CHUNK_COORD_LIMIT || self.z >= CHUNK_COORD_LIMIT {
            return false;
        }
        if self.sections.len() > MAX_SECTIONS {
            return false;
        }
        let mut i: usize = 0;
        while i < self.sections.len()
            invariant
                i <= self.sections@.len(),
                -CHUNK_COORD_LIMIT <= self.x < CHUNK_COORD_LIMIT,
                -CHUNK_COORD_LIMIT <= self.z < CHUNK_COORD_LIMIT,
                self.sections@.len() <= MAX_SECTIONS,
                forall|j: int| 0 <= j < i ==> (#[trigger] self.sections@[j]).wf(),
            decreases self.sections@.len() - i,
        {
            if !self.sections[i].wf_check() {
                return false;
            }
            i = i + 1;
        }
        true
    }
}

impl VoxelWorld {
    /// A well-formed world holds only well-formed chunks.
    pub open spec fn wf(self) -> bool {
        forall|i: int| 0 <= i < self.chunks@.len() ==> (#[trigger] self.chunks@[i]).wf()
    }

    /// Checks world well-formedness at run time.
    pub fn wf_check(&self) -> (b: bool)
        ensures
            b == self.wf(),
    {
        let mut i: usize = 0;
        while i < self.chunks.len()
            invariant
                i <= self.chunks@.len(),
                forall|j: int| 0 <= j < i ==> (#[trigger] self.chunks@[j]).wf(),
            decreases self.chunks@.len() - i,
        {
            if !self.chunks[i].wf_check() {
                return false;
            }
            i = i + 1;
        }
        true
    }
}

/// The identifier of the hosting dimension a world dimension maps to.
pub open spec fn spec_dimension_name(d: DanDimension) -> Seq<char> {
    match d {
        DanDimension::Overworld => "overworld"@,
        DanDimension::Nether => "the_nether"@,
        DanDimension::End => "the_end"@,
    }
}

/// Maps a world dimension to the identifier of the hosting dimension.
pub fn dimension_name(d: DanDimension) -> (r: &'static str)
    ensures
        r@ == spec_dimension_name(d),
{
    match d {
        DanDimension::Overworld => "overworld",
        DanDimension::Nether => "the_nether",
        DanDimension::End => "the_end",
    }
}

} // verus!
