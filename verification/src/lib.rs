//! Importer for palette-indexed voxel worlds.
//!
//! A world description holds chunks of vertically stacked 16x16x16 sections.
//! Each section carries a palette of block-kind identifiers, a flat array of
//! palette indices, a parallel array of biome indices, and a sparse map of
//! per-voxel semantic tags.  The importer resolves every voxel to a raw block
//! state id of the hosting block registry, applies the tagged properties, and
//! emits the list of chunk insertions and per-voxel writes that a world store
//! has to perform.

pub mod place;
pub mod props;
pub mod registry;
pub mod session;
pub mod tags;
pub mod world;
