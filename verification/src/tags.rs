//! The semantic tags that a world file can attach to a single voxel.
//!
//! Every tag names one physical property family of the target block
//! representation; resolution of a tag into concrete property writes lives in
//! [`crate::props`].

use vstd::prelude::*;

verus! {

/// A coordinate axis, used by the `axis` orientation property.
#[derive(Clone, Copy, Debug, PartialEq, Eq, Structural)]
pub enum Axis {
    X,
    Y,
    Z,
}

/// Which half of a vertically bisected block a voxel is.
#[derive(Clone, Copy, Debug, PartialEq, Eq, Structural)]
pub enum BisectionHalf {
    Top,
    Bottom,
}

/// Which side a door hinge sits on.
#[derive(Clone, Copy, Debug, PartialEq, Eq, Structural)]
pub enum Side {
    Left,
    Right,
}

/// A sixteen-point compass direction, plus up and down.
#[derive(Clone, Copy, Debug, PartialEq, Eq, Structural)]
pub enum Direction {
    North,
    NorthNorthEast,
    NorthEast,
    EastNorthEast,
    East,
    EastSouthEast,
    SouthEast,
    SouthSouthEast,
    South,
    SouthSouthWest,
    SouthWest,
    WestSouthWest,
    West,
    WestNorthWest,
    NorthWest,
    NorthNorthWest,
    Up,
    Down,
}

/// The shape a rail block can take.
#[derive(Clone, Copy, Debug, PartialEq, Eq, Structural)]
pub enum RailShape {
    AscEast,
    AscNorth,
    AscSouth,
    AscWest,
    EastWest,
    NorthEast,
    NorthSouth,
    NorthWest,
    SouthEast,
    SouthWest,
}

/// The shape a stair block can take at a corner.
#[derive(Clone, Copy, Debug, PartialEq, Eq, Structural)]
pub enum StairShape {
    InnerLeft,
    InnerRight,
    OuterLeft,
    OuterRight,
    Straight,
}

/// One semantic tag of a voxel, one variant per physical property family.
///
/// Numeric levels are drawn from 0..=25 in a well-formed file; the resolver
/// degrades out-of-range levels to the minimum level instead of failing.
#[derive(Clone, Debug, PartialEq, Eq)]
pub enum DanBlockData {
    Orientation(Axis),
    Age(u8),
    SnowLevel(u8),
    LiquidLevel(u8),
    Bisected(BisectionHalf),
    Direction(Direction),
    Waterlogged(bool),
    Rotation(Direction),
    Open(bool),
    RailShape(RailShape),
    StairShape(StairShape),
    Attached(bool),
    Hinge(Side),
    Farmland(u8),
    MultipleFacing(Vec<Direction>),
}

} // verus!
