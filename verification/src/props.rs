//! The property resolver: mapping one voxel tag to the property writes it
//! stands for.
//!
//! [`PropName`] and [`PropValue`] model the property vocabulary of the target
//! block registry; each carries the snake_case name under which the registry
//! knows it.  [`resolve`] turns one [`DanBlockData`] tag into the ordered
//! sequence of `(name, value)` pairs that have to be applied to a block state.

use vstd::prelude::*;

use crate::tags::{Axis, BisectionHalf, DanBlockData, Direction, RailShape, Side, StairShape};

verus! {

/// A property name of the target block registry used by the importer.
#[derive(Clone, Copy, Debug, PartialEq, Eq, Structural)]
pub enum PropName {
    Age,
    Attached,
    Axis,
    Down,
    East,
    Facing,
    Half,
    Hinge,
    Layers,
    Level,
    Moisture,
    North,
    Open,
    Rotation,
    Shape,
    South,
    Up,
    Waterlogged,
    West,
}

/// A property value of the target block registry used by the importer.
#[derive(Clone, Copy, Debug, PartialEq, Eq, Structural)]
pub enum PropValue {
    X,
    Y,
    Z,
    _0,
    _1,
    _2,
    _3,
    _4,
    _5,
    _6,
    _7,
    _8,
    _9,
    _10,
    _11,
    _12,
    _13,
    _14,
    _15,
    _16,
    _17,
    _18,
    _19,
    _20,
    _21,
    _22,
    _23,
    _24,
    _25,
    Top,
    Bottom,
    Upper,
    Lower,
    North,
    East,
    South,
    West,
    Up,
    Down,
    NorthEast,
    NorthWest,
    SouthEast,
    SouthWest,
    EastWest,
    NorthSouth,
    AscendingEast,
    AscendingNorth,
    AscendingSouth,
    AscendingWest,
    InnerLeft,
    InnerRight,
    OuterLeft,
    OuterRight,
    Straight,
    True,
    False,
    Left,
    Right,
}

impl PropName {
    /// The snake_case name under which the registry knows this property.
    pub open spec fn chars(self) -> Seq<char> {
        match self {
            PropName::Age => "age"@,
            PropName::Attached => "attached"@,
            PropName::Axis => "axis"@,
            PropName::Down => "down"@,
            PropName::East => "east"@,
            PropName::Facing => "facing"@,
            PropName::Half => "half"@,
            PropName::Hinge => "hinge"@,
            PropName::Layers => "layers"@,
            PropName::Level => "level"@,
            PropName::Moisture => "moisture"@,
            PropName::North => "north"@,
            PropName::Open => "open"@,
            PropName::Rotation => "rotation"@,
            PropName::Shape => "shape"@,
            PropName::South => "south"@,
            PropName::Up => "up"@,
            PropName::Waterlogged => "waterlogged"@,
            PropName::West => "west"@,
        }
    }

    /// The registry-facing name of this property.
    pub fn text(self) -> (r: &'static str)
        ensures
            r@ == self.chars(),
    {
        match self {
            PropName::Age => "age",
            PropName::Attached => "attached",
            PropName::Axis => "axis",
            PropName::Down => "down",
            PropName::East => "east",
            PropName::Facing => "facing",
            PropName::Half => "half",
            PropName::Hinge => "hinge",
            PropName::Layers => "layers",
            PropName::Level => "level",
            PropName::Moisture => "moisture",
            PropName::North => "north",
            PropName::Open => "open",
            PropName::Rotation => "rotation",
            PropName::Shape => "shape",
            PropName::South => "south",
            PropName::Up => "up",
            PropName::Waterlogged => "waterlogged",
            PropName::West => "west",
        }
    }
}

impl PropValue {
    /// The snake_case name under which the registry knows this value.
    pub open spec fn chars(self) -> Seq<char> {
        match self {
            PropValue::X => "x"@,
            PropValue::Y => "y"@,
            PropValue::Z => "z"@,
            PropValue::_0 => "0"@,
            PropValue::_1 => "1"@,
            PropValue::_2 => "2"@,
            PropValue::_3 => "3"@,
            PropValue::_4 => "4"@,
            PropValue::_5 => "5"@,
            PropValue::_6 => "6"@,
            PropValue::_7 => "7"@,
            PropValue::_8 => "8"@,
            PropValue::_9 => "9"@,
            PropValue::_10 => "10"@,
            PropValue::_11 => "11"@,
            PropValue::_12 => "12"@,
            PropValue::_13 => "13"@,
            PropValue::_14 => "14"@,
            PropValue::_15 => "15"@,
            PropValue::_16 => "16"@,
            PropValue::_17 => "17"@,
            PropValue::_18 => "18"@,
            PropValue::_19 => "19"@,
            PropValue::_20 => "20"@,
            PropValue::_21 => "21"@,
            PropValue::_22 => "22"@,
            PropValue::_23 => "23"@,
            PropValue::_24 => "24"@,
            PropValue::_25 => "25"@,
            PropValue::Top => "top"@,
            PropValue::Bottom => "bottom"@,
            PropValue::Upper => "upper"@,
            PropValue::Lower => "lower"@,
            PropValue::North => "north"@,
            PropValue::East => "east"@,
            PropValue::South => "south"@,
            PropValue::West => "west"@,
            PropValue::Up => "up"@,
            PropValue::Down => "down"@,
            PropValue::NorthEast => "north_east"@,
            PropValue::NorthWest => "north_west"@,
            PropValue::SouthEast => "south_east"@,
            PropValue::SouthWest => "south_west"@,
            PropValue::EastWest => "east_west"@,
            PropValue::NorthSouth => "north_south"@,
            PropValue::AscendingEast => "ascending_east"@,
            PropValue::AscendingNorth => "ascending_north"@,
            PropValue::AscendingSouth => "ascending_south"@,
            PropValue::AscendingWest => "ascending_west"@,
            PropValue::InnerLeft => "inner_left"@,
            PropValue::InnerRight => "inner_right"@,
            PropValue::OuterLeft => "outer_left"@,
            PropValue::OuterRight => "outer_right"@,
            PropValue::Straight => "straight"@,
            PropValue::True => "true"@,
            PropValue::False => "false"@,
            PropValue::Left => "left"@,
            PropValue::Right => "right"@,
        }
    }

    /// The registry-facing name of this value.
    pub fn text(self) -> (r: &'static str)
        ensures
            r@ == self.chars(),
    {
        match self {
            PropValue::X => "x",
            PropValue::Y => "y",
            PropValue::Z => "z",
            PropValue::_0 => "0",
            PropValue::_1 => "1",
            PropValue::_2 => "2",
            PropValue::_3 => "3",
            PropValue::_4 => "4",
            PropValue::_5 => "5",
            PropValue::_6 => "6",
            PropValue::_7 => "7",
            PropValue::_8 => "8",
            PropValue::_9 => "9",
            PropValue::_10 => "10",
            PropValue::_11 => "11",
            PropValue::_12 => "12",
            PropValue::_13 => "13",
            PropValue::_14 => "14",
            PropValue::_15 => "15",
            PropValue::_16 => "16",
            PropValue::_17 => "17",
            PropValue::_18 => "18",
            PropValue::_19 => "19",
            PropValue::_20 => "20",
            PropValue::_21 => "21",
            PropValue::_22 => "22",
            PropValue::_23 => "23",
            PropValue::_24 => "24",
            PropValue::_25 => "25",
            PropValue::Top => "top",
            PropValue::Bottom => "bottom",
            PropValue::Upper => "upper",
            PropValue::Lower => "lower",
            PropValue::North => "north",
            PropValue::East => "east",
            PropValue::South => "south",
            PropValue::West => "west",
            PropValue::Up => "up",
            PropValue::Down => "down",
            PropValue::NorthEast => "north_east",
            PropValue::NorthWest => "north_west",
            PropValue::SouthEast => "south_east",
            PropValue::SouthWest => "south_west",
            PropValue::EastWest => "east_west",
            PropValue::NorthSouth => "north_south",
            PropValue::AscendingEast => "ascending_east",
            PropValue::AscendingNorth => "ascending_north",
            PropValue::AscendingSouth => "ascending_south",
            PropValue::AscendingWest => "ascending_west",
            PropValue::InnerLeft => "inner_left",
            PropValue::InnerRight => "inner_right",
            PropValue::OuterLeft => "outer_left",
            PropValue::OuterRight => "outer_right",
            PropValue::Straight => "straight",
            PropValue::True => "true",
            PropValue::False => "false",
            PropValue::Left => "left",
            PropValue::Right => "right",
        }
    }
}

/// The numeric level value for `num`: levels 0..=25 map to their own value,
/// anything larger degrades to the minimum level value.
pub open spec fn spec_num_level(num: u8) -> PropValue {
    if num == 0 {
        PropValue::_0
    } else if num == 1 {
        PropValue::_1
    } else if num == 2 {
        PropValue::_2
    } else if num == 3 {
        PropValue::_3
    } else if num == 4 {
        PropValue::_4
    } else if num == 5 {
        PropValue::_5
    } else if num == 6 {
        PropValue::_6
    } else if num == 7 {
        PropValue::_7
    } else if num == 8 {
        PropValue::_8
    } else if num == 9 {
        PropValue::_9
    } else if num == 10 {
        PropValue::_10
    } else if num == 11 {
        PropValue::_11
    } else if num == 12 {
        PropValue::_12
    } else if num == 13 {
        PropValue::_13
    } else if num == 14 {
        PropValue::_14
    } else if num == 15 {
        PropValue::_15
    } else if num == 16 {
        PropValue::_16
    } else if num == 17 {
        PropValue::_17
    } else if num == 18 {
        PropValue::_18
    } else if num == 19 {
        PropValue::_19
    } else if num == 20 {
        PropValue::_20
    } else if num == 21 {
        PropValue::_21
    } else if num == 22 {
        PropValue::_22
    } else if num == 23 {
        PropValue::_23
    } else if num == 24 {
        PropValue::_24
    } else if num == 25 {
        PropValue::_25
    } else {
        PropValue::_0
    }
}

/// Maps a numeric level tag to its property value; out-of-range levels
/// degrade to the minimum level value instead of failing.
pub fn num_to_prop_val(num: u8) -> (r: PropValue)
    ensures
        r == spec_num_level(num),
{
    match num {
        0 => PropValue::_0,
        1 => PropValue::_1,
        2 => PropValue::_2,
        3 => PropValue::_3,
        4 => PropValue::_4,
        5 => PropValue::_5,
        6 => PropValue::_6,
        7 => PropValue::_7,
        8 => PropValue::_8,
        9 => PropValue::_9,
        10 => PropValue::_10,
        11 => PropValue::_11,
        12 => PropValue::_12,
        13 => PropValue::_13,
        14 => PropValue::_14,
        15 => PropValue::_15,
        16 => PropValue::_16,
        17 => PropValue::_17,
        18 => PropValue::_18,
        19 => PropValue::_19,
        20 => PropValue::_20,
        21 => PropValue::_21,
        22 => PropValue::_22,
        23 => PropValue::_23,
        24 => PropValue::_24,
        25 => PropValue::_25,
        _ => PropValue::_0,
    }
}

/// The boolean property value for `b`.
pub open spec fn spec_bool_value(b: bool) -> PropValue {
    if b {
        PropValue::True
    } else {
        PropValue::False
    }
}

/// Maps a boolean tag to its property value.
pub fn bool_to_prop_val(b: bool) -> (r: PropValue)
    ensures
        r == spec_bool_value(b),
{
    if b {
        PropValue::True
    } else {
        PropValue::False
    }
}

/// The `facing` value for a direction: the eight principal compass points and
/// up/down map to their own value, the remaining compass points fall back to
/// south.
pub open spec fn spec_facing_value(dir: Direction) -> PropValue {
    match dir {
        Direction::North => PropValue::North,
        Direction::NorthEast => PropValue::NorthEast,
        Direction::East => PropValue::East,
        Direction::SouthEast => PropValue::SouthEast,
        Direction::South => PropValue::South,
        Direction::SouthWest => PropValue::SouthWest,
        Direction::West => PropValue::West,
        Direction::NorthWest => PropValue::NorthWest,
        Direction::Up => PropValue::Up,
        Direction::Down => PropValue::Down,
        _ => PropValue::South,
    }
}

/// Maps a direction tag to the `facing` property value, falling back to south
/// for compass points with no facing equivalent.
pub fn dir_to_prop_val(dir: &Direction) -> (r: PropValue)
    ensures
        r == spec_facing_value(*dir),
{
    match dir {
        Direction::North => PropValue::North,
        Direction::NorthEast => PropValue::NorthEast,
        Direction::East => PropValue::East,
        Direction::SouthEast => PropValue::SouthEast,
        Direction::South => PropValue::South,
        Direction::SouthWest => PropValue::SouthWest,
        Direction::West => PropValue::West,
        Direction::NorthWest => PropValue::NorthWest,
        Direction::Up => PropValue::Up,
        Direction::Down => PropValue::Down,
        _ => PropValue::South,
    }
}

/// The numeric rotation slot for a sixteen-point compass direction, counted
/// clockwise from south.  Up and down have no rotation slot; they degrade to
/// slot 0 instead of failing.
pub open spec fn spec_rotation_value(dir: Direction) -> PropValue {
    match dir {
        Direction::South => PropValue::_0,
        Direction::SouthSouthWest => PropValue::_1,
        Direction::SouthWest => PropValue::_2,
        Direction::WestSouthWest => PropValue::_3,
        Direction::West => PropValue::_4,
        Direction::WestNorthWest => PropValue::_5,
        Direction::NorthWest => PropValue::_6,
        Direction::NorthNorthWest => PropValue::_7,
        Direction::North => PropValue::_8,
        Direction::NorthNorthEast => PropValue::_9,
        Direction::NorthEast => PropValue::_10,
        Direction::EastNorthEast => PropValue::_11,
        Direction::East => PropValue::_12,
        Direction::EastSouthEast => PropValue::_13,
        Direction::SouthEast => PropValue::_14,
        Direction::SouthSouthEast => PropValue::_15,
        _ => PropValue::_0,
    }
}

/// Maps a rotation tag to its numeric rotation slot via the fixed
/// compass-to-slot table.
pub fn rot_to_prop_val(dir: &Direction) -> (r: PropValue)
    ensures
        r == spec_rotation_value(*dir),
{
    match dir {
        Direction::South => PropValue::_0,
        Direction::SouthSouthWest => PropValue::_1,
        Direction::SouthWest => PropValue::_2,
        Direction::WestSouthWest => PropValue::_3,
        Direction::West => PropValue::_4,
        Direction::WestNorthWest => PropValue::_5,
        Direction::NorthWest => PropValue::_6,
        Direction::NorthNorthWest => PropValue::_7,
        Direction::North => PropValue::_8,
        Direction::NorthNorthEast => PropValue::_9,
        Direction::NorthEast => PropValue::_10,
        Direction::EastNorthEast => PropValue::_11,
        Direction::East => PropValue::_12,
        Direction::EastSouthEast => PropValue::_13,
        Direction::SouthEast => PropValue::_14,
        Direction::SouthSouthEast => PropValue::_15,
        _ => PropValue::_0,
    }
}

/// The shape value for a rail shape, a direct one-to-one table.
pub open spec fn spec_rail_value(r: RailShape) -> PropValue {
    match r {
        RailShape::AscEast => PropValue::AscendingEast,
        RailShape::AscNorth => PropValue::AscendingNorth,
        RailShape::AscSouth => PropValue::AscendingSouth,
        RailShape::AscWest => PropValue::AscendingWest,
        RailShape::EastWest => PropValue::EastWest,
        RailShape::NorthEast => PropValue::NorthEast,
        RailShape::NorthSouth => PropValue::NorthSouth,
        RailShape::NorthWest => PropValue::NorthWest,
        RailShape::SouthEast => PropValue::SouthEast,
        RailShape::SouthWest => PropValue::SouthWest,
    }
}

/// Maps a rail-shape tag to its shape property value.
pub fn rail_to_prop(r: &RailShape) -> (v: PropValue)
    ensures
        v == spec_rail_value(*r),
{
    match r {
        RailShape::AscEast => PropValue::AscendingEast,
        RailShape::AscNorth => PropValue::AscendingNorth,
        RailShape::AscSouth => PropValue::AscendingSouth,
        RailShape::AscWest => PropValue::AscendingWest,
        RailShape::EastWest => PropValue::EastWest,
        RailShape::NorthEast => PropValue::NorthEast,
        RailShape::NorthSouth => PropValue::NorthSouth,
        RailShape::NorthWest => PropValue::NorthWest,
        RailShape::SouthEast => PropValue::SouthEast,
        RailShape::SouthWest => PropValue::SouthWest,
    }
}

/// The shape value for a stair shape, a direct one-to-one table.
pub open spec fn spec_stair_value(s: StairShape) -> PropValue {
    match s {
        StairShape::InnerLeft => PropValue::InnerLeft,
        StairShape::InnerRight => PropValue::InnerRight,
        StairShape::OuterLeft => PropValue::OuterLeft,
        StairShape::OuterRight => PropValue::OuterRight,
        StairShape::Straight => PropValue::Straight,
    }
}

/// Maps a stair-shape tag to its shape property value.
pub fn stair_to_shape(s: &StairShape) -> (v: PropValue)
    ensures
        v == spec_stair_value(*s),
{
    match s {
        StairShape::InnerLeft => PropValue::InnerLeft,
        StairShape::InnerRight => PropValue::InnerRight,
        StairShape::OuterLeft => PropValue::OuterLeft,
        StairShape::OuterRight => PropValue::OuterRight,
        StairShape::Straight => PropValue::Straight,
    }
}

/// The axis property value for an axis.
pub open spec fn spec_axis_value(a: Axis) -> PropValue {
    match a {
        Axis::X => PropValue::X,
        Axis::Y => PropValue::Y,
        Axis::Z => PropValue::Z,
    }
}

/// The hinge property value for a side.
pub open spec fn spec_side_value(s: Side) -> PropValue {
    match s {
        Side::Left => PropValue::Left,
        Side::Right => PropValue::Right,
    }
}

/// The half value in the `top`/`bottom` vocabulary.
pub open spec fn spec_half_value(h: BisectionHalf) -> PropValue {
    match h {
        BisectionHalf::Top => PropValue::Top,
        BisectionHalf::Bottom => PropValue::Bottom,
    }
}

/// The half value in the alternative `upper`/`lower` vocabulary that some
/// block kinds use for the same property.
pub open spec fn spec_alt_half_value(h: BisectionHalf) -> PropValue {
    match h {
        BisectionHalf::Top => PropValue::Upper,
        BisectionHalf::Bottom => PropValue::Lower,
    }
}

/// The boolean face property a member of a multiple-facing set turns on.
/// Only the six axis-aligned directions occur in a well-formed file; other
/// compass points degrade to the south face.
pub open spec fn spec_face_prop(dir: Direction) -> PropName {
    match dir {
        Direction::North => PropName::North,
        Direction::East => PropName::East,
        Direction::South => PropName::South,
        Direction::West => PropName::West,
        Direction::Up => PropName::Up,
        Direction::Down => PropName::Down,
        _ => PropName::South,
    }
}

/// Maps one member of a multiple-facing set to the face property it turns on.
pub fn face_prop(dir: &Direction) -> (p: PropName)
    ensures
        p == spec_face_prop(*dir),
{
    match dir {
        Direction::North => PropName::North,
        Direction::East => PropName::East,
        Direction::South => PropName::South,
        Direction::West => PropName::West,
        Direction::Up => PropName::Up,
        Direction::Down => PropName::Down,
        _ => PropName::South,
    }
}

/// The single property write a single-valued tag stands for.  The
/// multiple-facing tag is multi-valued and is expanded by [`resolve_spec`]
/// instead; here it falls back to its north-face write.
pub open spec fn spec_to_prop(data: DanBlockData) -> (PropName, PropValue) {
    match data {
        DanBlockData::Orientation(axis) => (PropName::Axis, spec_axis_value(axis)),
        DanBlockData::Age(age) => (PropName::Age, spec_num_level(age)),
        DanBlockData::SnowLevel(level) => (PropName::Layers, spec_num_level(level)),
        DanBlockData::LiquidLevel(level) => (PropName::Level, spec_num_level(level)),
        DanBlockData::Bisected(h) => (PropName::Half, spec_half_value(h)),
        DanBlockData::Direction(dir) => (PropName::Facing, spec_facing_value(dir)),
        DanBlockData::Waterlogged(w) => (PropName::Waterlogged, spec_bool_value(w)),
        DanBlockData::Rotation(dir) => (PropName::Rotation, spec_rotation_value(dir)),
        DanBlockData::Open(o) => (PropName::Open, spec_bool_value(o)),
        DanBlockData::RailShape(r) => (PropName::Shape, spec_rail_value(r)),
        DanBlockData::StairShape(s) => (PropName::Shape, spec_stair_value(s)),
        DanBlockData::Attached(a) => (PropName::Attached, spec_bool_value(a)),
        DanBlockData::Hinge(side) => (PropName::Hinge, spec_side_value(side)),
        DanBlockData::Farmland(m) => (PropName::Moisture, spec_num_level(m)),
        DanBlockData::MultipleFacing(_) => (PropName::North, PropValue::True),
    }
}

/// Maps one single-valued tag to its property name and value.
pub fn to_prop(data: &DanBlockData) -> (r: (PropName, PropValue))
    requires
        !(*data is MultipleFacing),
    ensures
        r == spec_to_prop(*data),
{
    match data {
        DanBlockData::Orientation(axis) => (
            PropName::Axis,
            match axis {
                Axis::X => PropValue::X,
                Axis::Y => PropValue::Y,
                Axis::Z => PropValue::Z,
            },
        ),
        DanBlockData::Age(age) => (PropName::Age, num_to_prop_val(*age)),
        DanBlockData::SnowLevel(level) => (PropName::Layers, num_to_prop_val(*level)),
        DanBlockData::LiquidLevel(level) => (PropName::Level, num_to_prop_val(*level)),
        DanBlockData::Bisected(h) => (
            PropName::Half,
            match h {
                BisectionHalf::Top => PropValue::Top,
                BisectionHalf::Bottom => PropValue::Bottom,
            },
        ),
        DanBlockData::Direction(dir) => (PropName::Facing, dir_to_prop_val(dir)),
        DanBlockData::Waterlogged(w) => (PropName::Waterlogged, bool_to_prop_val(*w)),
        DanBlockData::Rotation(dir) => (PropName::Rotation, rot_to_prop_val(dir)),
        DanBlockData::Open(o) => (PropName::Open, bool_to_prop_val(*o)),
        DanBlockData::RailShape(r) => (PropName::Shape, rail_to_prop(r)),
        DanBlockData::StairShape(s) => (PropName::Shape, stair_to_shape(s)),
        DanBlockData::Attached(a) => (PropName::Attached, bool_to_prop_val(*a)),
        DanBlockData::Hinge(side) => (
            PropName::Hinge,
            match side {
                Side::Left => PropValue::Left,
                Side::Right => PropValue::Right,
            },
        ),
        DanBlockData::Farmland(m) => (PropName::Moisture, num_to_prop_val(*m)),
        DanBlockData::MultipleFacing(_) => (PropName::North, PropValue::True),
    }
}

/// The ordered property writes one tag stands for.
///
/// A single-valued tag yields one write.  A bisection tag yields two writes
/// for the same half property, one per value vocabulary, so that whichever
/// vocabulary the block kind uses takes effect and the other is ignored by
/// the registry.  A multiple-facing tag yields one boolean face write per
/// member direction.
pub open spec fn resolve_spec(data: DanBlockData) -> Seq<(PropName, PropValue)> {
    match data {
        DanBlockData::MultipleFacing(dirs) => Seq::new(
            dirs@.len(),
            |i: int| (spec_face_prop(dirs@[i]), PropValue::True),
        ),
        DanBlockData::Bisected(h) => seq![
            (PropName::Half, spec_alt_half_value(h)),
            (PropName::Half, spec_half_value(h)),
        ],
        _ => seq![spec_to_prop(data)],
    }
}

/// Resolves one tag to the ordered property writes it stands for.
pub fn resolve(data: &DanBlockData) -> (r: Vec<(PropName, PropValue)>)
    ensures
        r@ == resolve_spec(*data),
{
    match data {
        DanBlockData::MultipleFacing(dirs) => {
            let mut out: Vec<(PropName, PropValue)> = Vec::new();
            let mut i: usize = 0;
            while i < dirs.len()
                invariant
                    i <= dirs@.len(),
                    out@.len() == i,
                    forall|j: int|
                        0 <= j < i ==> out@[j] == (spec_face_prop(dirs@[j]), PropValue::True),
                decreases dirs@.len() - i,
            {
                let p = face_prop(&dirs[i]);
                out.push((p, PropValue::True));
                i = i + 1;
            }
            proof {
                assert(out@ =~= resolve_spec(*data));
            }
            out
        },
        DanBlockData::Bisected(h) => {
            let mut out: Vec<(PropName, PropValue)> = Vec::new();
            let alt = match h {
                BisectionHalf::Top => PropValue::Upper,
                BisectionHalf::Bottom => PropValue::Lower,
            };
            let main = match h {
                BisectionHalf::Top => PropValue::Top,
                BisectionHalf::Bottom => PropValue::Bottom,
            };
            out.push((PropName::Half, alt));
            out.push((PropName::Half, main));
            proof {
                assert(out@ =~= resolve_spec(*data));
            }
            out
        },
        _ => {
            let pair = to_prop(data);
            let mut out: Vec<(PropName, PropValue)> = Vec::new();
            out.push(pair);
            proof {
                assert(out@ =~= resolve_spec(*data));
            }
            out
        },
    }
}

/// Law: tag resolution is a pure, deterministic mapping — any two results of
/// resolving the same tag are the same sequence of property writes.
pub proof fn lemma_resolve_deterministic(
    data: DanBlockData,
    r1: Seq<(PropName, PropValue)>,
    r2: Seq<(PropName, PropValue)>,
)
    requires
        r1 == resolve_spec(data),
        r2 == resolve_spec(data),
    ensures
        r1 == r2,
{
}

/// Law: a bisection tag attempts both value vocabularies of the half
/// property, the `upper`/`lower` vocabulary first and the `top`/`bottom`
/// vocabulary second, and nothing else.
pub proof fn lemma_bisected_attempts_both(h: BisectionHalf)
    ensures
        resolve_spec(DanBlockData::Bisected(h)) =~= seq![
            (PropName::Half, spec_alt_half_value(h)),
            (PropName::Half, spec_half_value(h)),
        ],
        spec_alt_half_value(h) == (if h is Top {
            PropValue::Upper
        } else {
            PropValue::Lower
        }),
        spec_half_value(h) == (if h is Top {
            PropValue::Top
        } else {
            PropValue::Bottom
        }),
{
}

/// Law: a multiple-facing tag resolves to exactly one boolean face write per
/// member direction, each turning that face on, and to no other write.
pub proof fn lemma_multiple_facing_exact(dirs: Vec<Direction>)
    ensures
        resolve_spec(DanBlockData::MultipleFacing(dirs)).len() == dirs@.len(),
        forall|i: int|
            0 <= i < dirs@.len() ==> resolve_spec(DanBlockData::MultipleFacing(dirs))[i] == (
            spec_face_prop(dirs@[i]),
            PropValue::True,
        ),
{
}

/// Law: numeric levels at the boundary values map to the extreme level
/// values, and any level beyond the maximum degrades to the minimum level
/// value instead of failing.
pub proof fn lemma_level_boundaries()
    ensures
        spec_num_level(0) == PropValue::_0,
        spec_num_level(25) == PropValue::_25,
        forall|n: u8| n > 25 ==> spec_num_level(n) == PropValue::_0,
{
}

} // verus!
