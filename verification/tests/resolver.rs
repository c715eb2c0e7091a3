//! Tests of the property resolver on its own, without the registry.

use sheeptag_world::props::{resolve, to_prop, PropName, PropValue};
use sheeptag_world::tags::{
    Axis, BisectionHalf, DanBlockData, Direction, RailShape, Side, StairShape,
};

#[test]
fn resolve_is_deterministic() {
    let tags = vec![
        DanBlockData::Orientation(Axis::Z),
        DanBlockData::Age(7),
        DanBlockData::Bisected(BisectionHalf::Top),
        DanBlockData::MultipleFacing(vec![Direction::North, Direction::East]),
        DanBlockData::Rotation(Direction::SouthSouthWest),
    ];
    for tag in &tags {
        let first = resolve(tag);
        let second = resolve(tag);
        assert_eq!(first, second);
    }
}

#[test]
fn orientation_resolves_to_axis() {
    assert_eq!(
        resolve(&DanBlockData::Orientation(Axis::X)),
        vec![(PropName::Axis, PropValue::X)]
    );
    assert_eq!(
        resolve(&DanBlockData::Orientation(Axis::Y)),
        vec![(PropName::Axis, PropValue::Y)]
    );
    assert_eq!(
        resolve(&DanBlockData::Orientation(Axis::Z)),
        vec![(PropName::Axis, PropValue::Z)]
    );
}

#[test]
fn bisected_attempts_both_vocabularies() {
    assert_eq!(
        resolve(&DanBlockData::Bisected(BisectionHalf::Top)),
        vec![
            (PropName::Half, PropValue::Upper),
            (PropName::Half, PropValue::Top),
        ]
    );
    assert_eq!(
        resolve(&DanBlockData::Bisected(BisectionHalf::Bottom)),
        vec![
            (PropName::Half, PropValue::Lower),
            (PropName::Half, PropValue::Bottom),
        ]
    );
}

#[test]
fn multiple_facing_expands_to_one_pair_per_direction() {
    let r = resolve(&DanBlockData::MultipleFacing(vec![
        Direction::North,
        Direction::East,
    ]));
    assert_eq!(
        r,
        vec![
            (PropName::North, PropValue::True),
            (PropName::East, PropValue::True),
        ]
    );

    let all = resolve(&DanBlockData::MultipleFacing(vec![
        Direction::North,
        Direction::East,
        Direction::South,
        Direction::West,
        Direction::Up,
        Direction::Down,
    ]));
    assert_eq!(all.len(), 6);
    assert_eq!(all[4], (PropName::Up, PropValue::True));
    assert_eq!(all[5], (PropName::Down, PropValue::True));
}

#[test]
fn numeric_levels_round_trip_at_boundaries() {
    assert_eq!(
        resolve(&DanBlockData::Age(0)),
        vec![(PropName::Age, PropValue::_0)]
    );
    assert_eq!(
        resolve(&DanBlockData::Age(25)),
        vec![(PropName::Age, PropValue::_25)]
    );
    // An out-of-domain level degrades to the minimum level value.
    assert_eq!(
        resolve(&DanBlockData::Age(26)),
        vec![(PropName::Age, PropValue::_0)]
    );
    assert_eq!(
        resolve(&DanBlockData::SnowLevel(3)),
        vec![(PropName::Layers, PropValue::_3)]
    );
    assert_eq!(
        resolve(&DanBlockData::LiquidLevel(15)),
        vec![(PropName::Level, PropValue::_15)]
    );
    assert_eq!(
        resolve(&DanBlockData::Farmland(7)),
        vec![(PropName::Moisture, PropValue::_7)]
    );
}

#[test]
fn facing_maps_ten_directions_and_falls_back_to_south() {
    assert_eq!(
        resolve(&DanBlockData::Direction(Direction::North)),
        vec![(PropName::Facing, PropValue::North)]
    );
    assert_eq!(
        resolve(&DanBlockData::Direction(Direction::Down)),
        vec![(PropName::Facing, PropValue::Down)]
    );
    // A sixteen-point compass direction with no facing equivalent falls
    // back to south.
    assert_eq!(
        resolve(&DanBlockData::Direction(Direction::SouthSouthWest)),
        vec![(PropName::Facing, PropValue::South)]
    );
}

#[test]
fn rotation_uses_the_fixed_compass_table() {
    assert_eq!(
        resolve(&DanBlockData::Rotation(Direction::South)),
        vec![(PropName::Rotation, PropValue::_0)]
    );
    assert_eq!(
        resolve(&DanBlockData::Rotation(Direction::SouthSouthWest)),
        vec![(PropName::Rotation, PropValue::_1)]
    );
    assert_eq!(
        resolve(&DanBlockData::Rotation(Direction::North)),
        vec![(PropName::Rotation, PropValue::_8)]
    );
    assert_eq!(
        resolve(&DanBlockData::Rotation(Direction::SouthSouthEast)),
        vec![(PropName::Rotation, PropValue::_15)]
    );
}

#[test]
fn booleans_resolve_to_true_or_false() {
    assert_eq!(
        resolve(&DanBlockData::Waterlogged(true)),
        vec![(PropName::Waterlogged, PropValue::True)]
    );
    assert_eq!(
        resolve(&DanBlockData::Open(false)),
        vec![(PropName::Open, PropValue::False)]
    );
    assert_eq!(
        resolve(&DanBlockData::Attached(true)),
        vec![(PropName::Attached, PropValue::True)]
    );
}

#[test]
fn shapes_and_hinges_map_one_to_one() {
    assert_eq!(
        resolve(&DanBlockData::RailShape(RailShape::AscNorth)),
        vec![(PropName::Shape, PropValue::AscendingNorth)]
    );
    assert_eq!(
        resolve(&DanBlockData::RailShape(RailShape::NorthEast)),
        vec![(PropName::Shape, PropValue::NorthEast)]
    );
    assert_eq!(
        resolve(&DanBlockData::StairShape(StairShape::InnerLeft)),
        vec![(PropName::Shape, PropValue::InnerLeft)]
    );
    assert_eq!(
        resolve(&DanBlockData::StairShape(StairShape::Straight)),
        vec![(PropName::Shape, PropValue::Straight)]
    );
    assert_eq!(
        resolve(&DanBlockData::Hinge(Side::Left)),
        vec![(PropName::Hinge, PropValue::Left)]
    );
    assert_eq!(
        resolve(&DanBlockData::Hinge(Side::Right)),
        vec![(PropName::Hinge, PropValue::Right)]
    );
}

#[test]
fn to_prop_matches_resolve_for_single_valued_tags() {
    let tags = vec![
        DanBlockData::Orientation(Axis::Y),
        DanBlockData::Waterlogged(false),
        DanBlockData::Rotation(Direction::West),
        DanBlockData::Hinge(Side::Right),
    ];
    for tag in &tags {
        assert_eq!(resolve(tag), vec![to_prop(tag)]);
    }
}

#[test]
fn registry_names_are_snake_case() {
    assert_eq!(PropName::Waterlogged.text(), "waterlogged");
    assert_eq!(PropName::Layers.text(), "layers");
    assert_eq!(PropValue::AscendingEast.text(), "ascending_east");
    assert_eq!(PropValue::_25.text(), "25");
    assert_eq!(PropValue::Upper.text(), "upper");
}
