//! End-to-end tests of the import pipeline against the real block registry.

use sheeptag_world::place::{fallback_world, place_world, plan_import};
use sheeptag_world::registry::{kind_state_for_identifier, set_props};
use sheeptag_world::tags::{BisectionHalf, DanBlockData, Direction};
use sheeptag_world::world::{
    dimension_name, Chunk, DanDimension, Section, VoxelTags, VoxelWorld,
};
use valence::block::{BlockKind, BlockState, PropName, PropValue};

fn raw_of(kind: &str) -> u16 {
    BlockKind::from_str(kind).unwrap().to_state().to_raw()
}

fn state_of(raw: u16) -> BlockState {
    BlockState::from_raw(raw).unwrap()
}

fn stone_section() -> Section {
    Section {
        palette: vec!["minecraft:stone".to_string()],
        blocks: vec![0u16; 4096],
        biomes: vec![0u16; 4096],
        data: vec![],
    }
}

#[test]
fn identifier_lookup_uses_the_registry() {
    // The namespace prefix is stripped before the registry lookup.
    assert_eq!(kind_state_for_identifier("minecraft:stone"), raw_of("stone"));
    assert_eq!(kind_state_for_identifier("stone"), raw_of("stone"));
    // An unknown identifier substitutes the podzol filler kind.
    assert_eq!(kind_state_for_identifier("no_such_block"), raw_of("podzol"));
    assert_ne!(raw_of("stone"), raw_of("podzol"));
}

#[test]
fn bisected_top_takes_effect_in_the_upper_lower_vocabulary() {
    let door = raw_of("oak_door");
    let tagged = set_props(door, &vec![DanBlockData::Bisected(BisectionHalf::Top)]);
    assert_eq!(
        state_of(tagged).get(PropName::Half),
        Some(PropValue::Upper)
    );
    // The top/bottom vocabulary write was the no-op of the two attempts.
    assert_eq!(state_of(door).set(PropName::Half, PropValue::Top), state_of(door));
}

#[test]
fn bisected_top_takes_effect_in_the_top_bottom_vocabulary() {
    let stairs = raw_of("oak_stairs");
    let tagged = set_props(stairs, &vec![DanBlockData::Bisected(BisectionHalf::Top)]);
    assert_eq!(state_of(tagged).get(PropName::Half), Some(PropValue::Top));
    // The upper/lower vocabulary write was the no-op of the two attempts.
    assert_eq!(
        state_of(stairs).set(PropName::Half, PropValue::Upper),
        state_of(stairs)
    );
}

#[test]
fn multiple_facing_sets_exactly_the_named_faces() {
    let fence = raw_of("oak_fence");
    let tagged = set_props(
        fence,
        &vec![DanBlockData::MultipleFacing(vec![
            Direction::North,
            Direction::East,
        ])],
    );
    let s = state_of(tagged);
    assert_eq!(s.get(PropName::North), Some(PropValue::True));
    assert_eq!(s.get(PropName::East), Some(PropValue::True));
    assert_eq!(s.get(PropName::South), Some(PropValue::False));
    assert_eq!(s.get(PropName::West), Some(PropValue::False));
}

#[test]
fn numeric_boundaries_round_trip_through_the_registry() {
    let kelp = raw_of("kelp");
    let aged0 = set_props(kelp, &vec![DanBlockData::Age(0)]);
    assert_eq!(state_of(aged0).get(PropName::Age), Some(PropValue::_0));
    let aged25 = set_props(kelp, &vec![DanBlockData::Age(25)]);
    assert_eq!(state_of(aged25).get(PropName::Age), Some(PropValue::_25));
    // Out of domain: degrades to the minimum level, raising no error.
    let aged26 = set_props(aged25, &vec![DanBlockData::Age(26)]);
    assert_eq!(state_of(aged26).get(PropName::Age), Some(PropValue::_0));
}

#[test]
fn untagged_voxels_keep_the_bare_palette_state() {
    let stone = raw_of("stone");
    assert_eq!(set_props(stone, &vec![]), stone);
}

#[test]
fn last_write_wins_per_property() {
    let kelp = raw_of("kelp");
    let tagged = set_props(kelp, &vec![DanBlockData::Age(3), DanBlockData::Age(9)]);
    assert_eq!(state_of(tagged).get(PropName::Age), Some(PropValue::_9));
}

#[test]
fn single_stone_chunk_produces_4096_bare_stone_writes() {
    let world = VoxelWorld {
        dimension: DanDimension::Overworld,
        width: 1,
        depth: 1,
        chunks: vec![Chunk { x: 3, z: -2, sections: vec![stone_section()] }],
    };
    assert!(world.wf_check());

    let plan = plan_import(Some(&world));
    assert_eq!(plan.dimension, DanDimension::Overworld);

    let p = plan.placement;
    // Padded rectangle: 2 * (1 + 10) chunks on each axis.
    assert_eq!(p.chunk_inserts.len(), 22 * 22);
    assert_eq!(p.chunk_inserts[0], sheeptag_world::place::ChunkPos { x: -11, z: -11 });
    assert_eq!(
        p.chunk_inserts[p.chunk_inserts.len() - 1],
        sheeptag_world::place::ChunkPos { x: 10, z: 10 }
    );

    let stone = raw_of("stone");
    assert_eq!(p.writes.len(), 4096);
    for (k, w) in p.writes.iter().enumerate() {
        let y = (k / 256) as i32;
        let x = ((k / 16) % 16) as i32;
        let z = (k % 16) as i32;
        assert_eq!(w.x, 3 * 16 + x);
        assert_eq!(w.y, 1 + y);
        assert_eq!(w.z, -2 * 16 + z);
        assert_eq!(w.state, stone);
        assert_eq!(w.biome, Some(0));
    }
}

#[test]
fn out_of_range_palette_indices_substitute_the_filler() {
    let mut section = stone_section();
    section.blocks[0] = 9;
    let chunk = Chunk { x: 0, z: 0, sections: vec![section] };
    assert!(chunk.wf_check());
    let writes = sheeptag_world::place::place_chunk(&chunk, 1);
    assert_eq!(writes[0].state, raw_of("podzol"));
    assert_eq!(writes[1].state, raw_of("stone"));
}

#[test]
fn tagged_voxels_get_their_properties_applied() {
    let mut section = stone_section();
    section.palette = vec!["minecraft:oak_stairs".to_string()];
    section.data = vec![VoxelTags {
        x: 5,
        y: 2,
        z: 7,
        tags: vec![DanBlockData::Bisected(BisectionHalf::Top)],
    }];
    let world = VoxelWorld {
        dimension: DanDimension::Nether,
        width: 1,
        depth: 1,
        chunks: vec![Chunk { x: 0, z: 0, sections: vec![section] }],
    };
    assert!(world.wf_check());

    let plan = plan_import(Some(&world));
    assert_eq!(plan.dimension, DanDimension::Nether);

    let k = 2 * 256 + 5 * 16 + 7;
    let w = &plan.placement.writes[k];
    assert_eq!(w.x, 5);
    assert_eq!(w.y, 3);
    assert_eq!(w.z, 7);
    assert_eq!(
        state_of(w.state).get(PropName::Half),
        Some(PropValue::Top)
    );
    // A neighbouring untagged voxel keeps the bare stairs state.
    assert_eq!(plan.placement.writes[k + 1].state, raw_of("oak_stairs"));
}

#[test]
fn sections_stack_upward_sixteen_levels_apart() {
    let chunk = Chunk { x: 0, z: 0, sections: vec![stone_section(), stone_section()] };
    assert!(chunk.wf_check());
    let writes = sheeptag_world::place::place_chunk(&chunk, 1);
    assert_eq!(writes.len(), 2 * 4096);
    assert_eq!(writes[0].y, 1);
    assert_eq!(writes[4095].y, 16);
    assert_eq!(writes[4096].y, 17);
    assert_eq!(writes[2 * 4096 - 1].y, 32);
}

#[test]
fn failed_load_produces_the_flat_fallback_world() {
    let plan = plan_import(None);
    assert_eq!(plan.dimension, DanDimension::Overworld);

    let p = plan.placement;
    assert_eq!(p.chunk_inserts.len(), 100);
    assert_eq!(p.chunk_inserts[0], sheeptag_world::place::ChunkPos { x: -5, z: -5 });
    assert_eq!(
        p.chunk_inserts[99],
        sheeptag_world::place::ChunkPos { x: 4, z: 4 }
    );

    let podzol = raw_of("podzol");
    assert_eq!(p.writes.len(), 2500);
    for (j, w) in p.writes.iter().enumerate() {
        assert_eq!(w.x, -25 + (j % 50) as i32);
        assert_eq!(w.y, 64);
        assert_eq!(w.z, -25 + (j / 50) as i32);
        assert_eq!(w.state, podzol);
        assert_eq!(w.biome, None);
    }
}

#[test]
fn fallback_world_matches_the_direct_construction() {
    let direct = fallback_world();
    let planned = plan_import(None).placement;
    assert_eq!(direct, planned);
}

#[test]
fn empty_world_places_only_padding() {
    let world = VoxelWorld {
        dimension: DanDimension::End,
        width: 0,
        depth: 0,
        chunks: vec![],
    };
    assert!(world.wf_check());
    let p = place_world(&world);
    assert_eq!(p.chunk_inserts.len(), 20 * 20);
    assert_eq!(p.writes.len(), 0);
}

#[test]
fn dimension_names_follow_the_fixed_mapping() {
    assert_eq!(dimension_name(DanDimension::Overworld), "overworld");
    assert_eq!(dimension_name(DanDimension::Nether), "the_nether");
    assert_eq!(dimension_name(DanDimension::End), "the_end");
}
