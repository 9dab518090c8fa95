use rustcraft::block::block_type::{get_blocks, BlockType, BLOCK_COUNT};
use rustcraft::block::states::states_of;
use rustcraft::block::{
    calculate_states_len, Axis, BlockStates, ChestType, Direction, Instrument, RailShape,
    RedstoneWireDirection, StairShape, TreeVariant,
};

#[test]
fn property_defaults() {
    assert_eq!(TreeVariant::default(), TreeVariant::Oak);
    assert_eq!(Axis::default(), Axis::X);
    assert_eq!(Direction::default(), Direction::Up);
    assert_eq!(Instrument::default(), Instrument::Banjo);
    assert_eq!(RailShape::default(), RailShape::AscendingEast);
    assert_eq!(StairShape::default(), StairShape::Straight);
    assert_eq!(ChestType::default(), ChestType::Single);
    assert_eq!(RedstoneWireDirection::default(), RedstoneWireDirection::Unconnected);
}

#[test]
fn registry_sizes() {
    let registry = BlockStates::generate();
    assert_eq!(registry.blocks.len(), BLOCK_COUNT);
    assert_eq!(registry.states.len(), 3363);
    assert_eq!(get_blocks().len(), 146);
}

#[test]
fn first_state_ids() {
    let registry = BlockStates::generate();
    let air = registry.get_block(0).unwrap();
    assert_eq!(air.block_state_index, 0);
    assert_eq!(*air.block_type, BlockType::Air {});
    assert_eq!(*registry.get_block(1).unwrap().block_type, BlockType::Stone {});
    assert_eq!(*registry.get_block(8).unwrap().block_type, BlockType::GrassBlock { snowy: true });
    assert_eq!(*registry.get_block(9).unwrap().block_type, BlockType::GrassBlock { snowy: false });
    assert_eq!(*registry.get_block(10).unwrap().block_type, BlockType::Dirt {});
}

#[test]
fn get_block_out_of_range() {
    let registry = BlockStates::generate();
    assert!(registry.get_block(3363).is_none());
    assert!(registry.get_block(usize::MAX).is_none());
}

#[test]
fn states_are_grouped_by_kind() {
    let registry = BlockStates::generate();
    let mut last = 0;
    for entry in &registry.states {
        assert!(entry.block_number() >= last);
        assert!(entry.block_number() < BLOCK_COUNT);
        last = entry.block_number();
    }
    for k in 0..BLOCK_COUNT {
        assert!(!states_of(k).is_empty());
    }
}

#[test]
fn leaves_states_run_over_distance_then_persistence() {
    let leaves = states_of(53);
    assert_eq!(leaves.len(), 14);
    assert_eq!(leaves[0], BlockType::OakLeaves { distance: 1, persistent: true });
    assert_eq!(leaves[1], BlockType::OakLeaves { distance: 1, persistent: false });
    assert_eq!(leaves[13], BlockType::OakLeaves { distance: 7, persistent: false });
}

#[test]
fn redstone_wire_states() {
    let k = get_blocks().iter().position(|b| b.get_identifier() == "minecraft:redstone_wire").unwrap();
    let wire = states_of(k);
    assert_eq!(wire.len(), 1296);
    assert_eq!(
        wire[0],
        BlockType::RedstoneWire {
            east: RedstoneWireDirection::Up,
            north: RedstoneWireDirection::Up,
            power: 0,
            south: RedstoneWireDirection::Up,
            west: RedstoneWireDirection::Up
        }
    );
    assert_eq!(
        wire[1],
        BlockType::RedstoneWire {
            east: RedstoneWireDirection::Up,
            north: RedstoneWireDirection::Up,
            power: 0,
            south: RedstoneWireDirection::Up,
            west: RedstoneWireDirection::Side
        }
    );
    assert_eq!(
        wire[1295],
        BlockType::RedstoneWire {
            east: RedstoneWireDirection::Unconnected,
            north: RedstoneWireDirection::Unconnected,
            power: 15,
            south: RedstoneWireDirection::Unconnected,
            west: RedstoneWireDirection::Unconnected
        }
    );
}

#[test]
fn block_properties() {
    let air = BlockType::Air {};
    assert!(!air.is_collidable());
    assert!(!air.is_block_full());
    assert_eq!(air.get_identifier(), "minecraft:air");
    let stone = BlockType::Stone {};
    assert!(stone.is_collidable() && stone.is_block_full() && !stone.get_transparency());
    assert_eq!(stone.get_stacksize(), 64);
    assert_eq!(stone.get_light_intensity(), 0);
    assert_eq!(stone.get_light_color(), [0, 0, 0]);
    let torch = BlockType::Torch {};
    assert_eq!(torch.get_light_intensity(), 14);
    assert_eq!(torch.get_light_color(), [255, 255, 255]);
    assert!(BlockType::Water { water: 3 }.is_waterlogged());
    assert!(BlockType::Glass {}.get_transparency());
}

#[test]
fn debug_listing_names_every_state() {
    let registry = BlockStates::generate();
    let text = registry.debug_states_text();
    assert!(text.starts_with("0: minecraft:air\n1: minecraft:stone\n"));
    assert!(text.contains("\n8: minecraft:grass_block\n9: minecraft:grass_block\n10: minecraft:dirt\n"));
    assert_eq!(text.lines().count(), 3363);
    assert!(text.ends_with("\n"));
}

#[test]
fn states_len_from_property_sizes() {
    assert_eq!(calculate_states_len(&None), 1);
    assert_eq!(calculate_states_len(&Some(vec![])), 0);
    assert_eq!(calculate_states_len(&Some(vec![2])), 2);
    assert_eq!(calculate_states_len(&Some(vec![7, 2])), 14);
    assert_eq!(calculate_states_len(&Some(vec![3, 3, 16, 3, 3])), 1296);
    assert_eq!(calculate_states_len(&Some(vec![0, 4, 2])), 8);
}
