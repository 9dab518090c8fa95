//! The order of the states of each kind of block. A kind's states are its
//! property values combined odometer fashion: the first property changes
//! slowest and the last fastest, each running through its values in the order
//! the kind declares them. So the rank of a state among its kind's states is a
//! mixed-radix number whose digits are the positions of its property values.

use vstd::prelude::*;
use super::block_type::{BlockType, BLOCK_COUNT};
use super::{entries_of, first_state_id, law_state_at_id};
use super::states::{
    state_group,
    spec_states_air,
    spec_states_stone,
    spec_states_granite,
    spec_states_smooth_granite,
    spec_states_diorite,
    spec_states_smooth_diorite,
    spec_states_andesite,
    spec_states_smooth_andesite,
    spec_states_grass_block,
    spec_states_dirt,
    spec_states_coarse_dirt,
    spec_states_podzol,
    spec_states_cobblestone,
    spec_states_planks,
    spec_states_oak_sapling,
    spec_states_spruce_sapling,
    spec_states_birch_sapling,
    spec_states_jungle_sapling,
    spec_states_acacia_sapling,
    spec_states_dark_oak_sapling,
    spec_states_bedrock,
    spec_states_water,
    spec_states_lava,
    spec_states_sand,
    spec_states_red_sand,
    spec_states_gravel,
    spec_states_gold_ore,
    spec_states_iron_ore,
    spec_states_coal_ore,
    spec_states_oak_log,
    spec_states_spruce_log,
    spec_states_birch_log,
    spec_states_jungle_log,
    spec_states_acacia_log,
    spec_states_dark_oak_log,
    spec_states_stripped_spruce_log,
    spec_states_stripped_birch_log,
    spec_states_stripped_jungle_log,
    spec_states_stripped_acacia_log,
    spec_states_stripped_dark_oak_log,
    spec_states_stripped_oak_log,
    spec_states_oak_wood,
    spec_states_spruce_wood,
    spec_states_birch_wood,
    spec_states_jungle_wood,
    spec_states_acacia_wood,
    spec_states_dark_oak_wood,
    spec_states_stripped_oak_wood,
    spec_states_stripped_spruce_wood,
    spec_states_stripped_birch_wood,
    spec_states_stripped_jungle_wood,
    spec_states_stripped_acacia_wood,
    spec_states_stripped_dark_oak_wood,
    spec_states_oak_leaves,
    spec_states_spruce_leaves,
    spec_states_birch_leaves,
    spec_states_jungle_leaves,
    spec_states_acacia_leaves,
    spec_states_dark_oak_leaves,
    spec_states_sponge,
    spec_states_wet_sponge,
    spec_states_glass,
    spec_states_lapis_ore,
    spec_states_lapis_block,
    spec_states_dispenser,
    spec_states_sandstone,
    spec_states_chiseled_sandstone,
    spec_states_cut_sandstone,
    spec_states_note_block,
    spec_states_white_bed,
    spec_states_orange_bed,
    spec_states_magenta_bed,
    spec_states_light_blue_bed,
    spec_states_yellow_bed,
    spec_states_lime_bed,
    spec_states_pink_bed,
    spec_states_gray_bed,
    spec_states_light_gray_bed,
    spec_states_cyan_bed,
    spec_states_purple_bed,
    spec_states_blue_bed,
    spec_states_brown_bed,
    spec_states_green_bed,
    spec_states_red_bed,
    spec_states_black_bed,
    spec_states_powered_rail,
    spec_states_detector_rail,
    spec_states_sticky_piston,
    spec_states_cobweb,
    spec_states_grass,
    spec_states_fern,
    spec_states_dead_bush,
    spec_states_seagrass,
    spec_states_tall_seagrass,
    spec_states_piston,
    spec_states_piston_head,
    spec_states_white_wool,
    spec_states_orange_wool,
    spec_states_magenta_wool,
    spec_states_light_blue_wool,
    spec_states_yellow_wool,
    spec_states_lime_wool,
    spec_states_pink_wool,
    spec_states_gray_wool,
    spec_states_light_gray_wool,
    spec_states_cyan_wool,
    spec_states_purple_wool,
    spec_states_blue_wool,
    spec_states_brown_wool,
    spec_states_green_wool,
    spec_states_red_wool,
    spec_states_black_wool,
    spec_states_moving_piston,
    spec_states_dandelion,
    spec_states_poppy,
    spec_states_blue_orchid,
    spec_states_allium,
    spec_states_azure_bluet,
    spec_states_red_tulip,
    spec_states_orange_tulip,
    spec_states_white_tulip,
    spec_states_pink_tulip,
    spec_states_oxeye_daisy,
    spec_states_cornflower,
    spec_states_wither_rose,
    spec_states_lily_of_the_valley,
    spec_states_brown_mushroom,
    spec_states_red_mushroom,
    spec_states_gold_block,
    spec_states_iron_block,
    spec_states_bricks,
    spec_states_t_n_t,
    spec_states_bookshelf,
    spec_states_mossy_cobblestone,
    spec_states_obsidian,
    spec_states_torch,
    spec_states_wall_torch,
    spec_states_fire,
    spec_states_spawner,
    spec_states_oak_stairs,
    spec_states_chest,
    spec_states_redstone_wire,
    spec_states_diamond_ore,
    spec_states_diamond_block,
    spec_states_crafting_table,
    spec_states_wheat,
    state_oak_leaves,
    state_spruce_leaves,
    state_birch_leaves,
    state_jungle_leaves,
    state_acacia_leaves,
    state_dark_oak_leaves,
    state_dispenser,
    state_note_block,
    state_white_bed,
    state_orange_bed,
    state_magenta_bed,
    state_light_blue_bed,
    state_yellow_bed,
    state_lime_bed,
    state_pink_bed,
    state_gray_bed,
    state_light_gray_bed,
    state_cyan_bed,
    state_purple_bed,
    state_blue_bed,
    state_brown_bed,
    state_green_bed,
    state_red_bed,
    state_black_bed,
    state_powered_rail,
    state_detector_rail,
    state_sticky_piston,
    state_piston,
    state_piston_head,
    state_moving_piston,
    state_fire,
    state_oak_stairs,
    state_chest,
    state_redstone_wire,
};
use super::{Axis, ChestType, Direction, Instrument, RailShape, RedstoneWireDirection, StairShape, TreeVariant};

verus! {

/// The number of the kind of block a block type belongs to, by its variant.
pub open spec fn kind_of(t: BlockType) -> int {
    match t {
        BlockType::Air { .. } => 0,
        BlockType::Stone { .. } => 1,
        BlockType::Granite { .. } => 2,
        BlockType::SmoothGranite { .. } => 3,
        BlockType::Diorite { .. } => 4,
        BlockType::SmoothDiorite { .. } => 5,
        BlockType::Andesite { .. } => 6,
        BlockType::SmoothAndesite { .. } => 7,
        BlockType::GrassBlock { .. } => 8,
        BlockType::Dirt { .. } => 9,
        BlockType::CoarseDirt { .. } => 10,
        BlockType::Podzol { .. } => 11,
        BlockType::Cobblestone { .. } => 12,
        BlockType::Planks { .. } => 13,
        BlockType::OakSapling { .. } => 14,
        BlockType::SpruceSapling { .. } => 15,
        BlockType::BirchSapling { .. } => 16,
        BlockType::JungleSapling { .. } => 17,
        BlockType::AcaciaSapling { .. } => 18,
        BlockType::DarkOakSapling { .. } => 19,
        BlockType::Bedrock { .. } => 20,
        BlockType::Water { .. } => 21,
        BlockType::Lava { .. } => 22,
        BlockType::Sand { .. } => 23,
        BlockType::RedSand { .. } => 24,
        BlockType::Gravel { .. } => 25,
        BlockType::GoldOre { .. } => 26,
        BlockType::IronOre { .. } => 27,
        BlockType::CoalOre { .. } => 28,
        BlockType::OakLog { .. } => 29,
        BlockType::SpruceLog { .. } => 30,
        BlockType::BirchLog { .. } => 31,
        BlockType::JungleLog { .. } => 32,
        BlockType::AcaciaLog { .. } => 33,
        BlockType::DarkOakLog { .. } => 34,
        BlockType::StrippedSpruceLog { .. } => 35,
        BlockType::StrippedBirchLog { .. } => 36,
        BlockType::StrippedJungleLog { .. } => 37,
        BlockType::StrippedAcaciaLog { .. } => 38,
        BlockType::StrippedDarkOakLog { .. } => 39,
        BlockType::StrippedOakLog { .. } => 40,
        BlockType::OakWood { .. } => 41,
        BlockType::SpruceWood { .. } => 42,
        BlockType::BirchWood { .. } => 43,
        BlockType::JungleWood { .. } => 44,
        BlockType::AcaciaWood { .. } => 45,
        BlockType::DarkOakWood { .. } => 46,
        BlockType::StrippedOakWood { .. } => 47,
        BlockType::StrippedSpruceWood { .. } => 48,
        BlockType::StrippedBirchWood { .. } => 49,
        BlockType::StrippedJungleWood { .. } => 50,
        BlockType::StrippedAcaciaWood { .. } => 51,
        BlockType::StrippedDarkOakWood { .. } => 52,
        BlockType::OakLeaves { .. } => 53,
        BlockType::SpruceLeaves { .. } => 54,
        BlockType::BirchLeaves { .. } => 55,
        BlockType::JungleLeaves { .. } => 56,
        BlockType::AcaciaLeaves { .. } => 57,
        BlockType::DarkOakLeaves { .. } => 58,
        BlockType::Sponge { .. } => 59,
        BlockType::WetSponge { .. } => 60,
        BlockType::Glass { .. } => 61,
        BlockType::LapisOre { .. } => 62,
        BlockType::LapisBlock { .. } => 63,
        BlockType::Dispenser { .. } => 64,
        BlockType::Sandstone { .. } => 65,
        BlockType::ChiseledSandstone { .. } => 66,
        BlockType::CutSandstone { .. } => 67,
        BlockType::NoteBlock { .. } => 68,
        BlockType::WhiteBed { .. } => 69,
        BlockType::OrangeBed { .. } => 70,
        BlockType::MagentaBed { .. } => 71,
        BlockType::LightBlueBed { .. } => 72,
        BlockType::YellowBed { .. } => 73,
        BlockType::LimeBed { .. } => 74,
        BlockType::PinkBed { .. } => 75,
        BlockType::GrayBed { .. } => 76,
        BlockType::LightGrayBed { .. } => 77,
        BlockType::CyanBed { .. } => 78,
        BlockType::PurpleBed { .. } => 79,
        BlockType::BlueBed { .. } => 80,
        BlockType::BrownBed { .. } => 81,
        BlockType::GreenBed { .. } => 82,
        BlockType::RedBed { .. } => 83,
        BlockType::BlackBed { .. } => 84,
        BlockType::PoweredRail { .. } => 85,
        BlockType::DetectorRail { .. } => 86,
        BlockType::StickyPiston { .. } => 87,
        BlockType::Cobweb { .. } => 88,
        BlockType::Grass { .. } => 89,
        BlockType::Fern { .. } => 90,
        BlockType::DeadBush { .. } => 91,
        BlockType::Seagrass { .. } => 92,
        BlockType::TallSeagrass { .. } => 93,
        BlockType::Piston { .. } => 94,
        BlockType::PistonHead { .. } => 95,
        BlockType::WhiteWool { .. } => 96,
        BlockType::OrangeWool { .. } => 97,
        BlockType::MagentaWool { .. } => 98,
        BlockType::LightBlueWool { .. } => 99,
        BlockType::YellowWool { .. } => 100,
        BlockType::LimeWool { .. } => 101,
        BlockType::PinkWool { .. } => 102,
        BlockType::GrayWool { .. } => 103,
        BlockType::LightGrayWool { .. } => 104,
        BlockType::CyanWool { .. } => 105,
        BlockType::PurpleWool { .. } => 106,
        BlockType::BlueWool { .. } => 107,
        BlockType::BrownWool { .. } => 108,
        BlockType::GreenWool { .. } => 109,
        BlockType::RedWool { .. } => 110,
        BlockType::BlackWool { .. } => 111,
        BlockType::MovingPiston { .. } => 112,
        BlockType::Dandelion { .. } => 113,
        BlockType::Poppy { .. } => 114,
        BlockType::BlueOrchid { .. } => 115,
        BlockType::Allium { .. } => 116,
        BlockType::AzureBluet { .. } => 117,
        BlockType::RedTulip { .. } => 118,
        BlockType::OrangeTulip { .. } => 119,
        BlockType::WhiteTulip { .. } => 120,
        BlockType::PinkTulip { .. } => 121,
        BlockType::OxeyeDaisy { .. } => 122,
        BlockType::Cornflower { .. } => 123,
        BlockType::WitherRose { .. } => 124,
        BlockType::LilyOfTheValley { .. } => 125,
        BlockType::BrownMushroom { .. } => 126,
        BlockType::RedMushroom { .. } => 127,
        BlockType::GoldBlock { .. } => 128,
        BlockType::IronBlock { .. } => 129,
        BlockType::Bricks { .. } => 130,
        BlockType::TNT { .. } => 131,
        BlockType::Bookshelf { .. } => 132,
        BlockType::MossyCobblestone { .. } => 133,
        BlockType::Obsidian { .. } => 134,
        BlockType::Torch { .. } => 135,
        BlockType::WallTorch { .. } => 136,
        BlockType::Fire { .. } => 137,
        BlockType::Spawner { .. } => 138,
        BlockType::OakStairs { .. } => 139,
        BlockType::Chest { .. } => 140,
        BlockType::RedstoneWire { .. } => 141,
        BlockType::DiamondOre { .. } => 142,
        BlockType::DiamondBlock { .. } => 143,
        BlockType::CraftingTable { .. } => 144,
        BlockType::Wheat { .. } => 145,
    }
}

/// The rank of a state among the states of its kind: the mixed-radix number
/// whose digits are the positions of its property values, the last property
/// counting in ones.
pub open spec fn state_rank(t: BlockType) -> int {
    match t {
        BlockType::Air { .. } => 0,
        BlockType::Stone { .. } => 0,
        BlockType::Granite { .. } => 0,
        BlockType::SmoothGranite { .. } => 0,
        BlockType::Diorite { .. } => 0,
        BlockType::SmoothDiorite { .. } => 0,
        BlockType::Andesite { .. } => 0,
        BlockType::SmoothAndesite { .. } => 0,
        BlockType::GrassBlock { snowy } => (if snowy { 0int } else { 1int }),
        BlockType::Dirt { .. } => 0,
        BlockType::CoarseDirt { .. } => 0,
        BlockType::Podzol { snowy } => (if snowy { 0int } else { 1int }),
        BlockType::Cobblestone { .. } => 0,
        BlockType::Planks { variant } => (if variant == TreeVariant::Oak { 0int } else { if variant == TreeVariant::Spruce { 1int } else { if variant == TreeVariant::Birch { 2int } else { if variant == TreeVariant::Jungle { 3int } else { if variant == TreeVariant::Acacia { 4int } else { if variant == TreeVariant::DarkOak { 5int } else { 6int } } } } } }),
        BlockType::OakSapling { stage } => (stage as int - 0),
        BlockType::SpruceSapling { stage } => (stage as int - 0),
        BlockType::BirchSapling { stage } => (stage as int - 0),
        BlockType::JungleSapling { stage } => (stage as int - 0),
        BlockType::AcaciaSapling { stage } => (stage as int - 0),
        BlockType::DarkOakSapling { stage } => (stage as int - 0),
        BlockType::Bedrock { .. } => 0,
        BlockType::Water { water } => (water as int - 0),
        BlockType::Lava { .. } => 0,
        BlockType::Sand { .. } => 0,
        BlockType::RedSand { .. } => 0,
        BlockType::Gravel { .. } => 0,
        BlockType::GoldOre { .. } => 0,
        BlockType::IronOre { .. } => 0,
        BlockType::CoalOre { .. } => 0,
        BlockType::OakLog { axis } => (if axis == Axis::X { 0int } else { if axis == Axis::Y { 1int } else { if axis == Axis::Z { 2int } else { 3int } } }),
        BlockType::SpruceLog { axis } => (if axis == Axis::X { 0int } else { if axis == Axis::Y { 1int } else { if axis == Axis::Z { 2int } else { 3int } } }),
        BlockType::BirchLog { axis } => (if axis == Axis::X { 0int } else { if axis == Axis::Y { 1int } else { if axis == Axis::Z { 2int } else { 3int } } }),
        BlockType::JungleLog { axis } => (if axis == Axis::X { 0int } else { if axis == Axis::Y { 1int } else { if axis == Axis::Z { 2int } else { 3int } } }),
        BlockType::AcaciaLog { axis } => (if axis == Axis::X { 0int } else { if axis == Axis::Y { 1int } else { if axis == Axis::Z { 2int } else { 3int } } }),
        BlockType::DarkOakLog { axis } => (if axis == Axis::X { 0int } else { if axis == Axis::Y { 1int } else { if axis == Axis::Z { 2int } else { 3int } } }),
        BlockType::StrippedSpruceLog { axis } => (if axis == Axis::X { 0int } else { if axis == Axis::Y { 1int } else { if axis == Axis::Z { 2int } else { 3int } } }),
        BlockType::StrippedBirchLog { axis } => (if axis == Axis::X { 0int } else { if axis == Axis::Y { 1int } else { if axis == Axis::Z { 2int } else { 3int } } }),
        BlockType::StrippedJungleLog { axis } => (if axis == Axis::X { 0int } else { if axis == Axis::Y { 1int } else { if axis == Axis::Z { 2int } else { 3int } } }),
        BlockType::StrippedAcaciaLog { axis } => (if axis == Axis::X { 0int } else { if axis == Axis::Y { 1int } else { if axis == Axis::Z { 2int } else { 3int } } }),
        BlockType::StrippedDarkOakLog { axis } => (if axis == Axis::X { 0int } else { if axis == Axis::Y { 1int } else { if axis == Axis::Z { 2int } else { 3int } } }),
        BlockType::StrippedOakLog { axis } => (if axis == Axis::X { 0int } else { if axis == Axis::Y { 1int } else { if axis == Axis::Z { 2int } else { 3int } } }),
        BlockType::OakWood { axis } => (if axis == Axis::X { 0int } else { if axis == Axis::Y { 1int } else { if axis == Axis::Z { 2int } else { 3int } } }),
        BlockType::SpruceWood { axis } => (if axis == Axis::X { 0int } else { if axis == Axis::Y { 1int } else { if axis == Axis::Z { 2int } else { 3int } } }),
        BlockType::BirchWood { axis } => (if axis == Axis::X { 0int } else { if axis == Axis::Y { 1int } else { if axis == Axis::Z { 2int } else { 3int } } }),
        BlockType::JungleWood { axis } => (if axis == Axis::X { 0int } else { if axis == Axis::Y { 1int } else { if axis == Axis::Z { 2int } else { 3int } } }),
        BlockType::AcaciaWood { axis } => (if axis == Axis::X { 0int } else { if axis == Axis::Y { 1int } else { if axis == Axis::Z { 2int } else { 3int } } }),
        BlockType::DarkOakWood { axis } => (if axis == Axis::X { 0int } else { if axis == Axis::Y { 1int } else { if axis == Axis::Z { 2int } else { 3int } } }),
        BlockType::StrippedOakWood { axis } => (if axis == Axis::X { 0int } else { if axis == Axis::Y { 1int } else { if axis == Axis::Z { 2int } else { 3int } } }),
        BlockType::StrippedSpruceWood { axis } => (if axis == Axis::X { 0int } else { if axis == Axis::Y { 1int } else { if axis == Axis::Z { 2int } else { 3int } } }),
        BlockType::StrippedBirchWood { axis } => (if axis == Axis::X { 0int } else { if axis == Axis::Y { 1int } else { if axis == Axis::Z { 2int } else { 3int } } }),
        BlockType::StrippedJungleWood { axis } => (if axis == Axis::X { 0int } else { if axis == Axis::Y { 1int } else { if axis == Axis::Z { 2int } else { 3int } } }),
        BlockType::StrippedAcaciaWood { axis } => (if axis == Axis::X { 0int } else { if axis == Axis::Y { 1int } else { if axis == Axis::Z { 2int } else { 3int } } }),
        BlockType::StrippedDarkOakWood { axis } => (if axis == Axis::X { 0int } else { if axis == Axis::Y { 1int } else { if axis == Axis::Z { 2int } else { 3int } } }),
        BlockType::OakLeaves { distance, persistent } => (distance as int - 1) * 2 + (if persistent { 0int } else { 1int }),
        BlockType::SpruceLeaves { distance, persistent } => (distance as int - 1) * 2 + (if persistent { 0int } else { 1int }),
        BlockType::BirchLeaves { distance, persistent } => (distance as int - 1) * 2 + (if persistent { 0int } else { 1int }),
        BlockType::JungleLeaves { distance, persistent } => (distance as int - 1) * 2 + (if persistent { 0int } else { 1int }),
        BlockType::AcaciaLeaves { distance, persistent } => (distance as int - 1) * 2 + (if persistent { 0int } else { 1int }),
        BlockType::DarkOakLeaves { distance, persistent } => (distance as int - 1) * 2 + (if persistent { 0int } else { 1int }),
        BlockType::Sponge { .. } => 0,
        BlockType::WetSponge { .. } => 0,
        BlockType::Glass { .. } => 0,
        BlockType::LapisOre { .. } => 0,
        BlockType::LapisBlock { .. } => 0,
        BlockType::Dispenser { facing, triggered } => (if facing == Direction::North { 0int } else { if facing == Direction::East { 1int } else { if facing == Direction::South { 2int } else { if facing == Direction::West { 3int } else { if facing == Direction::Up { 4int } else { if facing == Direction::Down { 5int } else { 6int } } } } } }) * 2 + (if triggered { 0int } else { 1int }),
        BlockType::Sandstone { .. } => 0,
        BlockType::ChiseledSandstone { .. } => 0,
        BlockType::CutSandstone { .. } => 0,
        BlockType::NoteBlock { instrument, note, powered } => (if instrument == Instrument::Harp { 0int } else { if instrument == Instrument::Basedrum { 1int } else { if instrument == Instrument::Snare { 2int } else { if instrument == Instrument::Hat { 3int } else { if instrument == Instrument::Bass { 4int } else { if instrument == Instrument::Flute { 5int } else { if instrument == Instrument::Bell { 6int } else { if instrument == Instrument::Guitar { 7int } else { if instrument == Instrument::Chime { 8int } else { if instrument == Instrument::Xylophone { 9int } else { if instrument == Instrument::IronXylophone { 10int } else { if instrument == Instrument::CowBell { 11int } else { if instrument == Instrument::Didgeridoo { 12int } else { if instrument == Instrument::Bit { 13int } else { if instrument == Instrument::Banjo { 14int } else { if instrument == Instrument::Pling { 15int } else { 16int } } } } } } } } } } } } } } } }) * 50 + (note as int - 0) * 2 + (if powered { 0int } else { 1int }),
        BlockType::WhiteBed { facing, occupied, head_part } => (if facing == Direction::North { 0int } else { if facing == Direction::South { 1int } else { if facing == Direction::West { 2int } else { if facing == Direction::East { 3int } else { 4int } } } }) * 4 + (if occupied { 0int } else { 1int }) * 2 + (if head_part { 0int } else { 1int }),
        BlockType::OrangeBed { facing, occupied, head_part } => (if facing == Direction::North { 0int } else { if facing == Direction::South { 1int } else { if facing == Direction::West { 2int } else { if facing == Direction::East { 3int } else { 4int } } } }) * 4 + (if occupied { 0int } else { 1int }) * 2 + (if head_part { 0int } else { 1int }),
        BlockType::MagentaBed { facing, occupied, head_part } => (if facing == Direction::North { 0int } else { if facing == Direction::South { 1int } else { if facing == Direction::West { 2int } else { if facing == Direction::East { 3int } else { 4int } } } }) * 4 + (if occupied { 0int } else { 1int }) * 2 + (if head_part { 0int } else { 1int }),
        BlockType::LightBlueBed { facing, occupied, head_part } => (if facing == Direction::North { 0int } else { if facing == Direction::South { 1int } else { if facing == Direction::West { 2int } else { if facing == Direction::East { 3int } else { 4int } } } }) * 4 + (if occupied { 0int } else { 1int }) * 2 + (if head_part { 0int } else { 1int }),
        BlockType::YellowBed { facing, occupied, head_part } => (if facing == Direction::North { 0int } else { if facing == Direction::South { 1int } else { if facing == Direction::West { 2int } else { if facing == Direction::East { 3int } else { 4int } } } }) * 4 + (if occupied { 0int } else { 1int }) * 2 + (if head_part { 0int } else { 1int }),
        BlockType::LimeBed { facing, occupied, head_part } => (if facing == Direction::North { 0int } else { if facing == Direction::South { 1int } else { if facing == Direction::West { 2int } else { if facing == Direction::East { 3int } else { 4int } } } }) * 4 + (if occupied { 0int } else { 1int }) * 2 + (if head_part { 0int } else { 1int }),
        BlockType::PinkBed { facing, occupied, head_part } => (if facing == Direction::North { 0int } else { if facing == Direction::South { 1int } else { if facing == Direction::West { 2int } else { if facing == Direction::East { 3int } else { 4int } } } }) * 4 + (if occupied { 0int } else { 1int }) * 2 + (if head_part { 0int } else { 1int }),
        BlockType::GrayBed { facing, occupied, head_part } => (if facing == Direction::North { 0int } else { if facing == Direction::South { 1int } else { if facing == Direction::West { 2int } else { if facing == Direction::East { 3int } else { 4int } } } }) * 4 + (if occupied { 0int } else { 1int }) * 2 + (if head_part { 0int } else { 1int }),
        BlockType::LightGrayBed { facing, occupied, head_part } => (if facing == Direction::North { 0int } else { if facing == Direction::South { 1int } else { if facing == Direction::West { 2int } else { if facing == Direction::East { 3int } else { 4int } } } }) * 4 + (if occupied { 0int } else { 1int }) * 2 + (if head_part { 0int } else { 1int }),
        BlockType::CyanBed { facing, occupied, head_part } => (if facing == Direction::North { 0int } else { if facing == Direction::South { 1int } else { if facing == Direction::West { 2int } else { if facing == Direction::East { 3int } else { 4int } } } }) * 4 + (if occupied { 0int } else { 1int }) * 2 + (if head_part { 0int } else { 1int }),
        BlockType::PurpleBed { facing, occupied, head_part } => (if facing == Direction::North { 0int } else { if facing == Direction::South { 1int } else { if facing == Direction::West { 2int } else { if facing == Direction::East { 3int } else { 4int } } } }) * 4 + (if occupied { 0int } else { 1int }) * 2 + (if head_part { 0int } else { 1int }),
        BlockType::BlueBed { facing, occupied, head_part } => (if facing == Direction::North { 0int } else { if facing == Direction::South { 1int } else { if facing == Direction::West { 2int } else { if facing == Direction::East { 3int } else { 4int } } } }) * 4 + (if occupied { 0int } else { 1int }) * 2 + (if head_part { 0int } else { 1int }),
        BlockType::BrownBed { facing, occupied, head_part } => (if facing == Direction::North { 0int } else { if facing == Direction::South { 1int } else { if facing == Direction::West { 2int } else { if facing == Direction::East { 3int } else { 4int } } } }) * 4 + (if occupied { 0int } else { 1int }) * 2 + (if head_part { 0int } else { 1int }),
        BlockType::GreenBed { facing, occupied, head_part } => (if facing == Direction::North { 0int } else { if facing == Direction::South { 1int } else { if facing == Direction::West { 2int } else { if facing == Direction::East { 3int } else { 4int } } } }) * 4 + (if occupied { 0int } else { 1int }) * 2 + (if head_part { 0int } else { 1int }),
        BlockType::RedBed { facing, occupied, head_part } => (if facing == Direction::North { 0int } else { if facing == Direction::South { 1int } else { if facing == Direction::West { 2int } else { if facing == Direction::East { 3int } else { 4int } } } }) * 4 + (if occupied { 0int } else { 1int }) * 2 + (if head_part { 0int } else { 1int }),
        BlockType::BlackBed { facing, occupied, head_part } => (if facing == Direction::North { 0int } else { if facing == Direction::South { 1int } else { if facing == Direction::West { 2int } else { if facing == Direction::East { 3int } else { 4int } } } }) * 4 + (if occupied { 0int } else { 1int }) * 2 + (if head_part { 0int } else { 1int }),
        BlockType::PoweredRail { powered, shape } => (if powered { 0int } else { 1int }) * 6 + (if shape == RailShape::NorthSouth { 0int } else { if shape == RailShape::EastWest { 1int } else { if shape == RailShape::AscendingEast { 2int } else { if shape == RailShape::AscendingWest { 3int } else { if shape == RailShape::AscendingNorth { 4int } else { if shape == RailShape::AscendingSouth { 5int } else { 6int } } } } } }),
        BlockType::DetectorRail { .. } => 0,
        BlockType::StickyPiston { extended, facing } => (if extended { 0int } else { 1int }) * 6 + (if facing == Direction::North { 0int } else { if facing == Direction::East { 1int } else { if facing == Direction::South { 2int } else { if facing == Direction::West { 3int } else { if facing == Direction::Up { 4int } else { if facing == Direction::Down { 5int } else { 6int } } } } } }),
        BlockType::Cobweb { .. } => 0,
        BlockType::Grass { .. } => 0,
        BlockType::Fern { .. } => 0,
        BlockType::DeadBush { .. } => 0,
        BlockType::Seagrass { .. } => 0,
        BlockType::TallSeagrass { upper_half } => (if upper_half { 0int } else { 1int }),
        BlockType::Piston { .. } => 0,
        BlockType::PistonHead { facing, short, is_sticky } => (if facing == Direction::North { 0int } else { if facing == Direction::East { 1int } else { if facing == Direction::South { 2int } else { if facing == Direction::West { 3int } else { if facing == Direction::Up { 4int } else { if facing == Direction::Down { 5int } else { 6int } } } } } }) * 4 + (if short { 0int } else { 1int }) * 2 + (if is_sticky { 1int } else { 0int }),
        BlockType::WhiteWool { .. } => 0,
        BlockType::OrangeWool { .. } => 0,
        BlockType::MagentaWool { .. } => 0,
        BlockType::LightBlueWool { .. } => 0,
        BlockType::YellowWool { .. } => 0,
        BlockType::LimeWool { .. } => 0,
        BlockType::PinkWool { .. } => 0,
        BlockType::GrayWool { .. } => 0,
        BlockType::LightGrayWool { .. } => 0,
        BlockType::CyanWool { .. } => 0,
        BlockType::PurpleWool { .. } => 0,
        BlockType::BlueWool { .. } => 0,
        BlockType::BrownWool { .. } => 0,
        BlockType::GreenWool { .. } => 0,
        BlockType::RedWool { .. } => 0,
        BlockType::BlackWool { .. } => 0,
        BlockType::MovingPiston { facing, is_sticky } => (if facing == Direction::North { 0int } else { if facing == Direction::East { 1int } else { if facing == Direction::South { 2int } else { if facing == Direction::West { 3int } else { if facing == Direction::Up { 4int } else { if facing == Direction::Down { 5int } else { 6int } } } } } }) * 2 + (if is_sticky { 1int } else { 0int }),
        BlockType::Dandelion { .. } => 0,
        BlockType::Poppy { .. } => 0,
        BlockType::BlueOrchid { .. } => 0,
        BlockType::Allium { .. } => 0,
        BlockType::AzureBluet { .. } => 0,
        BlockType::RedTulip { .. } => 0,
        BlockType::OrangeTulip { .. } => 0,
        BlockType::WhiteTulip { .. } => 0,
        BlockType::PinkTulip { .. } => 0,
        BlockType::OxeyeDaisy { .. } => 0,
        BlockType::Cornflower { .. } => 0,
        BlockType::WitherRose { .. } => 0,
        BlockType::LilyOfTheValley { .. } => 0,
        BlockType::BrownMushroom { .. } => 0,
        BlockType::RedMushroom { .. } => 0,
        BlockType::GoldBlock { .. } => 0,
        BlockType::IronBlock { .. } => 0,
        BlockType::Bricks { .. } => 0,
        BlockType::TNT { unstable } => (if unstable { 0int } else { 1int }),
        BlockType::Bookshelf { .. } => 0,
        BlockType::MossyCobblestone { .. } => 0,
        BlockType::Obsidian { .. } => 0,
        BlockType::Torch { .. } => 0,
        BlockType::WallTorch { facing } => (if facing == Direction::North { 0int } else { if facing == Direction::South { 1int } else { if facing == Direction::West { 2int } else { if facing == Direction::East { 3int } else { 4int } } } }),
        BlockType::Fire { age, east, north, south, up, west } => (age as int - 0) * 32 + (if east { 0int } else { 1int }) * 16 + (if north { 0int } else { 1int }) * 8 + (if south { 0int } else { 1int }) * 4 + (if up { 0int } else { 1int }) * 2 + (if west { 0int } else { 1int }),
        BlockType::Spawner { .. } => 0,
        BlockType::OakStairs { facing, top, shape, waterlogged } => (if facing == Direction::North { 0int } else { if facing == Direction::South { 1int } else { if facing == Direction::West { 2int } else { if facing == Direction::East { 3int } else { 4int } } } }) * 20 + (if top { 0int } else { 1int }) * 10 + (if shape == StairShape::Straight { 0int } else { if shape == StairShape::InnerLeft { 1int } else { if shape == StairShape::InnerRight { 2int } else { if shape == StairShape::OuterLeft { 3int } else { if shape == StairShape::OuterRight { 4int } else { 5int } } } } }) * 2 + (if waterlogged { 0int } else { 1int }),
        BlockType::Chest { facing, chest_type, waterlogged } => (if facing == Direction::North { 0int } else { if facing == Direction::East { 1int } else { if facing == Direction::South { 2int } else { if facing == Direction::West { 3int } else { 4int } } } }) * 6 + (if chest_type == ChestType::Single { 0int } else { if chest_type == ChestType::Left { 1int } else { if chest_type == ChestType::Right { 2int } else { 3int } } }) * 2 + (if waterlogged { 1int } else { 0int }),
        BlockType::RedstoneWire { east, north, power, south, west } => (if east == RedstoneWireDirection::Up { 0int } else { if east == RedstoneWireDirection::Side { 1int } else { if east == RedstoneWireDirection::Unconnected { 2int } else { 3int } } }) * 432 + (if north == RedstoneWireDirection::Up { 0int } else { if north == RedstoneWireDirection::Side { 1int } else { if north == RedstoneWireDirection::Unconnected { 2int } else { 3int } } }) * 144 + (power as int - 0) * 9 + (if south == RedstoneWireDirection::Up { 0int } else { if south == RedstoneWireDirection::Side { 1int } else { if south == RedstoneWireDirection::Unconnected { 2int } else { 3int } } }) * 3 + (if west == RedstoneWireDirection::Up { 0int } else { if west == RedstoneWireDirection::Side { 1int } else { if west == RedstoneWireDirection::Unconnected { 2int } else { 3int } } }),
        BlockType::DiamondOre { .. } => 0,
        BlockType::DiamondBlock { .. } => 0,
        BlockType::CraftingTable { .. } => 0,
        BlockType::Wheat { age } => (age as int - 0),
    }
}

/// Whether every property value of a state is one its kind declares.
pub open spec fn state_valid(t: BlockType) -> bool {
    match t {
        BlockType::Air { .. } => true,
        BlockType::Stone { .. } => true,
        BlockType::Granite { .. } => true,
        BlockType::SmoothGranite { .. } => true,
        BlockType::Diorite { .. } => true,
        BlockType::SmoothDiorite { .. } => true,
        BlockType::Andesite { .. } => true,
        BlockType::SmoothAndesite { .. } => true,
        BlockType::GrassBlock { .. } => true,
        BlockType::Dirt { .. } => true,
        BlockType::CoarseDirt { .. } => true,
        BlockType::Podzol { .. } => true,
        BlockType::Cobblestone { .. } => true,
        BlockType::Planks { variant } => 0 <= (if variant == TreeVariant::Oak { 0int } else { if variant == TreeVariant::Spruce { 1int } else { if variant == TreeVariant::Birch { 2int } else { if variant == TreeVariant::Jungle { 3int } else { if variant == TreeVariant::Acacia { 4int } else { if variant == TreeVariant::DarkOak { 5int } else { 6int } } } } } }) < 6,
        BlockType::OakSapling { stage } => 0 <= (stage as int - 0) < 2,
        BlockType::SpruceSapling { stage } => 0 <= (stage as int - 0) < 2,
        BlockType::BirchSapling { stage } => 0 <= (stage as int - 0) < 2,
        BlockType::JungleSapling { stage } => 0 <= (stage as int - 0) < 2,
        BlockType::AcaciaSapling { stage } => 0 <= (stage as int - 0) < 2,
        BlockType::DarkOakSapling { stage } => 0 <= (stage as int - 0) < 2,
        BlockType::Bedrock { .. } => true,
        BlockType::Water { water } => 0 <= (water as int - 0) < 16,
        BlockType::Lava { .. } => true,
        BlockType::Sand { .. } => true,
        BlockType::RedSand { .. } => true,
        BlockType::Gravel { .. } => true,
        BlockType::GoldOre { .. } => true,
        BlockType::IronOre { .. } => true,
        BlockType::CoalOre { .. } => true,
        BlockType::OakLog { axis } => 0 <= (if axis == Axis::X { 0int } else { if axis == Axis::Y { 1int } else { if axis == Axis::Z { 2int } else { 3int } } }) < 3,
        BlockType::SpruceLog { axis } => 0 <= (if axis == Axis::X { 0int } else { if axis == Axis::Y { 1int } else { if axis == Axis::Z { 2int } else { 3int } } }) < 3,
        BlockType::BirchLog { axis } => 0 <= (if axis == Axis::X { 0int } else { if axis == Axis::Y { 1int } else { if axis == Axis::Z { 2int } else { 3int } } }) < 3,
        BlockType::JungleLog { axis } => 0 <= (if axis == Axis::X { 0int } else { if axis == Axis::Y { 1int } else { if axis == Axis::Z { 2int } else { 3int } } }) < 3,
        BlockType::AcaciaLog { axis } => 0 <= (if axis == Axis::X { 0int } else { if axis == Axis::Y { 1int } else { if axis == Axis::Z { 2int } else { 3int } } }) < 3,
        BlockType::DarkOakLog { axis } => 0 <= (if axis == Axis::X { 0int } else { if axis == Axis::Y { 1int } else { if axis == Axis::Z { 2int } else { 3int } } }) < 3,
        BlockType::StrippedSpruceLog { axis } => 0 <= (if axis == Axis::X { 0int } else { if axis == Axis::Y { 1int } else { if axis == Axis::Z { 2int } else { 3int } } }) < 3,
        BlockType::StrippedBirchLog { axis } => 0 <= (if axis == Axis::X { 0int } else { if axis == Axis::Y { 1int } else { if axis == Axis::Z { 2int } else { 3int } } }) < 3,
        BlockType::StrippedJungleLog { axis } => 0 <= (if axis == Axis::X { 0int } else { if axis == Axis::Y { 1int } else { if axis == Axis::Z { 2int } else { 3int } } }) < 3,
        BlockType::StrippedAcaciaLog { axis } => 0 <= (if axis == Axis::X { 0int } else { if axis == Axis::Y { 1int } else { if axis == Axis::Z { 2int } else { 3int } } }) < 3,
        BlockType::StrippedDarkOakLog { axis } => 0 <= (if axis == Axis::X { 0int } else { if axis == Axis::Y { 1int } else { if axis == Axis::Z { 2int } else { 3int } } }) < 3,
        BlockType::StrippedOakLog { axis } => 0 <= (if axis == Axis::X { 0int } else { if axis == Axis::Y { 1int } else { if axis == Axis::Z { 2int } else { 3int } } }) < 3,
        BlockType::OakWood { axis } => 0 <= (if axis == Axis::X { 0int } else { if axis == Axis::Y { 1int } else { if axis == Axis::Z { 2int } else { 3int } } }) < 3,
        BlockType::SpruceWood { axis } => 0 <= (if axis == Axis::X { 0int } else { if axis == Axis::Y { 1int } else { if axis == Axis::Z { 2int } else { 3int } } }) < 3,
        BlockType::BirchWood { axis } => 0 <= (if axis == Axis::X { 0int } else { if axis == Axis::Y { 1int } else { if axis == Axis::Z { 2int } else { 3int } } }) < 3,
        BlockType::JungleWood { axis } => 0 <= (if axis == Axis::X { 0int } else { if axis == Axis::Y { 1int } else { if axis == Axis::Z { 2int } else { 3int } } }) < 3,
        BlockType::AcaciaWood { axis } => 0 <= (if axis == Axis::X { 0int } else { if axis == Axis::Y { 1int } else { if axis == Axis::Z { 2int } else { 3int } } }) < 3,
        BlockType::DarkOakWood { axis } => 0 <= (if axis == Axis::X { 0int } else { if axis == Axis::Y { 1int } else { if axis == Axis::Z { 2int } else { 3int } } }) < 3,
        BlockType::StrippedOakWood { axis } => 0 <= (if axis == Axis::X { 0int } else { if axis == Axis::Y { 1int } else { if axis == Axis::Z { 2int } else { 3int } } }) < 3,
        BlockType::StrippedSpruceWood { axis } => 0 <= (if axis == Axis::X { 0int } else { if axis == Axis::Y { 1int } else { if axis == Axis::Z { 2int } else { 3int } } }) < 3,
        BlockType::StrippedBirchWood { axis } => 0 <= (if axis == Axis::X { 0int } else { if axis == Axis::Y { 1int } else { if axis == Axis::Z { 2int } else { 3int } } }) < 3,
        BlockType::StrippedJungleWood { axis } => 0 <= (if axis == Axis::X { 0int } else { if axis == Axis::Y { 1int } else { if axis == Axis::Z { 2int } else { 3int } } }) < 3,
        BlockType::StrippedAcaciaWood { axis } => 0 <= (if axis == Axis::X { 0int } else { if axis == Axis::Y { 1int } else { if axis == Axis::Z { 2int } else { 3int } } }) < 3,
        BlockType::StrippedDarkOakWood { axis } => 0 <= (if axis == Axis::X { 0int } else { if axis == Axis::Y { 1int } else { if axis == Axis::Z { 2int } else { 3int } } }) < 3,
        BlockType::OakLeaves { distance, persistent } => 0 <= (distance as int - 1) < 7,
        BlockType::SpruceLeaves { distance, persistent } => 0 <= (distance as int - 1) < 7,
        BlockType::BirchLeaves { distance, persistent } => 0 <= (distance as int - 1) < 7,
        BlockType::JungleLeaves { distance, persistent } => 0 <= (distance as int - 1) < 7,
        BlockType::AcaciaLeaves { distance, persistent } => 0 <= (distance as int - 1) < 7,
        BlockType::DarkOakLeaves { distance, persistent } => 0 <= (distance as int - 1) < 7,
        BlockType::Sponge { .. } => true,
        BlockType::WetSponge { .. } => true,
        BlockType::Glass { .. } => true,
        BlockType::LapisOre { .. } => true,
        BlockType::LapisBlock { .. } => true,
        BlockType::Dispenser { facing, triggered } => 0 <= (if facing == Direction::North { 0int } else { if facing == Direction::East { 1int } else { if facing == Direction::South { 2int } else { if facing == Direction::West { 3int } else { if facing == Direction::Up { 4int } else { if facing == Direction::Down { 5int } else { 6int } } } } } }) < 6,
        BlockType::Sandstone { .. } => true,
        BlockType::ChiseledSandstone { .. } => true,
        BlockType::CutSandstone { .. } => true,
        BlockType::NoteBlock { instrument, note, powered } => 0 <= (if instrument == Instrument::Harp { 0int } else { if instrument == Instrument::Basedrum { 1int } else { if instrument == Instrument::Snare { 2int } else { if instrument == Instrument::Hat { 3int } else { if instrument == Instrument::Bass { 4int } else { if instrument == Instrument::Flute { 5int } else { if instrument == Instrument::Bell { 6int } else { if instrument == Instrument::Guitar { 7int } else { if instrument == Instrument::Chime { 8int } else { if instrument == Instrument::Xylophone { 9int } else { if instrument == Instrument::IronXylophone { 10int } else { if instrument == Instrument::CowBell { 11int } else { if instrument == Instrument::Didgeridoo { 12int } else { if instrument == Instrument::Bit { 13int } else { if instrument == Instrument::Banjo { 14int } else { if instrument == Instrument::Pling { 15int } else { 16int } } } } } } } } } } } } } } } }) < 16 && 0 <= (note as int - 0) < 25,
        BlockType::WhiteBed { facing, occupied, head_part } => 0 <= (if facing == Direction::North { 0int } else { if facing == Direction::South { 1int } else { if facing == Direction::West { 2int } else { if facing == Direction::East { 3int } else { 4int } } } }) < 4,
        BlockType::OrangeBed { facing, occupied, head_part } => 0 <= (if facing == Direction::North { 0int } else { if facing == Direction::South { 1int } else { if facing == Direction::West { 2int } else { if facing == Direction::East { 3int } else { 4int } } } }) < 4,
        BlockType::MagentaBed { facing, occupied, head_part } => 0 <= (if facing == Direction::North { 0int } else { if facing == Direction::South { 1int } else { if facing == Direction::West { 2int } else { if facing == Direction::East { 3int } else { 4int } } } }) < 4,
        BlockType::LightBlueBed { facing, occupied, head_part } => 0 <= (if facing == Direction::North { 0int } else { if facing == Direction::South { 1int } else { if facing == Direction::West { 2int } else { if facing == Direction::East { 3int } else { 4int } } } }) < 4,
        BlockType::YellowBed { facing, occupied, head_part } => 0 <= (if facing == Direction::North { 0int } else { if facing == Direction::South { 1int } else { if facing == Direction::West { 2int } else { if facing == Direction::East { 3int } else { 4int } } } }) < 4,
        BlockType::LimeBed { facing, occupied, head_part } => 0 <= (if facing == Direction::North { 0int } else { if facing == Direction::South { 1int } else { if facing == Direction::West { 2int } else { if facing == Direction::East { 3int } else { 4int } } } }) < 4,
        BlockType::PinkBed { facing, occupied, head_part } => 0 <= (if facing == Direction::North { 0int } else { if facing == Direction::South { 1int } else { if facing == Direction::West { 2int } else { if facing == Direction::East { 3int } else { 4int } } } }) < 4,
        BlockType::GrayBed { facing, occupied, head_part } => 0 <= (if facing == Direction::North { 0int } else { if facing == Direction::South { 1int } else { if facing == Direction::West { 2int } else { if facing == Direction::East { 3int } else { 4int } } } }) < 4,
        BlockType::LightGrayBed { facing, occupied, head_part } => 0 <= (if facing == Direction::North { 0int } else { if facing == Direction::South { 1int } else { if facing == Direction::West { 2int } else { if facing == Direction::East { 3int } else { 4int } } } }) < 4,
        BlockType::CyanBed { facing, occupied, head_part } => 0 <= (if facing == Direction::North { 0int } else { if facing == Direction::South { 1int } else { if facing == Direction::West { 2int } else { if facing == Direction::East { 3int } else { 4int } } } }) < 4,
        BlockType::PurpleBed { facing, occupied, head_part } => 0 <= (if facing == Direction::North { 0int } else { if facing == Direction::South { 1int } else { if facing == Direction::West { 2int } else { if facing == Direction::East { 3int } else { 4int } } } }) < 4,
        BlockType::BlueBed { facing, occupied, head_part } => 0 <= (if facing == Direction::North { 0int } else { if facing == Direction::South { 1int } else { if facing == Direction::West { 2int } else { if facing == Direction::East { 3int } else { 4int } } } }) < 4,
        BlockType::BrownBed { facing, occupied, head_part } => 0 <= (if facing == Direction::North { 0int } else { if facing == Direction::South { 1int } else { if facing == Direction::West { 2int } else { if facing == Direction::East { 3int } else { 4int } } } }) < 4,
        BlockType::GreenBed { facing, occupied, head_part } => 0 <= (if facing == Direction::North { 0int } else { if facing == Direction::South { 1int } else { if facing == Direction::West { 2int } else { if facing == Direction::East { 3int } else { 4int } } } }) < 4,
        BlockType::RedBed { facing, occupied, head_part } => 0 <= (if facing == Direction::North { 0int } else { if facing == Direction::South { 1int } else { if facing == Direction::West { 2int } else { if facing == Direction::East { 3int } else { 4int } } } }) < 4,
        BlockType::BlackBed { facing, occupied, head_part } => 0 <= (if facing == Direction::North { 0int } else { if facing == Direction::South { 1int } else { if facing == Direction::West { 2int } else { if facing == Direction::East { 3int } else { 4int } } } }) < 4,
        BlockType::PoweredRail { powered, shape } => 0 <= (if shape == RailShape::NorthSouth { 0int } else { if shape == RailShape::EastWest { 1int } else { if shape == RailShape::AscendingEast { 2int } else { if shape == RailShape::AscendingWest { 3int } else { if shape == RailShape::AscendingNorth { 4int } else { if shape == RailShape::AscendingSouth { 5int } else { 6int } } } } } }) < 6,
        BlockType::DetectorRail { .. } => true,
        BlockType::StickyPiston { extended, facing } => 0 <= (if facing == Direction::North { 0int } else { if facing == Direction::East { 1int } else { if facing == Direction::South { 2int } else { if facing == Direction::West { 3int } else { if facing == Direction::Up { 4int } else { if facing == Direction::Down { 5int } else { 6int } } } } } }) < 6,
        BlockType::Cobweb { .. } => true,
        BlockType::Grass { .. } => true,
        BlockType::Fern { .. } => true,
        BlockType::DeadBush { .. } => true,
        BlockType::Seagrass { .. } => true,
        BlockType::TallSeagrass { .. } => true,
        BlockType::Piston { .. } => true,
        BlockType::PistonHead { facing, short, is_sticky } => 0 <= (if facing == Direction::North { 0int } else { if facing == Direction::East { 1int } else { if facing == Direction::South { 2int } else { if facing == Direction::West { 3int } else { if facing == Direction::Up { 4int } else { if facing == Direction::Down { 5int } else { 6int } } } } } }) < 6,
        BlockType::WhiteWool { .. } => true,
        BlockType::OrangeWool { .. } => true,
        BlockType::MagentaWool { .. } => true,
        BlockType::LightBlueWool { .. } => true,
        BlockType::YellowWool { .. } => true,
        BlockType::LimeWool { .. } => true,
        BlockType::PinkWool { .. } => true,
        BlockType::GrayWool { .. } => true,
        BlockType::LightGrayWool { .. } => true,
        BlockType::CyanWool { .. } => true,
        BlockType::PurpleWool { .. } => true,
        BlockType::BlueWool { .. } => true,
        BlockType::BrownWool { .. } => true,
        BlockType::GreenWool { .. } => true,
        BlockType::RedWool { .. } => true,
        BlockType::BlackWool { .. } => true,
        BlockType::MovingPiston { facing, is_sticky } => 0 <= (if facing == Direction::North { 0int } else { if facing == Direction::East { 1int } else { if facing == Direction::South { 2int } else { if facing == Direction::West { 3int } else { if facing == Direction::Up { 4int } else { if facing == Direction::Down { 5int } else { 6int } } } } } }) < 6,
        BlockType::Dandelion { .. } => true,
        BlockType::Poppy { .. } => true,
        BlockType::BlueOrchid { .. } => true,
        BlockType::Allium { .. } => true,
        BlockType::AzureBluet { .. } => true,
        BlockType::RedTulip { .. } => true,
        BlockType::OrangeTulip { .. } => true,
        BlockType::WhiteTulip { .. } => true,
        BlockType::PinkTulip { .. } => true,
        BlockType::OxeyeDaisy { .. } => true,
        BlockType::Cornflower { .. } => true,
        BlockType::WitherRose { .. } => true,
        BlockType::LilyOfTheValley { .. } => true,
        BlockType::BrownMushroom { .. } => true,
        BlockType::RedMushroom { .. } => true,
        BlockType::GoldBlock { .. } => true,
        BlockType::IronBlock { .. } => true,
        BlockType::Bricks { .. } => true,
        BlockType::TNT { .. } => true,
        BlockType::Bookshelf { .. } => true,
        BlockType::MossyCobblestone { .. } => true,
        BlockType::Obsidian { .. } => true,
        BlockType::Torch { .. } => true,
        BlockType::WallTorch { facing } => 0 <= (if facing == Direction::North { 0int } else { if facing == Direction::South { 1int } else { if facing == Direction::West { 2int } else { if facing == Direction::East { 3int } else { 4int } } } }) < 4,
        BlockType::Fire { age, east, north, south, up, west } => 0 <= (age as int - 0) < 16,
        BlockType::Spawner { .. } => true,
        BlockType::OakStairs { facing, top, shape, waterlogged } => 0 <= (if facing == Direction::North { 0int } else { if facing == Direction::South { 1int } else { if facing == Direction::West { 2int } else { if facing == Direction::East { 3int } else { 4int } } } }) < 4 && 0 <= (if shape == StairShape::Straight { 0int } else { if shape == StairShape::InnerLeft { 1int } else { if shape == StairShape::InnerRight { 2int } else { if shape == StairShape::OuterLeft { 3int } else { if shape == StairShape::OuterRight { 4int } else { 5int } } } } }) < 5,
        BlockType::Chest { facing, chest_type, waterlogged } => 0 <= (if facing == Direction::North { 0int } else { if facing == Direction::East { 1int } else { if facing == Direction::South { 2int } else { if facing == Direction::West { 3int } else { 4int } } } }) < 4 && 0 <= (if chest_type == ChestType::Single { 0int } else { if chest_type == ChestType::Left { 1int } else { if chest_type == ChestType::Right { 2int } else { 3int } } }) < 3,
        BlockType::RedstoneWire { east, north, power, south, west } => 0 <= (if east == RedstoneWireDirection::Up { 0int } else { if east == RedstoneWireDirection::Side { 1int } else { if east == RedstoneWireDirection::Unconnected { 2int } else { 3int } } }) < 3 && 0 <= (if north == RedstoneWireDirection::Up { 0int } else { if north == RedstoneWireDirection::Side { 1int } else { if north == RedstoneWireDirection::Unconnected { 2int } else { 3int } } }) < 3 && 0 <= (power as int - 0) < 16 && 0 <= (if south == RedstoneWireDirection::Up { 0int } else { if south == RedstoneWireDirection::Side { 1int } else { if south == RedstoneWireDirection::Unconnected { 2int } else { 3int } } }) < 3 && 0 <= (if west == RedstoneWireDirection::Up { 0int } else { if west == RedstoneWireDirection::Side { 1int } else { if west == RedstoneWireDirection::Unconnected { 2int } else { 3int } } }) < 3,
        BlockType::DiamondOre { .. } => true,
        BlockType::DiamondBlock { .. } => true,
        BlockType::CraftingTable { .. } => true,
        BlockType::Wheat { age } => 0 <= (age as int - 0) < 8,
    }
}

/// How many states kind `k` has: the product of the numbers of values of its
/// properties.
pub open spec fn kind_state_count(k: int) -> int {
    if k == 0 {
        1
    } else if k == 1 {
        1
    } else if k == 2 {
        1
    } else if k == 3 {
        1
    } else if k == 4 {
        1
    } else if k == 5 {
        1
    } else if k == 6 {
        1
    } else if k == 7 {
        1
    } else if k == 8 {
        2int
    } else if k == 9 {
        1
    } else if k == 10 {
        1
    } else if k == 11 {
        2int
    } else if k == 12 {
        1
    } else if k == 13 {
        6int
    } else if k == 14 {
        2int
    } else if k == 15 {
        2int
    } else if k == 16 {
        2int
    } else if k == 17 {
        2int
    } else if k == 18 {
        2int
    } else if k == 19 {
        2int
    } else if k == 20 {
        1
    } else if k == 21 {
        16int
    } else if k == 22 {
        16int
    } else if k == 23 {
        1
    } else if k == 24 {
        1
    } else if k == 25 {
        1
    } else if k == 26 {
        1
    } else if k == 27 {
        1
    } else if k == 28 {
        1
    } else if k == 29 {
        3int
    } else if k == 30 {
        3int
    } else if k == 31 {
        3int
    } else if k == 32 {
        3int
    } else if k == 33 {
        3int
    } else if k == 34 {
        3int
    } else if k == 35 {
        3int
    } else if k == 36 {
        3int
    } else if k == 37 {
        3int
    } else if k == 38 {
        3int
    } else if k == 39 {
        3int
    } else if k == 40 {
        3int
    } else if k == 41 {
        3int
    } else if k == 42 {
        3int
    } else if k == 43 {
        3int
    } else if k == 44 {
        3int
    } else if k == 45 {
        3int
    } else if k == 46 {
        3int
    } else if k == 47 {
        3int
    } else if k == 48 {
        3int
    } else if k == 49 {
        3int
    } else if k == 50 {
        3int
    } else if k == 51 {
        3int
    } else if k == 52 {
        3int
    } else if k == 53 {
        7int * 2
    } else if k == 54 {
        7int * 2
    } else if k == 55 {
        7int * 2
    } else if k == 56 {
        7int * 2
    } else if k == 57 {
        7int * 2
    } else if k == 58 {
        7int * 2
    } else if k == 59 {
        1
    } else if k == 60 {
        1
    } else if k == 61 {
        1
    } else if k == 62 {
        1
    } else if k == 63 {
        1
    } else if k == 64 {
        6int * 2
    } else if k == 65 {
        1
    } else if k == 66 {
        1
    } else if k == 67 {
        1
    } else if k == 68 {
        16int * 25 * 2
    } else if k == 69 {
        4int * 2 * 2
    } else if k == 70 {
        4int * 2 * 2
    } else if k == 71 {
        4int * 2 * 2
    } else if k == 72 {
        4int * 2 * 2
    } else if k == 73 {
        4int * 2 * 2
    } else if k == 74 {
        4int * 2 * 2
    } else if k == 75 {
        4int * 2 * 2
    } else if k == 76 {
        4int * 2 * 2
    } else if k == 77 {
        4int * 2 * 2
    } else if k == 78 {
        4int * 2 * 2
    } else if k == 79 {
        4int * 2 * 2
    } else if k == 80 {
        4int * 2 * 2
    } else if k == 81 {
        4int * 2 * 2
    } else if k == 82 {
        4int * 2 * 2
    } else if k == 83 {
        4int * 2 * 2
    } else if k == 84 {
        4int * 2 * 2
    } else if k == 85 {
        2int * 6
    } else if k == 86 {
        2int * 6
    } else if k == 87 {
        2int * 6
    } else if k == 88 {
        1
    } else if k == 89 {
        1
    } else if k == 90 {
        1
    } else if k == 91 {
        1
    } else if k == 92 {
        1
    } else if k == 93 {
        2int
    } else if k == 94 {
        2int * 6
    } else if k == 95 {
        6int * 2 * 2
    } else if k == 96 {
        1
    } else if k == 97 {
        1
    } else if k == 98 {
        1
    } else if k == 99 {
        1
    } else if k == 100 {
        1
    } else if k == 101 {
        1
    } else if k == 102 {
        1
    } else if k == 103 {
        1
    } else if k == 104 {
        1
    } else if k == 105 {
        1
    } else if k == 106 {
        1
    } else if k == 107 {
        1
    } else if k == 108 {
        1
    } else if k == 109 {
        1
    } else if k == 110 {
        1
    } else if k == 111 {
        1
    } else if k == 112 {
        6int * 2
    } else if k == 113 {
        1
    } else if k == 114 {
        1
    } else if k == 115 {
        1
    } else if k == 116 {
        1
    } else if k == 117 {
        1
    } else if k == 118 {
        1
    } else if k == 119 {
        1
    } else if k == 120 {
        1
    } else if k == 121 {
        1
    } else if k == 122 {
        1
    } else if k == 123 {
        1
    } else if k == 124 {
        1
    } else if k == 125 {
        1
    } else if k == 126 {
        1
    } else if k == 127 {
        1
    } else if k == 128 {
        1
    } else if k == 129 {
        1
    } else if k == 130 {
        1
    } else if k == 131 {
        2int
    } else if k == 132 {
        1
    } else if k == 133 {
        1
    } else if k == 134 {
        1
    } else if k == 135 {
        1
    } else if k == 136 {
        4int
    } else if k == 137 {
        16int * 2 * 2 * 2 * 2 * 2
    } else if k == 138 {
        1
    } else if k == 139 {
        4int * 2 * 5 * 2
    } else if k == 140 {
        4int * 3 * 2
    } else if k == 141 {
        3int * 3 * 16 * 3 * 3
    } else if k == 142 {
        1
    } else if k == 143 {
        1
    } else if k == 144 {
        1
    } else if k == 145 {
        8int
    } else {
        0
    }
}

/// The kind whose variant the states of kind `k` are written with: its own,
/// except that lava lists water states, the detector rail powered rail states
/// and the piston sticky piston states.
pub open spec fn state_variant_kind(k: int) -> int {
    if k == 22 { 21 } else { if k == 86 { 85 } else { if k == 94 { 87 } else { k } } }
}

/// The states of kind `k` are in odometer order: there are `kind_state_count(k)`
/// of them, and state `j` is the state of rank `j`, of the kind's variant, with
/// declared property values.
pub open spec fn kind_in_order(k: int) -> bool {
    &&& state_group(k).len() == kind_state_count(k)
    &&& forall|j: int| 0 <= j < state_group(k).len() ==> {
        &&& state_rank(#[trigger] state_group(k)[j]) == j
        &&& state_valid(state_group(k)[j])
        &&& kind_of(state_group(k)[j]) == state_variant_kind(k)
    }
}

proof fn lemma_order_air()
    ensures
        kind_in_order(0),
{
    let s = spec_states_air();
    assert(state_group(0) == s);
    assert forall|j: int| 0 <= j < s.len() implies {
        &&& state_rank(#[trigger] s[j]) == j
        &&& state_valid(s[j])
        &&& kind_of(s[j]) == state_variant_kind(0)
    } by {
    }
}

proof fn lemma_order_stone()
    ensures
        kind_in_order(1),
{
    let s = spec_states_stone();
    assert(state_group(1) == s);
    assert forall|j: int| 0 <= j < s.len() implies {
        &&& state_rank(#[trigger] s[j]) == j
        &&& state_valid(s[j])
        &&& kind_of(s[j]) == state_variant_kind(1)
    } by {
    }
}

proof fn lemma_order_granite()
    ensures
        kind_in_order(2),
{
    let s = spec_states_granite();
    assert(state_group(2) == s);
    assert forall|j: int| 0 <= j < s.len() implies {
        &&& state_rank(#[trigger] s[j]) == j
        &&& state_valid(s[j])
        &&& kind_of(s[j]) == state_variant_kind(2)
    } by {
    }
}

proof fn lemma_order_smooth_granite()
    ensures
        kind_in_order(3),
{
    let s = spec_states_smooth_granite();
    assert(state_group(3) == s);
    assert forall|j: int| 0 <= j < s.len() implies {
        &&& state_rank(#[trigger] s[j]) == j
        &&& state_valid(s[j])
        &&& kind_of(s[j]) == state_variant_kind(3)
    } by {
    }
}

proof fn lemma_order_diorite()
    ensures
        kind_in_order(4),
{
    let s = spec_states_diorite();
    assert(state_group(4) == s);
    assert forall|j: int| 0 <= j < s.len() implies {
        &&& state_rank(#[trigger] s[j]) == j
        &&& state_valid(s[j])
        &&& kind_of(s[j]) == state_variant_kind(4)
    } by {
    }
}

proof fn lemma_order_smooth_diorite()
    ensures
        kind_in_order(5),
{
    let s = spec_states_smooth_diorite();
    assert(state_group(5) == s);
    assert forall|j: int| 0 <= j < s.len() implies {
        &&& state_rank(#[trigger] s[j]) == j
        &&& state_valid(s[j])
        &&& kind_of(s[j]) == state_variant_kind(5)
    } by {
    }
}

proof fn lemma_order_andesite()
    ensures
        kind_in_order(6),
{
    let s = spec_states_andesite();
    assert(state_group(6) == s);
    assert forall|j: int| 0 <= j < s.len() implies {
        &&& state_rank(#[trigger] s[j]) == j
        &&& state_valid(s[j])
        &&& kind_of(s[j]) == state_variant_kind(6)
    } by {
    }
}

proof fn lemma_order_smooth_andesite()
    ensures
        kind_in_order(7),
{
    let s = spec_states_smooth_andesite();
    assert(state_group(7) == s);
    assert forall|j: int| 0 <= j < s.len() implies {
        &&& state_rank(#[trigger] s[j]) == j
        &&& state_valid(s[j])
        &&& kind_of(s[j]) == state_variant_kind(7)
    } by {
    }
}

proof fn lemma_order_grass_block()
    ensures
        kind_in_order(8),
{
    let s = spec_states_grass_block();
    assert(state_group(8) == s);
    assert forall|j: int| 0 <= j < s.len() implies {
        &&& state_rank(#[trigger] s[j]) == j
        &&& state_valid(s[j])
        &&& kind_of(s[j]) == state_variant_kind(8)
    } by {
    }
}

proof fn lemma_order_dirt()
    ensures
        kind_in_order(9),
{
    let s = spec_states_dirt();
    assert(state_group(9) == s);
    assert forall|j: int| 0 <= j < s.len() implies {
        &&& state_rank(#[trigger] s[j]) == j
        &&& state_valid(s[j])
        &&& kind_of(s[j]) == state_variant_kind(9)
    } by {
    }
}

proof fn lemma_order_coarse_dirt()
    ensures
        kind_in_order(10),
{
    let s = spec_states_coarse_dirt();
    assert(state_group(10) == s);
    assert forall|j: int| 0 <= j < s.len() implies {
        &&& state_rank(#[trigger] s[j]) == j
        &&& state_valid(s[j])
        &&& kind_of(s[j]) == state_variant_kind(10)
    } by {
    }
}

proof fn lemma_order_podzol()
    ensures
        kind_in_order(11),
{
    let s = spec_states_podzol();
    assert(state_group(11) == s);
    assert forall|j: int| 0 <= j < s.len() implies {
        &&& state_rank(#[trigger] s[j]) == j
        &&& state_valid(s[j])
        &&& kind_of(s[j]) == state_variant_kind(11)
    } by {
    }
}

proof fn lemma_order_cobblestone()
    ensures
        kind_in_order(12),
{
    let s = spec_states_cobblestone();
    assert(state_group(12) == s);
    assert forall|j: int| 0 <= j < s.len() implies {
        &&& state_rank(#[trigger] s[j]) == j
        &&& state_valid(s[j])
        &&& kind_of(s[j]) == state_variant_kind(12)
    } by {
    }
}

proof fn lemma_order_planks()
    ensures
        kind_in_order(13),
{
    let s = spec_states_planks();
    assert(state_group(13) == s);
    assert forall|j: int| 0 <= j < s.len() implies {
        &&& state_rank(#[trigger] s[j]) == j
        &&& state_valid(s[j])
        &&& kind_of(s[j]) == state_variant_kind(13)
    } by {
    }
}

proof fn lemma_order_oak_sapling()
    ensures
        kind_in_order(14),
{
    let s = spec_states_oak_sapling();
    assert(state_group(14) == s);
    assert forall|j: int| 0 <= j < s.len() implies {
        &&& state_rank(#[trigger] s[j]) == j
        &&& state_valid(s[j])
        &&& kind_of(s[j]) == state_variant_kind(14)
    } by {
    }
}

proof fn lemma_order_spruce_sapling()
    ensures
        kind_in_order(15),
{
    let s = spec_states_spruce_sapling();
    assert(state_group(15) == s);
    assert forall|j: int| 0 <= j < s.len() implies {
        &&& state_rank(#[trigger] s[j]) == j
        &&& state_valid(s[j])
        &&& kind_of(s[j]) == state_variant_kind(15)
    } by {
    }
}

proof fn lemma_order_birch_sapling()
    ensures
        kind_in_order(16),
{
    let s = spec_states_birch_sapling();
    assert(state_group(16) == s);
    assert forall|j: int| 0 <= j < s.len() implies {
        &&& state_rank(#[trigger] s[j]) == j
        &&& state_valid(s[j])
        &&& kind_of(s[j]) == state_variant_kind(16)
    } by {
    }
}

proof fn lemma_order_jungle_sapling()
    ensures
        kind_in_order(17),
{
    let s = spec_states_jungle_sapling();
    assert(state_group(17) == s);
    assert forall|j: int| 0 <= j < s.len() implies {
        &&& state_rank(#[trigger] s[j]) == j
        &&& state_valid(s[j])
        &&& kind_of(s[j]) == state_variant_kind(17)
    } by {
    }
}

proof fn lemma_order_acacia_sapling()
    ensures
        kind_in_order(18),
{
    let s = spec_states_acacia_sapling();
    assert(state_group(18) == s);
    assert forall|j: int| 0 <= j < s.len() implies {
        &&& state_rank(#[trigger] s[j]) == j
        &&& state_valid(s[j])
        &&& kind_of(s[j]) == state_variant_kind(18)
    } by {
    }
}

proof fn lemma_order_dark_oak_sapling()
    ensures
        kind_in_order(19),
{
    let s = spec_states_dark_oak_sapling();
    assert(state_group(19) == s);
    assert forall|j: int| 0 <= j < s.len() implies {
        &&& state_rank(#[trigger] s[j]) == j
        &&& state_valid(s[j])
        &&& kind_of(s[j]) == state_variant_kind(19)
    } by {
    }
}

proof fn lemma_order_bedrock()
    ensures
        kind_in_order(20),
{
    let s = spec_states_bedrock();
    assert(state_group(20) == s);
    assert forall|j: int| 0 <= j < s.len() implies {
        &&& state_rank(#[trigger] s[j]) == j
        &&& state_valid(s[j])
        &&& kind_of(s[j]) == state_variant_kind(20)
    } by {
    }
}

proof fn lemma_order_water()
    ensures
        kind_in_order(21),
{
    let s = spec_states_water();
    assert(state_group(21) == s);
    assert forall|j: int| 0 <= j < s.len() implies {
        &&& state_rank(#[trigger] s[j]) == j
        &&& state_valid(s[j])
        &&& kind_of(s[j]) == state_variant_kind(21)
    } by {
    }
}

proof fn lemma_order_lava()
    ensures
        kind_in_order(22),
{
    let s = spec_states_lava();
    assert(state_group(22) == s);
    assert forall|j: int| 0 <= j < s.len() implies {
        &&& state_rank(#[trigger] s[j]) == j
        &&& state_valid(s[j])
        &&& kind_of(s[j]) == state_variant_kind(22)
    } by {
    }
}

proof fn lemma_order_sand()
    ensures
        kind_in_order(23),
{
    let s = spec_states_sand();
    assert(state_group(23) == s);
    assert forall|j: int| 0 <= j < s.len() implies {
        &&& state_rank(#[trigger] s[j]) == j
        &&& state_valid(s[j])
        &&& kind_of(s[j]) == state_variant_kind(23)
    } by {
    }
}

proof fn lemma_order_red_sand()
    ensures
        kind_in_order(24),
{
    let s = spec_states_red_sand();
    assert(state_group(24) == s);
    assert forall|j: int| 0 <= j < s.len() implies {
        &&& state_rank(#[trigger] s[j]) == j
        &&& state_valid(s[j])
        &&& kind_of(s[j]) == state_variant_kind(24)
    } by {
    }
}

proof fn lemma_order_gravel()
    ensures
        kind_in_order(25),
{
    let s = spec_states_gravel();
    assert(state_group(25) == s);
    assert forall|j: int| 0 <= j < s.len() implies {
        &&& state_rank(#[trigger] s[j]) == j
        &&& state_valid(s[j])
        &&& kind_of(s[j]) == state_variant_kind(25)
    } by {
    }
}

proof fn lemma_order_gold_ore()
    ensures
        kind_in_order(26),
{
    let s = spec_states_gold_ore();
    assert(state_group(26) == s);
    assert forall|j: int| 0 <= j < s.len() implies {
        &&& state_rank(#[trigger] s[j]) == j
        &&& state_valid(s[j])
        &&& kind_of(s[j]) == state_variant_kind(26)
    } by {
    }
}

proof fn lemma_order_iron_ore()
    ensures
        kind_in_order(27),
{
    let s = spec_states_iron_ore();
    assert(state_group(27) == s);
    assert forall|j: int| 0 <= j < s.len() implies {
        &&& state_rank(#[trigger] s[j]) == j
        &&& state_valid(s[j])
        &&& kind_of(s[j]) == state_variant_kind(27)
    } by {
    }
}

proof fn lemma_order_coal_ore()
    ensures
        kind_in_order(28),
{
    let s = spec_states_coal_ore();
    assert(state_group(28) == s);
    assert forall|j: int| 0 <= j < s.len() implies {
        &&& state_rank(#[trigger] s[j]) == j
        &&& state_valid(s[j])
        &&& kind_of(s[j]) == state_variant_kind(28)
    } by {
    }
}

proof fn lemma_order_oak_log()
    ensures
        kind_in_order(29),
{
    let s = spec_states_oak_log();
    assert(state_group(29) == s);
    assert forall|j: int| 0 <= j < s.len() implies {
        &&& state_rank(#[trigger] s[j]) == j
        &&& state_valid(s[j])
        &&& kind_of(s[j]) == state_variant_kind(29)
    } by {
    }
}

proof fn lemma_order_spruce_log()
    ensures
        kind_in_order(30),
{
    let s = spec_states_spruce_log();
    assert(state_group(30) == s);
    assert forall|j: int| 0 <= j < s.len() implies {
        &&& state_rank(#[trigger] s[j]) == j
        &&& state_valid(s[j])
        &&& kind_of(s[j]) == state_variant_kind(30)
    } by {
    }
}

proof fn lemma_order_birch_log()
    ensures
        kind_in_order(31),
{
    let s = spec_states_birch_log();
    assert(state_group(31) == s);
    assert forall|j: int| 0 <= j < s.len() implies {
        &&& state_rank(#[trigger] s[j]) == j
        &&& state_valid(s[j])
        &&& kind_of(s[j]) == state_variant_kind(31)
    } by {
    }
}

proof fn lemma_order_jungle_log()
    ensures
        kind_in_order(32),
{
    let s = spec_states_jungle_log();
    assert(state_group(32) == s);
    assert forall|j: int| 0 <= j < s.len() implies {
        &&& state_rank(#[trigger] s[j]) == j
        &&& state_valid(s[j])
        &&& kind_of(s[j]) == state_variant_kind(32)
    } by {
    }
}

proof fn lemma_order_acacia_log()
    ensures
        kind_in_order(33),
{
    let s = spec_states_acacia_log();
    assert(state_group(33) == s);
    assert forall|j: int| 0 <= j < s.len() implies {
        &&& state_rank(#[trigger] s[j]) == j
        &&& state_valid(s[j])
        &&& kind_of(s[j]) == state_variant_kind(33)
    } by {
    }
}

proof fn lemma_order_dark_oak_log()
    ensures
        kind_in_order(34),
{
    let s = spec_states_dark_oak_log();
    assert(state_group(34) == s);
    assert forall|j: int| 0 <= j < s.len() implies {
        &&& state_rank(#[trigger] s[j]) == j
        &&& state_valid(s[j])
        &&& kind_of(s[j]) == state_variant_kind(34)
    } by {
    }
}

proof fn lemma_order_stripped_spruce_log()
    ensures
        kind_in_order(35),
{
    let s = spec_states_stripped_spruce_log();
    assert(state_group(35) == s);
    assert forall|j: int| 0 <= j < s.len() implies {
        &&& state_rank(#[trigger] s[j]) == j
        &&& state_valid(s[j])
        &&& kind_of(s[j]) == state_variant_kind(35)
    } by {
    }
}

proof fn lemma_order_stripped_birch_log()
    ensures
        kind_in_order(36),
{
    let s = spec_states_stripped_birch_log();
    assert(state_group(36) == s);
    assert forall|j: int| 0 <= j < s.len() implies {
        &&& state_rank(#[trigger] s[j]) == j
        &&& state_valid(s[j])
        &&& kind_of(s[j]) == state_variant_kind(36)
    } by {
    }
}

proof fn lemma_order_stripped_jungle_log()
    ensures
        kind_in_order(37),
{
    let s = spec_states_stripped_jungle_log();
    assert(state_group(37) == s);
    assert forall|j: int| 0 <= j < s.len() implies {
        &&& state_rank(#[trigger] s[j]) == j
        &&& state_valid(s[j])
        &&& kind_of(s[j]) == state_variant_kind(37)
    } by {
    }
}

proof fn lemma_order_stripped_acacia_log()
    ensures
        kind_in_order(38),
{
    let s = spec_states_stripped_acacia_log();
    assert(state_group(38) == s);
    assert forall|j: int| 0 <= j < s.len() implies {
        &&& state_rank(#[trigger] s[j]) == j
        &&& state_valid(s[j])
        &&& kind_of(s[j]) == state_variant_kind(38)
    } by {
    }
}

proof fn lemma_order_stripped_dark_oak_log()
    ensures
        kind_in_order(39),
{
    let s = spec_states_stripped_dark_oak_log();
    assert(state_group(39) == s);
    assert forall|j: int| 0 <= j < s.len() implies {
        &&& state_rank(#[trigger] s[j]) == j
        &&& state_valid(s[j])
        &&& kind_of(s[j]) == state_variant_kind(39)
    } by {
    }
}

proof fn lemma_order_stripped_oak_log()
    ensures
        kind_in_order(40),
{
    let s = spec_states_stripped_oak_log();
    assert(state_group(40) == s);
    assert forall|j: int| 0 <= j < s.len() implies {
        &&& state_rank(#[trigger] s[j]) == j
        &&& state_valid(s[j])
        &&& kind_of(s[j]) == state_variant_kind(40)
    } by {
    }
}

proof fn lemma_order_oak_wood()
    ensures
        kind_in_order(41),
{
    let s = spec_states_oak_wood();
    assert(state_group(41) == s);
    assert forall|j: int| 0 <= j < s.len() implies {
        &&& state_rank(#[trigger] s[j]) == j
        &&& state_valid(s[j])
        &&& kind_of(s[j]) == state_variant_kind(41)
    } by {
    }
}

proof fn lemma_order_spruce_wood()
    ensures
        kind_in_order(42),
{
    let s = spec_states_spruce_wood();
    assert(state_group(42) == s);
    assert forall|j: int| 0 <= j < s.len() implies {
        &&& state_rank(#[trigger] s[j]) == j
        &&& state_valid(s[j])
        &&& kind_of(s[j]) == state_variant_kind(42)
    } by {
    }
}

proof fn lemma_order_birch_wood()
    ensures
        kind_in_order(43),
{
    let s = spec_states_birch_wood();
    assert(state_group(43) == s);
    assert forall|j: int| 0 <= j < s.len() implies {
        &&& state_rank(#[trigger] s[j]) == j
        &&& state_valid(s[j])
        &&& kind_of(s[j]) == state_variant_kind(43)
    } by {
    }
}

proof fn lemma_order_jungle_wood()
    ensures
        kind_in_order(44),
{
    let s = spec_states_jungle_wood();
    assert(state_group(44) == s);
    assert forall|j: int| 0 <= j < s.len() implies {
        &&& state_rank(#[trigger] s[j]) == j
        &&& state_valid(s[j])
        &&& kind_of(s[j]) == state_variant_kind(44)
    } by {
    }
}

proof fn lemma_order_acacia_wood()
    ensures
        kind_in_order(45),
{
    let s = spec_states_acacia_wood();
    assert(state_group(45) == s);
    assert forall|j: int| 0 <= j < s.len() implies {
        &&& state_rank(#[trigger] s[j]) == j
        &&& state_valid(s[j])
        &&& kind_of(s[j]) == state_variant_kind(45)
    } by {
    }
}

proof fn lemma_order_dark_oak_wood()
    ensures
        kind_in_order(46),
{
    let s = spec_states_dark_oak_wood();
    assert(state_group(46) == s);
    assert forall|j: int| 0 <= j < s.len() implies {
        &&& state_rank(#[trigger] s[j]) == j
        &&& state_valid(s[j])
        &&& kind_of(s[j]) == state_variant_kind(46)
    } by {
    }
}

proof fn lemma_order_stripped_oak_wood()
    ensures
        kind_in_order(47),
{
    let s = spec_states_stripped_oak_wood();
    assert(state_group(47) == s);
    assert forall|j: int| 0 <= j < s.len() implies {
        &&& state_rank(#[trigger] s[j]) == j
        &&& state_valid(s[j])
        &&& kind_of(s[j]) == state_variant_kind(47)
    } by {
    }
}

proof fn lemma_order_stripped_spruce_wood()
    ensures
        kind_in_order(48),
{
    let s = spec_states_stripped_spruce_wood();
    assert(state_group(48) == s);
    assert forall|j: int| 0 <= j < s.len() implies {
        &&& state_rank(#[trigger] s[j]) == j
        &&& state_valid(s[j])
        &&& kind_of(s[j]) == state_variant_kind(48)
    } by {
    }
}

proof fn lemma_order_stripped_birch_wood()
    ensures
        kind_in_order(49),
{
    let s = spec_states_stripped_birch_wood();
    assert(state_group(49) == s);
    assert forall|j: int| 0 <= j < s.len() implies {
        &&& state_rank(#[trigger] s[j]) == j
        &&& state_valid(s[j])
        &&& kind_of(s[j]) == state_variant_kind(49)
    } by {
    }
}

proof fn lemma_order_stripped_jungle_wood()
    ensures
        kind_in_order(50),
{
    let s = spec_states_stripped_jungle_wood();
    assert(state_group(50) == s);
    assert forall|j: int| 0 <= j < s.len() implies {
        &&& state_rank(#[trigger] s[j]) == j
        &&& state_valid(s[j])
        &&& kind_of(s[j]) == state_variant_kind(50)
    } by {
    }
}

proof fn lemma_order_stripped_acacia_wood()
    ensures
        kind_in_order(51),
{
    let s = spec_states_stripped_acacia_wood();
    assert(state_group(51) == s);
    assert forall|j: int| 0 <= j < s.len() implies {
        &&& state_rank(#[trigger] s[j]) == j
        &&& state_valid(s[j])
        &&& kind_of(s[j]) == state_variant_kind(51)
    } by {
    }
}

proof fn lemma_order_stripped_dark_oak_wood()
    ensures
        kind_in_order(52),
{
    let s = spec_states_stripped_dark_oak_wood();
    assert(state_group(52) == s);
    assert forall|j: int| 0 <= j < s.len() implies {
        &&& state_rank(#[trigger] s[j]) == j
        &&& state_valid(s[j])
        &&& kind_of(s[j]) == state_variant_kind(52)
    } by {
    }
}

proof fn lemma_rank_oak_leaves(j: int)
    requires
        0 <= j < 14,
    ensures
        state_rank(state_oak_leaves(j)) == j,
        state_valid(state_oak_leaves(j)),
        kind_of(state_oak_leaves(j)) == 53,
{
    let d0 = j / 2;
    assert(0 <= d0 < 7);
    let d1 = (j) % 2;
    assert(0 <= d1 < 2);
    assert(j == 2 * (j / 2) + (j) % 2);
    assert(j == 2 * d0 + d1);
}

proof fn lemma_order_oak_leaves()
    ensures
        kind_in_order(53),
{
    let s = spec_states_oak_leaves();
    assert(state_group(53) == s);
    assert forall|j: int| 0 <= j < s.len() implies {
        &&& state_rank(#[trigger] s[j]) == j
        &&& state_valid(s[j])
        &&& kind_of(s[j]) == state_variant_kind(53)
    } by {
        assert(s[j] == state_oak_leaves(j));
        lemma_rank_oak_leaves(j);
    }
}

proof fn lemma_rank_spruce_leaves(j: int)
    requires
        0 <= j < 14,
    ensures
        state_rank(state_spruce_leaves(j)) == j,
        state_valid(state_spruce_leaves(j)),
        kind_of(state_spruce_leaves(j)) == 54,
{
    let d0 = j / 2;
    assert(0 <= d0 < 7);
    let d1 = (j) % 2;
    assert(0 <= d1 < 2);
    assert(j == 2 * (j / 2) + (j) % 2);
    assert(j == 2 * d0 + d1);
}

proof fn lemma_order_spruce_leaves()
    ensures
        kind_in_order(54),
{
    let s = spec_states_spruce_leaves();
    assert(state_group(54) == s);
    assert forall|j: int| 0 <= j < s.len() implies {
        &&& state_rank(#[trigger] s[j]) == j
        &&& state_valid(s[j])
        &&& kind_of(s[j]) == state_variant_kind(54)
    } by {
        assert(s[j] == state_spruce_leaves(j));
        lemma_rank_spruce_leaves(j);
    }
}

proof fn lemma_rank_birch_leaves(j: int)
    requires
        0 <= j < 14,
    ensures
        state_rank(state_birch_leaves(j)) == j,
        state_valid(state_birch_leaves(j)),
        kind_of(state_birch_leaves(j)) == 55,
{
    let d0 = j / 2;
    assert(0 <= d0 < 7);
    let d1 = (j) % 2;
    assert(0 <= d1 < 2);
    assert(j == 2 * (j / 2) + (j) % 2);
    assert(j == 2 * d0 + d1);
}

proof fn lemma_order_birch_leaves()
    ensures
        kind_in_order(55),
{
    let s = spec_states_birch_leaves();
    assert(state_group(55) == s);
    assert forall|j: int| 0 <= j < s.len() implies {
        &&& state_rank(#[trigger] s[j]) == j
        &&& state_valid(s[j])
        &&& kind_of(s[j]) == state_variant_kind(55)
    } by {
        assert(s[j] == state_birch_leaves(j));
        lemma_rank_birch_leaves(j);
    }
}

proof fn lemma_rank_jungle_leaves(j: int)
    requires
        0 <= j < 14,
    ensures
        state_rank(state_jungle_leaves(j)) == j,
        state_valid(state_jungle_leaves(j)),
        kind_of(state_jungle_leaves(j)) == 56,
{
    let d0 = j / 2;
    assert(0 <= d0 < 7);
    let d1 = (j) % 2;
    assert(0 <= d1 < 2);
    assert(j == 2 * (j / 2) + (j) % 2);
    assert(j == 2 * d0 + d1);
}

proof fn lemma_order_jungle_leaves()
    ensures
        kind_in_order(56),
{
    let s = spec_states_jungle_leaves();
    assert(state_group(56) == s);
    assert forall|j: int| 0 <= j < s.len() implies {
        &&& state_rank(#[trigger] s[j]) == j
        &&& state_valid(s[j])
        &&& kind_of(s[j]) == state_variant_kind(56)
    } by {
        assert(s[j] == state_jungle_leaves(j));
        lemma_rank_jungle_leaves(j);
    }
}

proof fn lemma_rank_acacia_leaves(j: int)
    requires
        0 <= j < 14,
    ensures
        state_rank(state_acacia_leaves(j)) == j,
        state_valid(state_acacia_leaves(j)),
        kind_of(state_acacia_leaves(j)) == 57,
{
    let d0 = j / 2;
    assert(0 <= d0 < 7);
    let d1 = (j) % 2;
    assert(0 <= d1 < 2);
    assert(j == 2 * (j / 2) + (j) % 2);
    assert(j == 2 * d0 + d1);
}

proof fn lemma_order_acacia_leaves()
    ensures
        kind_in_order(57),
{
    let s = spec_states_acacia_leaves();
    assert(state_group(57) == s);
    assert forall|j: int| 0 <= j < s.len() implies {
        &&& state_rank(#[trigger] s[j]) == j
        &&& state_valid(s[j])
        &&& kind_of(s[j]) == state_variant_kind(57)
    } by {
        assert(s[j] == state_acacia_leaves(j));
        lemma_rank_acacia_leaves(j);
    }
}

proof fn lemma_rank_dark_oak_leaves(j: int)
    requires
        0 <= j < 14,
    ensures
        state_rank(state_dark_oak_leaves(j)) == j,
        state_valid(state_dark_oak_leaves(j)),
        kind_of(state_dark_oak_leaves(j)) == 58,
{
    let d0 = j / 2;
    assert(0 <= d0 < 7);
    let d1 = (j) % 2;
    assert(0 <= d1 < 2);
    assert(j == 2 * (j / 2) + (j) % 2);
    assert(j == 2 * d0 + d1);
}

proof fn lemma_order_dark_oak_leaves()
    ensures
        kind_in_order(58),
{
    let s = spec_states_dark_oak_leaves();
    assert(state_group(58) == s);
    assert forall|j: int| 0 <= j < s.len() implies {
        &&& state_rank(#[trigger] s[j]) == j
        &&& state_valid(s[j])
        &&& kind_of(s[j]) == state_variant_kind(58)
    } by {
        assert(s[j] == state_dark_oak_leaves(j));
        lemma_rank_dark_oak_leaves(j);
    }
}

proof fn lemma_order_sponge()
    ensures
        kind_in_order(59),
{
    let s = spec_states_sponge();
    assert(state_group(59) == s);
    assert forall|j: int| 0 <= j < s.len() implies {
        &&& state_rank(#[trigger] s[j]) == j
        &&& state_valid(s[j])
        &&& kind_of(s[j]) == state_variant_kind(59)
    } by {
    }
}

proof fn lemma_order_wet_sponge()
    ensures
        kind_in_order(60),
{
    let s = spec_states_wet_sponge();
    assert(state_group(60) == s);
    assert forall|j: int| 0 <= j < s.len() implies {
        &&& state_rank(#[trigger] s[j]) == j
        &&& state_valid(s[j])
        &&& kind_of(s[j]) == state_variant_kind(60)
    } by {
    }
}

proof fn lemma_order_glass()
    ensures
        kind_in_order(61),
{
    let s = spec_states_glass();
    assert(state_group(61) == s);
    assert forall|j: int| 0 <= j < s.len() implies {
        &&& state_rank(#[trigger] s[j]) == j
        &&& state_valid(s[j])
        &&& kind_of(s[j]) == state_variant_kind(61)
    } by {
    }
}

proof fn lemma_order_lapis_ore()
    ensures
        kind_in_order(62),
{
    let s = spec_states_lapis_ore();
    assert(state_group(62) == s);
    assert forall|j: int| 0 <= j < s.len() implies {
        &&& state_rank(#[trigger] s[j]) == j
        &&& state_valid(s[j])
        &&& kind_of(s[j]) == state_variant_kind(62)
    } by {
    }
}

proof fn lemma_order_lapis_block()
    ensures
        kind_in_order(63),
{
    let s = spec_states_lapis_block();
    assert(state_group(63) == s);
    assert forall|j: int| 0 <= j < s.len() implies {
        &&& state_rank(#[trigger] s[j]) == j
        &&& state_valid(s[j])
        &&& kind_of(s[j]) == state_variant_kind(63)
    } by {
    }
}

proof fn lemma_rank_dispenser(j: int)
    requires
        0 <= j < 12,
    ensures
        state_rank(state_dispenser(j)) == j,
        state_valid(state_dispenser(j)),
        kind_of(state_dispenser(j)) == 64,
{
    let d0 = j / 2;
    assert(0 <= d0 < 6);
    let d1 = (j) % 2;
    assert(0 <= d1 < 2);
    assert(j == 2 * (j / 2) + (j) % 2);
    assert(j == 2 * d0 + d1);
}

proof fn lemma_order_dispenser()
    ensures
        kind_in_order(64),
{
    let s = spec_states_dispenser();
    assert(state_group(64) == s);
    assert forall|j: int| 0 <= j < s.len() implies {
        &&& state_rank(#[trigger] s[j]) == j
        &&& state_valid(s[j])
        &&& kind_of(s[j]) == state_variant_kind(64)
    } by {
        assert(s[j] == state_dispenser(j));
        lemma_rank_dispenser(j);
    }
}

proof fn lemma_order_sandstone()
    ensures
        kind_in_order(65),
{
    let s = spec_states_sandstone();
    assert(state_group(65) == s);
    assert forall|j: int| 0 <= j < s.len() implies {
        &&& state_rank(#[trigger] s[j]) == j
        &&& state_valid(s[j])
        &&& kind_of(s[j]) == state_variant_kind(65)
    } by {
    }
}

proof fn lemma_order_chiseled_sandstone()
    ensures
        kind_in_order(66),
{
    let s = spec_states_chiseled_sandstone();
    assert(state_group(66) == s);
    assert forall|j: int| 0 <= j < s.len() implies {
        &&& state_rank(#[trigger] s[j]) == j
        &&& state_valid(s[j])
        &&& kind_of(s[j]) == state_variant_kind(66)
    } by {
    }
}

proof fn lemma_order_cut_sandstone()
    ensures
        kind_in_order(67),
{
    let s = spec_states_cut_sandstone();
    assert(state_group(67) == s);
    assert forall|j: int| 0 <= j < s.len() implies {
        &&& state_rank(#[trigger] s[j]) == j
        &&& state_valid(s[j])
        &&& kind_of(s[j]) == state_variant_kind(67)
    } by {
    }
}

#[verifier::rlimit(100)]
proof fn lemma_rank_note_block(j: int)
    requires
        0 <= j < 800,
    ensures
        state_rank(state_note_block(j)) == j,
        state_valid(state_note_block(j)),
        kind_of(state_note_block(j)) == 68,
{
    let d0 = j / 50;
    assert(0 <= d0 < 16);
    let d1 = (j / 2) % 25;
    assert(0 <= d1 < 25);
    let d2 = (j) % 2;
    assert(0 <= d2 < 2);
    assert(j == 2 * (j / 2) + (j) % 2);
    assert(j / 2 == 25 * (j / 50) + (j / 2) % 25);
    assert(j == 50 * d0 + 2 * d1 + d2);
}

proof fn lemma_order_note_block()
    ensures
        kind_in_order(68),
{
    let s = spec_states_note_block();
    assert(state_group(68) == s);
    assert forall|j: int| 0 <= j < s.len() implies {
        &&& state_rank(#[trigger] s[j]) == j
        &&& state_valid(s[j])
        &&& kind_of(s[j]) == state_variant_kind(68)
    } by {
        assert(s[j] == state_note_block(j));
        lemma_rank_note_block(j);
    }
}

#[verifier::rlimit(100)]
proof fn lemma_rank_white_bed(j: int)
    requires
        0 <= j < 16,
    ensures
        state_rank(state_white_bed(j)) == j,
        state_valid(state_white_bed(j)),
        kind_of(state_white_bed(j)) == 69,
{
    let d0 = j / 4;
    assert(0 <= d0 < 4);
    let d1 = (j / 2) % 2;
    assert(0 <= d1 < 2);
    let d2 = (j) % 2;
    assert(0 <= d2 < 2);
    assert(j == 2 * (j / 2) + (j) % 2);
    assert(j / 2 == 2 * (j / 4) + (j / 2) % 2);
    assert(j == 4 * d0 + 2 * d1 + d2);
}

proof fn lemma_order_white_bed()
    ensures
        kind_in_order(69),
{
    let s = spec_states_white_bed();
    assert(state_group(69) == s);
    assert forall|j: int| 0 <= j < s.len() implies {
        &&& state_rank(#[trigger] s[j]) == j
        &&& state_valid(s[j])
        &&& kind_of(s[j]) == state_variant_kind(69)
    } by {
        assert(s[j] == state_white_bed(j));
        lemma_rank_white_bed(j);
    }
}

#[verifier::rlimit(100)]
proof fn lemma_rank_orange_bed(j: int)
    requires
        0 <= j < 16,
    ensures
        state_rank(state_orange_bed(j)) == j,
        state_valid(state_orange_bed(j)),
        kind_of(state_orange_bed(j)) == 70,
{
    let d0 = j / 4;
    assert(0 <= d0 < 4);
    let d1 = (j / 2) % 2;
    assert(0 <= d1 < 2);
    let d2 = (j) % 2;
    assert(0 <= d2 < 2);
    assert(j == 2 * (j / 2) + (j) % 2);
    assert(j / 2 == 2 * (j / 4) + (j / 2) % 2);
    assert(j == 4 * d0 + 2 * d1 + d2);
}

proof fn lemma_order_orange_bed()
    ensures
        kind_in_order(70),
{
    let s = spec_states_orange_bed();
    assert(state_group(70) == s);
    assert forall|j: int| 0 <= j < s.len() implies {
        &&& state_rank(#[trigger] s[j]) == j
        &&& state_valid(s[j])
        &&& kind_of(s[j]) == state_variant_kind(70)
    } by {
        assert(s[j] == state_orange_bed(j));
        lemma_rank_orange_bed(j);
    }
}

#[verifier::rlimit(100)]
proof fn lemma_rank_magenta_bed(j: int)
    requires
        0 <= j < 16,
    ensures
        state_rank(state_magenta_bed(j)) == j,
        state_valid(state_magenta_bed(j)),
        kind_of(state_magenta_bed(j)) == 71,
{
    let d0 = j / 4;
    assert(0 <= d0 < 4);
    let d1 = (j / 2) % 2;
    assert(0 <= d1 < 2);
    let d2 = (j) % 2;
    assert(0 <= d2 < 2);
    assert(j == 2 * (j / 2) + (j) % 2);
    assert(j / 2 == 2 * (j / 4) + (j / 2) % 2);
    assert(j == 4 * d0 + 2 * d1 + d2);
}

proof fn lemma_order_magenta_bed()
    ensures
        kind_in_order(71),
{
    let s = spec_states_magenta_bed();
    assert(state_group(71) == s);
    assert forall|j: int| 0 <= j < s.len() implies {
        &&& state_rank(#[trigger] s[j]) == j
        &&& state_valid(s[j])
        &&& kind_of(s[j]) == state_variant_kind(71)
    } by {
        assert(s[j] == state_magenta_bed(j));
        lemma_rank_magenta_bed(j);
    }
}

#[verifier::rlimit(100)]
proof fn lemma_rank_light_blue_bed(j: int)
    requires
        0 <= j < 16,
    ensures
        state_rank(state_light_blue_bed(j)) == j,
        state_valid(state_light_blue_bed(j)),
        kind_of(state_light_blue_bed(j)) == 72,
{
    let d0 = j / 4;
    assert(0 <= d0 < 4);
    let d1 = (j / 2) % 2;
    assert(0 <= d1 < 2);
    let d2 = (j) % 2;
    assert(0 <= d2 < 2);
    assert(j == 2 * (j / 2) + (j) % 2);
    assert(j / 2 == 2 * (j / 4) + (j / 2) % 2);
    assert(j == 4 * d0 + 2 * d1 + d2);
}

proof fn lemma_order_light_blue_bed()
    ensures
        kind_in_order(72),
{
    let s = spec_states_light_blue_bed();
    assert(state_group(72) == s);
    assert forall|j: int| 0 <= j < s.len() implies {
        &&& state_rank(#[trigger] s[j]) == j
        &&& state_valid(s[j])
        &&& kind_of(s[j]) == state_variant_kind(72)
    } by {
        assert(s[j] == state_light_blue_bed(j));
        lemma_rank_light_blue_bed(j);
    }
}

#[verifier::rlimit(100)]
proof fn lemma_rank_yellow_bed(j: int)
    requires
        0 <= j < 16,
    ensures
        state_rank(state_yellow_bed(j)) == j,
        state_valid(state_yellow_bed(j)),
        kind_of(state_yellow_bed(j)) == 73,
{
    let d0 = j / 4;
    assert(0 <= d0 < 4);
    let d1 = (j / 2) % 2;
    assert(0 <= d1 < 2);
    let d2 = (j) % 2;
    assert(0 <= d2 < 2);
    assert(j == 2 * (j / 2) + (j) % 2);
    assert(j / 2 == 2 * (j / 4) + (j / 2) % 2);
    assert(j == 4 * d0 + 2 * d1 + d2);
}

proof fn lemma_order_yellow_bed()
    ensures
        kind_in_order(73),
{
    let s = spec_states_yellow_bed();
    assert(state_group(73) == s);
    assert forall|j: int| 0 <= j < s.len() implies {
        &&& state_rank(#[trigger] s[j]) == j
        &&& state_valid(s[j])
        &&& kind_of(s[j]) == state_variant_kind(73)
    } by {
        assert(s[j] == state_yellow_bed(j));
        lemma_rank_yellow_bed(j);
    }
}

#[verifier::rlimit(100)]
proof fn lemma_rank_lime_bed(j: int)
    requires
        0 <= j < 16,
    ensures
        state_rank(state_lime_bed(j)) == j,
        state_valid(state_lime_bed(j)),
        kind_of(state_lime_bed(j)) == 74,
{
    let d0 = j / 4;
    assert(0 <= d0 < 4);
    let d1 = (j / 2) % 2;
    assert(0 <= d1 < 2);
    let d2 = (j) % 2;
    assert(0 <= d2 < 2);
    assert(j == 2 * (j / 2) + (j) % 2);
    assert(j / 2 == 2 * (j / 4) + (j / 2) % 2);
    assert(j == 4 * d0 + 2 * d1 + d2);
}

proof fn lemma_order_lime_bed()
    ensures
        kind_in_order(74),
{
    let s = spec_states_lime_bed();
    assert(state_group(74) == s);
    assert forall|j: int| 0 <= j < s.len() implies {
        &&& state_rank(#[trigger] s[j]) == j
        &&& state_valid(s[j])
        &&& kind_of(s[j]) == state_variant_kind(74)
    } by {
        assert(s[j] == state_lime_bed(j));
        lemma_rank_lime_bed(j);
    }
}

#[verifier::rlimit(100)]
proof fn lemma_rank_pink_bed(j: int)
    requires
        0 <= j < 16,
    ensures
        state_rank(state_pink_bed(j)) == j,
        state_valid(state_pink_bed(j)),
        kind_of(state_pink_bed(j)) == 75,
{
    let d0 = j / 4;
    assert(0 <= d0 < 4);
    let d1 = (j / 2) % 2;
    assert(0 <= d1 < 2);
    let d2 = (j) % 2;
    assert(0 <= d2 < 2);
    assert(j == 2 * (j / 2) + (j) % 2);
    assert(j / 2 == 2 * (j / 4) + (j / 2) % 2);
    assert(j == 4 * d0 + 2 * d1 + d2);
}

proof fn lemma_order_pink_bed()
    ensures
        kind_in_order(75),
{
    let s = spec_states_pink_bed();
    assert(state_group(75) == s);
    assert forall|j: int| 0 <= j < s.len() implies {
        &&& state_rank(#[trigger] s[j]) == j
        &&& state_valid(s[j])
        &&& kind_of(s[j]) == state_variant_kind(75)
    } by {
        assert(s[j] == state_pink_bed(j));
        lemma_rank_pink_bed(j);
    }
}

#[verifier::rlimit(100)]
proof fn lemma_rank_gray_bed(j: int)
    requires
        0 <= j < 16,
    ensures
        state_rank(state_gray_bed(j)) == j,
        state_valid(state_gray_bed(j)),
        kind_of(state_gray_bed(j)) == 76,
{
    let d0 = j / 4;
    assert(0 <= d0 < 4);
    let d1 = (j / 2) % 2;
    assert(0 <= d1 < 2);
    let d2 = (j) % 2;
    assert(0 <= d2 < 2);
    assert(j == 2 * (j / 2) + (j) % 2);
    assert(j / 2 == 2 * (j / 4) + (j / 2) % 2);
    assert(j == 4 * d0 + 2 * d1 + d2);
}

proof fn lemma_order_gray_bed()
    ensures
        kind_in_order(76),
{
    let s = spec_states_gray_bed();
    assert(state_group(76) == s);
    assert forall|j: int| 0 <= j < s.len() implies {
        &&& state_rank(#[trigger] s[j]) == j
        &&& state_valid(s[j])
        &&& kind_of(s[j]) == state_variant_kind(76)
    } by {
        assert(s[j] == state_gray_bed(j));
        lemma_rank_gray_bed(j);
    }
}

#[verifier::rlimit(100)]
proof fn lemma_rank_light_gray_bed(j: int)
    requires
        0 <= j < 16,
    ensures
        state_rank(state_light_gray_bed(j)) == j,
        state_valid(state_light_gray_bed(j)),
        kind_of(state_light_gray_bed(j)) == 77,
{
    let d0 = j / 4;
    assert(0 <= d0 < 4);
    let d1 = (j / 2) % 2;
    assert(0 <= d1 < 2);
    let d2 = (j) % 2;
    assert(0 <= d2 < 2);
    assert(j == 2 * (j / 2) + (j) % 2);
    assert(j / 2 == 2 * (j / 4) + (j / 2) % 2);
    assert(j == 4 * d0 + 2 * d1 + d2);
}

proof fn lemma_order_light_gray_bed()
    ensures
        kind_in_order(77),
{
    let s = spec_states_light_gray_bed();
    assert(state_group(77) == s);
    assert forall|j: int| 0 <= j < s.len() implies {
        &&& state_rank(#[trigger] s[j]) == j
        &&& state_valid(s[j])
        &&& kind_of(s[j]) == state_variant_kind(77)
    } by {
        assert(s[j] == state_light_gray_bed(j));
        lemma_rank_light_gray_bed(j);
    }
}

#[verifier::rlimit(100)]
proof fn lemma_rank_cyan_bed(j: int)
    requires
        0 <= j < 16,
    ensures
        state_rank(state_cyan_bed(j)) == j,
        state_valid(state_cyan_bed(j)),
        kind_of(state_cyan_bed(j)) == 78,
{
    let d0 = j / 4;
    assert(0 <= d0 < 4);
    let d1 = (j / 2) % 2;
    assert(0 <= d1 < 2);
    let d2 = (j) % 2;
    assert(0 <= d2 < 2);
    assert(j == 2 * (j / 2) + (j) % 2);
    assert(j / 2 == 2 * (j / 4) + (j / 2) % 2);
    assert(j == 4 * d0 + 2 * d1 + d2);
}

proof fn lemma_order_cyan_bed()
    ensures
        kind_in_order(78),
{
    let s = spec_states_cyan_bed();
    assert(state_group(78) == s);
    assert forall|j: int| 0 <= j < s.len() implies {
        &&& state_rank(#[trigger] s[j]) == j
        &&& state_valid(s[j])
        &&& kind_of(s[j]) == state_variant_kind(78)
    } by {
        assert(s[j] == state_cyan_bed(j));
        lemma_rank_cyan_bed(j);
    }
}

#[verifier::rlimit(100)]
proof fn lemma_rank_purple_bed(j: int)
    requires
        0 <= j < 16,
    ensures
        state_rank(state_purple_bed(j)) == j,
        state_valid(state_purple_bed(j)),
        kind_of(state_purple_bed(j)) == 79,
{
    let d0 = j / 4;
    assert(0 <= d0 < 4);
    let d1 = (j / 2) % 2;
    assert(0 <= d1 < 2);
    let d2 = (j) % 2;
    assert(0 <= d2 < 2);
    assert(j == 2 * (j / 2) + (j) % 2);
    assert(j / 2 == 2 * (j / 4) + (j / 2) % 2);
    assert(j == 4 * d0 + 2 * d1 + d2);
}

proof fn lemma_order_purple_bed()
    ensures
        kind_in_order(79),
{
    let s = spec_states_purple_bed();
    assert(state_group(79) == s);
    assert forall|j: int| 0 <= j < s.len() implies {
        &&& state_rank(#[trigger] s[j]) == j
        &&& state_valid(s[j])
        &&& kind_of(s[j]) == state_variant_kind(79)
    } by {
        assert(s[j] == state_purple_bed(j));
        lemma_rank_purple_bed(j);
    }
}

#[verifier::rlimit(100)]
proof fn lemma_rank_blue_bed(j: int)
    requires
        0 <= j < 16,
    ensures
        state_rank(state_blue_bed(j)) == j,
        state_valid(state_blue_bed(j)),
        kind_of(state_blue_bed(j)) == 80,
{
    let d0 = j / 4;
    assert(0 <= d0 < 4);
    let d1 = (j / 2) % 2;
    assert(0 <= d1 < 2);
    let d2 = (j) % 2;
    assert(0 <= d2 < 2);
    assert(j == 2 * (j / 2) + (j) % 2);
    assert(j / 2 == 2 * (j / 4) + (j / 2) % 2);
    assert(j == 4 * d0 + 2 * d1 + d2);
}

proof fn lemma_order_blue_bed()
    ensures
        kind_in_order(80),
{
    let s = spec_states_blue_bed();
    assert(state_group(80) == s);
    assert forall|j: int| 0 <= j < s.len() implies {
        &&& state_rank(#[trigger] s[j]) == j
        &&& state_valid(s[j])
        &&& kind_of(s[j]) == state_variant_kind(80)
    } by {
        assert(s[j] == state_blue_bed(j));
        lemma_rank_blue_bed(j);
    }
}

#[verifier::rlimit(100)]
proof fn lemma_rank_brown_bed(j: int)
    requires
        0 <= j < 16,
    ensures
        state_rank(state_brown_bed(j)) == j,
        state_valid(state_brown_bed(j)),
        kind_of(state_brown_bed(j)) == 81,
{
    let d0 = j / 4;
    assert(0 <= d0 < 4);
    let d1 = (j / 2) % 2;
    assert(0 <= d1 < 2);
    let d2 = (j) % 2;
    assert(0 <= d2 < 2);
    assert(j == 2 * (j / 2) + (j) % 2);
    assert(j / 2 == 2 * (j / 4) + (j / 2) % 2);
    assert(j == 4 * d0 + 2 * d1 + d2);
}

proof fn lemma_order_brown_bed()
    ensures
        kind_in_order(81),
{
    let s = spec_states_brown_bed();
    assert(state_group(81) == s);
    assert forall|j: int| 0 <= j < s.len() implies {
        &&& state_rank(#[trigger] s[j]) == j
        &&& state_valid(s[j])
        &&& kind_of(s[j]) == state_variant_kind(81)
    } by {
        assert(s[j] == state_brown_bed(j));
        lemma_rank_brown_bed(j);
    }
}

#[verifier::rlimit(100)]
proof fn lemma_rank_green_bed(j: int)
    requires
        0 <= j < 16,
    ensures
        state_rank(state_green_bed(j)) == j,
        state_valid(state_green_bed(j)),
        kind_of(state_green_bed(j)) == 82,
{
    let d0 = j / 4;
    assert(0 <= d0 < 4);
    let d1 = (j / 2) % 2;
    assert(0 <= d1 < 2);
    let d2 = (j) % 2;
    assert(0 <= d2 < 2);
    assert(j == 2 * (j / 2) + (j) % 2);
    assert(j / 2 == 2 * (j / 4) + (j / 2) % 2);
    assert(j == 4 * d0 + 2 * d1 + d2);
}

proof fn lemma_order_green_bed()
    ensures
        kind_in_order(82),
{
    let s = spec_states_green_bed();
    assert(state_group(82) == s);
    assert forall|j: int| 0 <= j < s.len() implies {
        &&& state_rank(#[trigger] s[j]) == j
        &&& state_valid(s[j])
        &&& kind_of(s[j]) == state_variant_kind(82)
    } by {
        assert(s[j] == state_green_bed(j));
        lemma_rank_green_bed(j);
    }
}

#[verifier::rlimit(100)]
proof fn lemma_rank_red_bed(j: int)
    requires
        0 <= j < 16,
    ensures
        state_rank(state_red_bed(j)) == j,
        state_valid(state_red_bed(j)),
        kind_of(state_red_bed(j)) == 83,
{
    let d0 = j / 4;
    assert(0 <= d0 < 4);
    let d1 = (j / 2) % 2;
    assert(0 <= d1 < 2);
    let d2 = (j) % 2;
    assert(0 <= d2 < 2);
    assert(j == 2 * (j / 2) + (j) % 2);
    assert(j / 2 == 2 * (j / 4) + (j / 2) % 2);
    assert(j == 4 * d0 + 2 * d1 + d2);
}

proof fn lemma_order_red_bed()
    ensures
        kind_in_order(83),
{
    let s = spec_states_red_bed();
    assert(state_group(83) == s);
    assert forall|j: int| 0 <= j < s.len() implies {
        &&& state_rank(#[trigger] s[j]) == j
        &&& state_valid(s[j])
        &&& kind_of(s[j]) == state_variant_kind(83)
    } by {
        assert(s[j] == state_red_bed(j));
        lemma_rank_red_bed(j);
    }
}

#[verifier::rlimit(100)]
proof fn lemma_rank_black_bed(j: int)
    requires
        0 <= j < 16,
    ensures
        state_rank(state_black_bed(j)) == j,
        state_valid(state_black_bed(j)),
        kind_of(state_black_bed(j)) == 84,
{
    let d0 = j / 4;
    assert(0 <= d0 < 4);
    let d1 = (j / 2) % 2;
    assert(0 <= d1 < 2);
    let d2 = (j) % 2;
    assert(0 <= d2 < 2);
    assert(j == 2 * (j / 2) + (j) % 2);
    assert(j / 2 == 2 * (j / 4) + (j / 2) % 2);
    assert(j == 4 * d0 + 2 * d1 + d2);
}

proof fn lemma_order_black_bed()
    ensures
        kind_in_order(84),
{
    let s = spec_states_black_bed();
    assert(state_group(84) == s);
    assert forall|j: int| 0 <= j < s.len() implies {
        &&& state_rank(#[trigger] s[j]) == j
        &&& state_valid(s[j])
        &&& kind_of(s[j]) == state_variant_kind(84)
    } by {
        assert(s[j] == state_black_bed(j));
        lemma_rank_black_bed(j);
    }
}

proof fn lemma_rank_powered_rail(j: int)
    requires
        0 <= j < 12,
    ensures
        state_rank(state_powered_rail(j)) == j,
        state_valid(state_powered_rail(j)),
        kind_of(state_powered_rail(j)) == 85,
{
    let d0 = j / 6;
    assert(0 <= d0 < 2);
    let d1 = (j) % 6;
    assert(0 <= d1 < 6);
    assert(j == 6 * (j / 6) + (j) % 6);
    assert(j == 6 * d0 + d1);
}

proof fn lemma_order_powered_rail()
    ensures
        kind_in_order(85),
{
    let s = spec_states_powered_rail();
    assert(state_group(85) == s);
    assert forall|j: int| 0 <= j < s.len() implies {
        &&& state_rank(#[trigger] s[j]) == j
        &&& state_valid(s[j])
        &&& kind_of(s[j]) == state_variant_kind(85)
    } by {
        assert(s[j] == state_powered_rail(j));
        lemma_rank_powered_rail(j);
    }
}

proof fn lemma_rank_detector_rail(j: int)
    requires
        0 <= j < 12,
    ensures
        state_rank(state_detector_rail(j)) == j,
        state_valid(state_detector_rail(j)),
        kind_of(state_detector_rail(j)) == 85,
{
    let d0 = j / 6;
    assert(0 <= d0 < 2);
    let d1 = (j) % 6;
    assert(0 <= d1 < 6);
    assert(j == 6 * (j / 6) + (j) % 6);
    assert(j == 6 * d0 + d1);
}

proof fn lemma_order_detector_rail()
    ensures
        kind_in_order(86),
{
    let s = spec_states_detector_rail();
    assert(state_group(86) == s);
    assert forall|j: int| 0 <= j < s.len() implies {
        &&& state_rank(#[trigger] s[j]) == j
        &&& state_valid(s[j])
        &&& kind_of(s[j]) == state_variant_kind(86)
    } by {
        assert(s[j] == state_detector_rail(j));
        lemma_rank_detector_rail(j);
    }
}

proof fn lemma_rank_sticky_piston(j: int)
    requires
        0 <= j < 12,
    ensures
        state_rank(state_sticky_piston(j)) == j,
        state_valid(state_sticky_piston(j)),
        kind_of(state_sticky_piston(j)) == 87,
{
    let d0 = j / 6;
    assert(0 <= d0 < 2);
    let d1 = (j) % 6;
    assert(0 <= d1 < 6);
    assert(j == 6 * (j / 6) + (j) % 6);
    assert(j == 6 * d0 + d1);
}

proof fn lemma_order_sticky_piston()
    ensures
        kind_in_order(87),
{
    let s = spec_states_sticky_piston();
    assert(state_group(87) == s);
    assert forall|j: int| 0 <= j < s.len() implies {
        &&& state_rank(#[trigger] s[j]) == j
        &&& state_valid(s[j])
        &&& kind_of(s[j]) == state_variant_kind(87)
    } by {
        assert(s[j] == state_sticky_piston(j));
        lemma_rank_sticky_piston(j);
    }
}

proof fn lemma_order_cobweb()
    ensures
        kind_in_order(88),
{
    let s = spec_states_cobweb();
    assert(state_group(88) == s);
    assert forall|j: int| 0 <= j < s.len() implies {
        &&& state_rank(#[trigger] s[j]) == j
        &&& state_valid(s[j])
        &&& kind_of(s[j]) == state_variant_kind(88)
    } by {
    }
}

proof fn lemma_order_grass()
    ensures
        kind_in_order(89),
{
    let s = spec_states_grass();
    assert(state_group(89) == s);
    assert forall|j: int| 0 <= j < s.len() implies {
        &&& state_rank(#[trigger] s[j]) == j
        &&& state_valid(s[j])
        &&& kind_of(s[j]) == state_variant_kind(89)
    } by {
    }
}

proof fn lemma_order_fern()
    ensures
        kind_in_order(90),
{
    let s = spec_states_fern();
    assert(state_group(90) == s);
    assert forall|j: int| 0 <= j < s.len() implies {
        &&& state_rank(#[trigger] s[j]) == j
        &&& state_valid(s[j])
        &&& kind_of(s[j]) == state_variant_kind(90)
    } by {
    }
}

proof fn lemma_order_dead_bush()
    ensures
        kind_in_order(91),
{
    let s = spec_states_dead_bush();
    assert(state_group(91) == s);
    assert forall|j: int| 0 <= j < s.len() implies {
        &&& state_rank(#[trigger] s[j]) == j
        &&& state_valid(s[j])
        &&& kind_of(s[j]) == state_variant_kind(91)
    } by {
    }
}

proof fn lemma_order_seagrass()
    ensures
        kind_in_order(92),
{
    let s = spec_states_seagrass();
    assert(state_group(92) == s);
    assert forall|j: int| 0 <= j < s.len() implies {
        &&& state_rank(#[trigger] s[j]) == j
        &&& state_valid(s[j])
        &&& kind_of(s[j]) == state_variant_kind(92)
    } by {
    }
}

proof fn lemma_order_tall_seagrass()
    ensures
        kind_in_order(93),
{
    let s = spec_states_tall_seagrass();
    assert(state_group(93) == s);
    assert forall|j: int| 0 <= j < s.len() implies {
        &&& state_rank(#[trigger] s[j]) == j
        &&& state_valid(s[j])
        &&& kind_of(s[j]) == state_variant_kind(93)
    } by {
    }
}

proof fn lemma_rank_piston(j: int)
    requires
        0 <= j < 12,
    ensures
        state_rank(state_piston(j)) == j,
        state_valid(state_piston(j)),
        kind_of(state_piston(j)) == 87,
{
    let d0 = j / 6;
    assert(0 <= d0 < 2);
    let d1 = (j) % 6;
    assert(0 <= d1 < 6);
    assert(j == 6 * (j / 6) + (j) % 6);
    assert(j == 6 * d0 + d1);
}

proof fn lemma_order_piston()
    ensures
        kind_in_order(94),
{
    let s = spec_states_piston();
    assert(state_group(94) == s);
    assert forall|j: int| 0 <= j < s.len() implies {
        &&& state_rank(#[trigger] s[j]) == j
        &&& state_valid(s[j])
        &&& kind_of(s[j]) == state_variant_kind(94)
    } by {
        assert(s[j] == state_piston(j));
        lemma_rank_piston(j);
    }
}

#[verifier::rlimit(100)]
proof fn lemma_rank_piston_head(j: int)
    requires
        0 <= j < 24,
    ensures
        state_rank(state_piston_head(j)) == j,
        state_valid(state_piston_head(j)),
        kind_of(state_piston_head(j)) == 95,
{
    let d0 = j / 4;
    assert(0 <= d0 < 6);
    let d1 = (j / 2) % 2;
    assert(0 <= d1 < 2);
    let d2 = (j) % 2;
    assert(0 <= d2 < 2);
    assert(j == 2 * (j / 2) + (j) % 2);
    assert(j / 2 == 2 * (j / 4) + (j / 2) % 2);
    assert(j == 4 * d0 + 2 * d1 + d2);
}

proof fn lemma_order_piston_head()
    ensures
        kind_in_order(95),
{
    let s = spec_states_piston_head();
    assert(state_group(95) == s);
    assert forall|j: int| 0 <= j < s.len() implies {
        &&& state_rank(#[trigger] s[j]) == j
        &&& state_valid(s[j])
        &&& kind_of(s[j]) == state_variant_kind(95)
    } by {
        assert(s[j] == state_piston_head(j));
        lemma_rank_piston_head(j);
    }
}

proof fn lemma_order_white_wool()
    ensures
        kind_in_order(96),
{
    let s = spec_states_white_wool();
    assert(state_group(96) == s);
    assert forall|j: int| 0 <= j < s.len() implies {
        &&& state_rank(#[trigger] s[j]) == j
        &&& state_valid(s[j])
        &&& kind_of(s[j]) == state_variant_kind(96)
    } by {
    }
}

proof fn lemma_order_orange_wool()
    ensures
        kind_in_order(97),
{
    let s = spec_states_orange_wool();
    assert(state_group(97) == s);
    assert forall|j: int| 0 <= j < s.len() implies {
        &&& state_rank(#[trigger] s[j]) == j
        &&& state_valid(s[j])
        &&& kind_of(s[j]) == state_variant_kind(97)
    } by {
    }
}

proof fn lemma_order_magenta_wool()
    ensures
        kind_in_order(98),
{
    let s = spec_states_magenta_wool();
    assert(state_group(98) == s);
    assert forall|j: int| 0 <= j < s.len() implies {
        &&& state_rank(#[trigger] s[j]) == j
        &&& state_valid(s[j])
        &&& kind_of(s[j]) == state_variant_kind(98)
    } by {
    }
}

proof fn lemma_order_light_blue_wool()
    ensures
        kind_in_order(99),
{
    let s = spec_states_light_blue_wool();
    assert(state_group(99) == s);
    assert forall|j: int| 0 <= j < s.len() implies {
        &&& state_rank(#[trigger] s[j]) == j
        &&& state_valid(s[j])
        &&& kind_of(s[j]) == state_variant_kind(99)
    } by {
    }
}

proof fn lemma_order_yellow_wool()
    ensures
        kind_in_order(100),
{
    let s = spec_states_yellow_wool();
    assert(state_group(100) == s);
    assert forall|j: int| 0 <= j < s.len() implies {
        &&& state_rank(#[trigger] s[j]) == j
        &&& state_valid(s[j])
        &&& kind_of(s[j]) == state_variant_kind(100)
    } by {
    }
}

proof fn lemma_order_lime_wool()
    ensures
        kind_in_order(101),
{
    let s = spec_states_lime_wool();
    assert(state_group(101) == s);
    assert forall|j: int| 0 <= j < s.len() implies {
        &&& state_rank(#[trigger] s[j]) == j
        &&& state_valid(s[j])
        &&& kind_of(s[j]) == state_variant_kind(101)
    } by {
    }
}

proof fn lemma_order_pink_wool()
    ensures
        kind_in_order(102),
{
    let s = spec_states_pink_wool();
    assert(state_group(102) == s);
    assert forall|j: int| 0 <= j < s.len() implies {
        &&& state_rank(#[trigger] s[j]) == j
        &&& state_valid(s[j])
        &&& kind_of(s[j]) == state_variant_kind(102)
    } by {
    }
}

proof fn lemma_order_gray_wool()
    ensures
        kind_in_order(103),
{
    let s = spec_states_gray_wool();
    assert(state_group(103) == s);
    assert forall|j: int| 0 <= j < s.len() implies {
        &&& state_rank(#[trigger] s[j]) == j
        &&& state_valid(s[j])
        &&& kind_of(s[j]) == state_variant_kind(103)
    } by {
    }
}

proof fn lemma_order_light_gray_wool()
    ensures
        kind_in_order(104),
{
    let s = spec_states_light_gray_wool();
    assert(state_group(104) == s);
    assert forall|j: int| 0 <= j < s.len() implies {
        &&& state_rank(#[trigger] s[j]) == j
        &&& state_valid(s[j])
        &&& kind_of(s[j]) == state_variant_kind(104)
    } by {
    }
}

proof fn lemma_order_cyan_wool()
    ensures
        kind_in_order(105),
{
    let s = spec_states_cyan_wool();
    assert(state_group(105) == s);
    assert forall|j: int| 0 <= j < s.len() implies {
        &&& state_rank(#[trigger] s[j]) == j
        &&& state_valid(s[j])
        &&& kind_of(s[j]) == state_variant_kind(105)
    } by {
    }
}

proof fn lemma_order_purple_wool()
    ensures
        kind_in_order(106),
{
    let s = spec_states_purple_wool();
    assert(state_group(106) == s);
    assert forall|j: int| 0 <= j < s.len() implies {
        &&& state_rank(#[trigger] s[j]) == j
        &&& state_valid(s[j])
        &&& kind_of(s[j]) == state_variant_kind(106)
    } by {
    }
}

proof fn lemma_order_blue_wool()
    ensures
        kind_in_order(107),
{
    let s = spec_states_blue_wool();
    assert(state_group(107) == s);
    assert forall|j: int| 0 <= j < s.len() implies {
        &&& state_rank(#[trigger] s[j]) == j
        &&& state_valid(s[j])
        &&& kind_of(s[j]) == state_variant_kind(107)
    } by {
    }
}

proof fn lemma_order_brown_wool()
    ensures
        kind_in_order(108),
{
    let s = spec_states_brown_wool();
    assert(state_group(108) == s);
    assert forall|j: int| 0 <= j < s.len() implies {
        &&& state_rank(#[trigger] s[j]) == j
        &&& state_valid(s[j])
        &&& kind_of(s[j]) == state_variant_kind(108)
    } by {
    }
}

proof fn lemma_order_green_wool()
    ensures
        kind_in_order(109),
{
    let s = spec_states_green_wool();
    assert(state_group(109) == s);
    assert forall|j: int| 0 <= j < s.len() implies {
        &&& state_rank(#[trigger] s[j]) == j
        &&& state_valid(s[j])
        &&& kind_of(s[j]) == state_variant_kind(109)
    } by {
    }
}

proof fn lemma_order_red_wool()
    ensures
        kind_in_order(110),
{
    let s = spec_states_red_wool();
    assert(state_group(110) == s);
    assert forall|j: int| 0 <= j < s.len() implies {
        &&& state_rank(#[trigger] s[j]) == j
        &&& state_valid(s[j])
        &&& kind_of(s[j]) == state_variant_kind(110)
    } by {
    }
}

proof fn lemma_order_black_wool()
    ensures
        kind_in_order(111),
{
    let s = spec_states_black_wool();
    assert(state_group(111) == s);
    assert forall|j: int| 0 <= j < s.len() implies {
        &&& state_rank(#[trigger] s[j]) == j
        &&& state_valid(s[j])
        &&& kind_of(s[j]) == state_variant_kind(111)
    } by {
    }
}

proof fn lemma_rank_moving_piston(j: int)
    requires
        0 <= j < 12,
    ensures
        state_rank(state_moving_piston(j)) == j,
        state_valid(state_moving_piston(j)),
        kind_of(state_moving_piston(j)) == 112,
{
    let d0 = j / 2;
    assert(0 <= d0 < 6);
    let d1 = (j) % 2;
    assert(0 <= d1 < 2);
    assert(j == 2 * (j / 2) + (j) % 2);
    assert(j == 2 * d0 + d1);
}

proof fn lemma_order_moving_piston()
    ensures
        kind_in_order(112),
{
    let s = spec_states_moving_piston();
    assert(state_group(112) == s);
    assert forall|j: int| 0 <= j < s.len() implies {
        &&& state_rank(#[trigger] s[j]) == j
        &&& state_valid(s[j])
        &&& kind_of(s[j]) == state_variant_kind(112)
    } by {
        assert(s[j] == state_moving_piston(j));
        lemma_rank_moving_piston(j);
    }
}

proof fn lemma_order_dandelion()
    ensures
        kind_in_order(113),
{
    let s = spec_states_dandelion();
    assert(state_group(113) == s);
    assert forall|j: int| 0 <= j < s.len() implies {
        &&& state_rank(#[trigger] s[j]) == j
        &&& state_valid(s[j])
        &&& kind_of(s[j]) == state_variant_kind(113)
    } by {
    }
}

proof fn lemma_order_poppy()
    ensures
        kind_in_order(114),
{
    let s = spec_states_poppy();
    assert(state_group(114) == s);
    assert forall|j: int| 0 <= j < s.len() implies {
        &&& state_rank(#[trigger] s[j]) == j
        &&& state_valid(s[j])
        &&& kind_of(s[j]) == state_variant_kind(114)
    } by {
    }
}

proof fn lemma_order_blue_orchid()
    ensures
        kind_in_order(115),
{
    let s = spec_states_blue_orchid();
    assert(state_group(115) == s);
    assert forall|j: int| 0 <= j < s.len() implies {
        &&& state_rank(#[trigger] s[j]) == j
        &&& state_valid(s[j])
        &&& kind_of(s[j]) == state_variant_kind(115)
    } by {
    }
}

proof fn lemma_order_allium()
    ensures
        kind_in_order(116),
{
    let s = spec_states_allium();
    assert(state_group(116) == s);
    assert forall|j: int| 0 <= j < s.len() implies {
        &&& state_rank(#[trigger] s[j]) == j
        &&& state_valid(s[j])
        &&& kind_of(s[j]) == state_variant_kind(116)
    } by {
    }
}

proof fn lemma_order_azure_bluet()
    ensures
        kind_in_order(117),
{
    let s = spec_states_azure_bluet();
    assert(state_group(117) == s);
    assert forall|j: int| 0 <= j < s.len() implies {
        &&& state_rank(#[trigger] s[j]) == j
        &&& state_valid(s[j])
        &&& kind_of(s[j]) == state_variant_kind(117)
    } by {
    }
}

proof fn lemma_order_red_tulip()
    ensures
        kind_in_order(118),
{
    let s = spec_states_red_tulip();
    assert(state_group(118) == s);
    assert forall|j: int| 0 <= j < s.len() implies {
        &&& state_rank(#[trigger] s[j]) == j
        &&& state_valid(s[j])
        &&& kind_of(s[j]) == state_variant_kind(118)
    } by {
    }
}

proof fn lemma_order_orange_tulip()
    ensures
        kind_in_order(119),
{
    let s = spec_states_orange_tulip();
    assert(state_group(119) == s);
    assert forall|j: int| 0 <= j < s.len() implies {
        &&& state_rank(#[trigger] s[j]) == j
        &&& state_valid(s[j])
        &&& kind_of(s[j]) == state_variant_kind(119)
    } by {
    }
}

proof fn lemma_order_white_tulip()
    ensures
        kind_in_order(120),
{
    let s = spec_states_white_tulip();
    assert(state_group(120) == s);
    assert forall|j: int| 0 <= j < s.len() implies {
        &&& state_rank(#[trigger] s[j]) == j
        &&& state_valid(s[j])
        &&& kind_of(s[j]) == state_variant_kind(120)
    } by {
    }
}

proof fn lemma_order_pink_tulip()
    ensures
        kind_in_order(121),
{
    let s = spec_states_pink_tulip();
    assert(state_group(121) == s);
    assert forall|j: int| 0 <= j < s.len() implies {
        &&& state_rank(#[trigger] s[j]) == j
        &&& state_valid(s[j])
        &&& kind_of(s[j]) == state_variant_kind(121)
    } by {
    }
}

proof fn lemma_order_oxeye_daisy()
    ensures
        kind_in_order(122),
{
    let s = spec_states_oxeye_daisy();
    assert(state_group(122) == s);
    assert forall|j: int| 0 <= j < s.len() implies {
        &&& state_rank(#[trigger] s[j]) == j
        &&& state_valid(s[j])
        &&& kind_of(s[j]) == state_variant_kind(122)
    } by {
    }
}

proof fn lemma_order_cornflower()
    ensures
        kind_in_order(123),
{
    let s = spec_states_cornflower();
    assert(state_group(123) == s);
    assert forall|j: int| 0 <= j < s.len() implies {
        &&& state_rank(#[trigger] s[j]) == j
        &&& state_valid(s[j])
        &&& kind_of(s[j]) == state_variant_kind(123)
    } by {
    }
}

proof fn lemma_order_wither_rose()
    ensures
        kind_in_order(124),
{
    let s = spec_states_wither_rose();
    assert(state_group(124) == s);
    assert forall|j: int| 0 <= j < s.len() implies {
        &&& state_rank(#[trigger] s[j]) == j
        &&& state_valid(s[j])
        &&& kind_of(s[j]) == state_variant_kind(124)
    } by {
    }
}

proof fn lemma_order_lily_of_the_valley()
    ensures
        kind_in_order(125),
{
    let s = spec_states_lily_of_the_valley();
    assert(state_group(125) == s);
    assert forall|j: int| 0 <= j < s.len() implies {
        &&& state_rank(#[trigger] s[j]) == j
        &&& state_valid(s[j])
        &&& kind_of(s[j]) == state_variant_kind(125)
    } by {
    }
}

proof fn lemma_order_brown_mushroom()
    ensures
        kind_in_order(126),
{
    let s = spec_states_brown_mushroom();
    assert(state_group(126) == s);
    assert forall|j: int| 0 <= j < s.len() implies {
        &&& state_rank(#[trigger] s[j]) == j
        &&& state_valid(s[j])
        &&& kind_of(s[j]) == state_variant_kind(126)
    } by {
    }
}

proof fn lemma_order_red_mushroom()
    ensures
        kind_in_order(127),
{
    let s = spec_states_red_mushroom();
    assert(state_group(127) == s);
    assert forall|j: int| 0 <= j < s.len() implies {
        &&& state_rank(#[trigger] s[j]) == j
        &&& state_valid(s[j])
        &&& kind_of(s[j]) == state_variant_kind(127)
    } by {
    }
}

proof fn lemma_order_gold_block()
    ensures
        kind_in_order(128),
{
    let s = spec_states_gold_block();
    assert(state_group(128) == s);
    assert forall|j: int| 0 <= j < s.len() implies {
        &&& state_rank(#[trigger] s[j]) == j
        &&& state_valid(s[j])
        &&& kind_of(s[j]) == state_variant_kind(128)
    } by {
    }
}

proof fn lemma_order_iron_block()
    ensures
        kind_in_order(129),
{
    let s = spec_states_iron_block();
    assert(state_group(129) == s);
    assert forall|j: int| 0 <= j < s.len() implies {
        &&& state_rank(#[trigger] s[j]) == j
        &&& state_valid(s[j])
        &&& kind_of(s[j]) == state_variant_kind(129)
    } by {
    }
}

proof fn lemma_order_bricks()
    ensures
        kind_in_order(130),
{
    let s = spec_states_bricks();
    assert(state_group(130) == s);
    assert forall|j: int| 0 <= j < s.len() implies {
        &&& state_rank(#[trigger] s[j]) == j
        &&& state_valid(s[j])
        &&& kind_of(s[j]) == state_variant_kind(130)
    } by {
    }
}

proof fn lemma_order_t_n_t()
    ensures
        kind_in_order(131),
{
    let s = spec_states_t_n_t();
    assert(state_group(131) == s);
    assert forall|j: int| 0 <= j < s.len() implies {
        &&& state_rank(#[trigger] s[j]) == j
        &&& state_valid(s[j])
        &&& kind_of(s[j]) == state_variant_kind(131)
    } by {
    }
}

proof fn lemma_order_bookshelf()
    ensures
        kind_in_order(132),
{
    let s = spec_states_bookshelf();
    assert(state_group(132) == s);
    assert forall|j: int| 0 <= j < s.len() implies {
        &&& state_rank(#[trigger] s[j]) == j
        &&& state_valid(s[j])
        &&& kind_of(s[j]) == state_variant_kind(132)
    } by {
    }
}

proof fn lemma_order_mossy_cobblestone()
    ensures
        kind_in_order(133),
{
    let s = spec_states_mossy_cobblestone();
    assert(state_group(133) == s);
    assert forall|j: int| 0 <= j < s.len() implies {
        &&& state_rank(#[trigger] s[j]) == j
        &&& state_valid(s[j])
        &&& kind_of(s[j]) == state_variant_kind(133)
    } by {
    }
}

proof fn lemma_order_obsidian()
    ensures
        kind_in_order(134),
{
    let s = spec_states_obsidian();
    assert(state_group(134) == s);
    assert forall|j: int| 0 <= j < s.len() implies {
        &&& state_rank(#[trigger] s[j]) == j
        &&& state_valid(s[j])
        &&& kind_of(s[j]) == state_variant_kind(134)
    } by {
    }
}

proof fn lemma_order_torch()
    ensures
        kind_in_order(135),
{
    let s = spec_states_torch();
    assert(state_group(135) == s);
    assert forall|j: int| 0 <= j < s.len() implies {
        &&& state_rank(#[trigger] s[j]) == j
        &&& state_valid(s[j])
        &&& kind_of(s[j]) == state_variant_kind(135)
    } by {
    }
}

proof fn lemma_order_wall_torch()
    ensures
        kind_in_order(136),
{
    let s = spec_states_wall_torch();
    assert(state_group(136) == s);
    assert forall|j: int| 0 <= j < s.len() implies {
        &&& state_rank(#[trigger] s[j]) == j
        &&& state_valid(s[j])
        &&& kind_of(s[j]) == state_variant_kind(136)
    } by {
    }
}

#[verifier::rlimit(100)]
proof fn lemma_rank_fire(j: int)
    requires
        0 <= j < 512,
    ensures
        state_rank(state_fire(j)) == j,
        state_valid(state_fire(j)),
        kind_of(state_fire(j)) == 137,
{
    let d0 = j / 32;
    assert(0 <= d0 < 16);
    let d1 = (j / 16) % 2;
    assert(0 <= d1 < 2);
    let d2 = (j / 8) % 2;
    assert(0 <= d2 < 2);
    let d3 = (j / 4) % 2;
    assert(0 <= d3 < 2);
    let d4 = (j / 2) % 2;
    assert(0 <= d4 < 2);
    let d5 = (j) % 2;
    assert(0 <= d5 < 2);
    assert(j == 2 * (j / 2) + (j) % 2);
    assert(j / 2 == 2 * (j / 4) + (j / 2) % 2);
    assert(j / 4 == 2 * (j / 8) + (j / 4) % 2);
    assert(j / 8 == 2 * (j / 16) + (j / 8) % 2);
    assert(j / 16 == 2 * (j / 32) + (j / 16) % 2);
    assert(j == 32 * d0 + 16 * d1 + 8 * d2 + 4 * d3 + 2 * d4 + d5);
}

proof fn lemma_order_fire()
    ensures
        kind_in_order(137),
{
    let s = spec_states_fire();
    assert(state_group(137) == s);
    assert forall|j: int| 0 <= j < s.len() implies {
        &&& state_rank(#[trigger] s[j]) == j
        &&& state_valid(s[j])
        &&& kind_of(s[j]) == state_variant_kind(137)
    } by {
        assert(s[j] == state_fire(j));
        lemma_rank_fire(j);
    }
}

proof fn lemma_order_spawner()
    ensures
        kind_in_order(138),
{
    let s = spec_states_spawner();
    assert(state_group(138) == s);
    assert forall|j: int| 0 <= j < s.len() implies {
        &&& state_rank(#[trigger] s[j]) == j
        &&& state_valid(s[j])
        &&& kind_of(s[j]) == state_variant_kind(138)
    } by {
    }
}

#[verifier::rlimit(100)]
proof fn lemma_rank_oak_stairs(j: int)
    requires
        0 <= j < 80,
    ensures
        state_rank(state_oak_stairs(j)) == j,
        state_valid(state_oak_stairs(j)),
        kind_of(state_oak_stairs(j)) == 139,
{
    let d0 = j / 20;
    assert(0 <= d0 < 4);
    let d1 = (j / 10) % 2;
    assert(0 <= d1 < 2);
    let d2 = (j / 2) % 5;
    assert(0 <= d2 < 5);
    let d3 = (j) % 2;
    assert(0 <= d3 < 2);
    assert(j == 2 * (j / 2) + (j) % 2);
    assert(j / 2 == 5 * (j / 10) + (j / 2) % 5);
    assert(j / 10 == 2 * (j / 20) + (j / 10) % 2);
    assert(j == 20 * d0 + 10 * d1 + 2 * d2 + d3);
}

proof fn lemma_order_oak_stairs()
    ensures
        kind_in_order(139),
{
    let s = spec_states_oak_stairs();
    assert(state_group(139) == s);
    assert forall|j: int| 0 <= j < s.len() implies {
        &&& state_rank(#[trigger] s[j]) == j
        &&& state_valid(s[j])
        &&& kind_of(s[j]) == state_variant_kind(139)
    } by {
        assert(s[j] == state_oak_stairs(j));
        lemma_rank_oak_stairs(j);
    }
}

#[verifier::rlimit(100)]
proof fn lemma_rank_chest(j: int)
    requires
        0 <= j < 24,
    ensures
        state_rank(state_chest(j)) == j,
        state_valid(state_chest(j)),
        kind_of(state_chest(j)) == 140,
{
    let d0 = j / 6;
    assert(0 <= d0 < 4);
    let d1 = (j / 2) % 3;
    assert(0 <= d1 < 3);
    let d2 = (j) % 2;
    assert(0 <= d2 < 2);
    assert(j == 2 * (j / 2) + (j) % 2);
    assert(j / 2 == 3 * (j / 6) + (j / 2) % 3);
    assert(j == 6 * d0 + 2 * d1 + d2);
}

proof fn lemma_order_chest()
    ensures
        kind_in_order(140),
{
    let s = spec_states_chest();
    assert(state_group(140) == s);
    assert forall|j: int| 0 <= j < s.len() implies {
        &&& state_rank(#[trigger] s[j]) == j
        &&& state_valid(s[j])
        &&& kind_of(s[j]) == state_variant_kind(140)
    } by {
        assert(s[j] == state_chest(j));
        lemma_rank_chest(j);
    }
}

#[verifier::rlimit(100)]
proof fn lemma_rank_redstone_wire(j: int)
    requires
        0 <= j < 1296,
    ensures
        state_rank(state_redstone_wire(j)) == j,
        state_valid(state_redstone_wire(j)),
        kind_of(state_redstone_wire(j)) == 141,
{
    let d0 = j / 432;
    assert(0 <= d0 < 3);
    let d1 = (j / 144) % 3;
    assert(0 <= d1 < 3);
    let d2 = (j / 9) % 16;
    assert(0 <= d2 < 16);
    let d3 = (j / 3) % 3;
    assert(0 <= d3 < 3);
    let d4 = (j) % 3;
    assert(0 <= d4 < 3);
    assert(j == 3 * (j / 3) + (j) % 3);
    assert(j / 3 == 3 * (j / 9) + (j / 3) % 3);
    assert(j / 9 == 16 * (j / 144) + (j / 9) % 16);
    assert(j / 144 == 3 * (j / 432) + (j / 144) % 3);
    assert(j == 432 * d0 + 144 * d1 + 9 * d2 + 3 * d3 + d4);
}

proof fn lemma_order_redstone_wire()
    ensures
        kind_in_order(141),
{
    let s = spec_states_redstone_wire();
    assert(state_group(141) == s);
    assert forall|j: int| 0 <= j < s.len() implies {
        &&& state_rank(#[trigger] s[j]) == j
        &&& state_valid(s[j])
        &&& kind_of(s[j]) == state_variant_kind(141)
    } by {
        assert(s[j] == state_redstone_wire(j));
        lemma_rank_redstone_wire(j);
    }
}

proof fn lemma_order_diamond_ore()
    ensures
        kind_in_order(142),
{
    let s = spec_states_diamond_ore();
    assert(state_group(142) == s);
    assert forall|j: int| 0 <= j < s.len() implies {
        &&& state_rank(#[trigger] s[j]) == j
        &&& state_valid(s[j])
        &&& kind_of(s[j]) == state_variant_kind(142)
    } by {
    }
}

proof fn lemma_order_diamond_block()
    ensures
        kind_in_order(143),
{
    let s = spec_states_diamond_block();
    assert(state_group(143) == s);
    assert forall|j: int| 0 <= j < s.len() implies {
        &&& state_rank(#[trigger] s[j]) == j
        &&& state_valid(s[j])
        &&& kind_of(s[j]) == state_variant_kind(143)
    } by {
    }
}

proof fn lemma_order_crafting_table()
    ensures
        kind_in_order(144),
{
    let s = spec_states_crafting_table();
    assert(state_group(144) == s);
    assert forall|j: int| 0 <= j < s.len() implies {
        &&& state_rank(#[trigger] s[j]) == j
        &&& state_valid(s[j])
        &&& kind_of(s[j]) == state_variant_kind(144)
    } by {
    }
}

proof fn lemma_order_wheat()
    ensures
        kind_in_order(145),
{
    let s = spec_states_wheat();
    assert(state_group(145) == s);
    assert forall|j: int| 0 <= j < s.len() implies {
        &&& state_rank(#[trigger] s[j]) == j
        &&& state_valid(s[j])
        &&& kind_of(s[j]) == state_variant_kind(145)
    } by {
        assert(s[j] == BlockType::Wheat { age: j as u8 });
    }
}

/// Law: the states of every kind of block are in odometer order of their
/// property values: kind `k` has `kind_state_count(k)` states, and its state `j`
/// is the one of rank `j`, of the kind's variant, with declared values.
pub proof fn law_states_in_odometer_order(k: int)
    requires
        0 <= k < BLOCK_COUNT,
    ensures
        kind_in_order(k),
{
    if k == 0 {
        lemma_order_air();
    } else if k == 1 {
        lemma_order_stone();
    } else if k == 2 {
        lemma_order_granite();
    } else if k == 3 {
        lemma_order_smooth_granite();
    } else if k == 4 {
        lemma_order_diorite();
    } else if k == 5 {
        lemma_order_smooth_diorite();
    } else if k == 6 {
        lemma_order_andesite();
    } else if k == 7 {
        lemma_order_smooth_andesite();
    } else if k == 8 {
        lemma_order_grass_block();
    } else if k == 9 {
        lemma_order_dirt();
    } else if k == 10 {
        lemma_order_coarse_dirt();
    } else if k == 11 {
        lemma_order_podzol();
    } else if k == 12 {
        lemma_order_cobblestone();
    } else if k == 13 {
        lemma_order_planks();
    } else if k == 14 {
        lemma_order_oak_sapling();
    } else if k == 15 {
        lemma_order_spruce_sapling();
    } else if k == 16 {
        lemma_order_birch_sapling();
    } else if k == 17 {
        lemma_order_jungle_sapling();
    } else if k == 18 {
        lemma_order_acacia_sapling();
    } else if k == 19 {
        lemma_order_dark_oak_sapling();
    } else if k == 20 {
        lemma_order_bedrock();
    } else if k == 21 {
        lemma_order_water();
    } else if k == 22 {
        lemma_order_lava();
    } else if k == 23 {
        lemma_order_sand();
    } else if k == 24 {
        lemma_order_red_sand();
    } else if k == 25 {
        lemma_order_gravel();
    } else if k == 26 {
        lemma_order_gold_ore();
    } else if k == 27 {
        lemma_order_iron_ore();
    } else if k == 28 {
        lemma_order_coal_ore();
    } else if k == 29 {
        lemma_order_oak_log();
    } else if k == 30 {
        lemma_order_spruce_log();
    } else if k == 31 {
        lemma_order_birch_log();
    } else if k == 32 {
        lemma_order_jungle_log();
    } else if k == 33 {
        lemma_order_acacia_log();
    } else if k == 34 {
        lemma_order_dark_oak_log();
    } else if k == 35 {
        lemma_order_stripped_spruce_log();
    } else if k == 36 {
        lemma_order_stripped_birch_log();
    } else if k == 37 {
        lemma_order_stripped_jungle_log();
    } else if k == 38 {
        lemma_order_stripped_acacia_log();
    } else if k == 39 {
        lemma_order_stripped_dark_oak_log();
    } else if k == 40 {
        lemma_order_stripped_oak_log();
    } else if k == 41 {
        lemma_order_oak_wood();
    } else if k == 42 {
        lemma_order_spruce_wood();
    } else if k == 43 {
        lemma_order_birch_wood();
    } else if k == 44 {
        lemma_order_jungle_wood();
    } else if k == 45 {
        lemma_order_acacia_wood();
    } else if k == 46 {
        lemma_order_dark_oak_wood();
    } else if k == 47 {
        lemma_order_stripped_oak_wood();
    } else if k == 48 {
        lemma_order_stripped_spruce_wood();
    } else if k == 49 {
        lemma_order_stripped_birch_wood();
    } else if k == 50 {
        lemma_order_stripped_jungle_wood();
    } else if k == 51 {
        lemma_order_stripped_acacia_wood();
    } else if k == 52 {
        lemma_order_stripped_dark_oak_wood();
    } else if k == 53 {
        lemma_order_oak_leaves();
    } else if k == 54 {
        lemma_order_spruce_leaves();
    } else if k == 55 {
        lemma_order_birch_leaves();
    } else if k == 56 {
        lemma_order_jungle_leaves();
    } else if k == 57 {
        lemma_order_acacia_leaves();
    } else if k == 58 {
        lemma_order_dark_oak_leaves();
    } else if k == 59 {
        lemma_order_sponge();
    } else if k == 60 {
        lemma_order_wet_sponge();
    } else if k == 61 {
        lemma_order_glass();
    } else if k == 62 {
        lemma_order_lapis_ore();
    } else if k == 63 {
        lemma_order_lapis_block();
    } else if k == 64 {
        lemma_order_dispenser();
    } else if k == 65 {
        lemma_order_sandstone();
    } else if k == 66 {
        lemma_order_chiseled_sandstone();
    } else if k == 67 {
        lemma_order_cut_sandstone();
    } else if k == 68 {
        lemma_order_note_block();
    } else if k == 69 {
        lemma_order_white_bed();
    } else if k == 70 {
        lemma_order_orange_bed();
    } else if k == 71 {
        lemma_order_magenta_bed();
    } else if k == 72 {
        lemma_order_light_blue_bed();
    } else if k == 73 {
        lemma_order_yellow_bed();
    } else if k == 74 {
        lemma_order_lime_bed();
    } else if k == 75 {
        lemma_order_pink_bed();
    } else if k == 76 {
        lemma_order_gray_bed();
    } else if k == 77 {
        lemma_order_light_gray_bed();
    } else if k == 78 {
        lemma_order_cyan_bed();
    } else if k == 79 {
        lemma_order_purple_bed();
    } else if k == 80 {
        lemma_order_blue_bed();
    } else if k == 81 {
        lemma_order_brown_bed();
    } else if k == 82 {
        lemma_order_green_bed();
    } else if k == 83 {
        lemma_order_red_bed();
    } else if k == 84 {
        lemma_order_black_bed();
    } else if k == 85 {
        lemma_order_powered_rail();
    } else if k == 86 {
        lemma_order_detector_rail();
    } else if k == 87 {
        lemma_order_sticky_piston();
    } else if k == 88 {
        lemma_order_cobweb();
    } else if k == 89 {
        lemma_order_grass();
    } else if k == 90 {
        lemma_order_fern();
    } else if k == 91 {
        lemma_order_dead_bush();
    } else if k == 92 {
        lemma_order_seagrass();
    } else if k == 93 {
        lemma_order_tall_seagrass();
    } else if k == 94 {
        lemma_order_piston();
    } else if k == 95 {
        lemma_order_piston_head();
    } else if k == 96 {
        lemma_order_white_wool();
    } else if k == 97 {
        lemma_order_orange_wool();
    } else if k == 98 {
        lemma_order_magenta_wool();
    } else if k == 99 {
        lemma_order_light_blue_wool();
    } else if k == 100 {
        lemma_order_yellow_wool();
    } else if k == 101 {
        lemma_order_lime_wool();
    } else if k == 102 {
        lemma_order_pink_wool();
    } else if k == 103 {
        lemma_order_gray_wool();
    } else if k == 104 {
        lemma_order_light_gray_wool();
    } else if k == 105 {
        lemma_order_cyan_wool();
    } else if k == 106 {
        lemma_order_purple_wool();
    } else if k == 107 {
        lemma_order_blue_wool();
    } else if k == 108 {
        lemma_order_brown_wool();
    } else if k == 109 {
        lemma_order_green_wool();
    } else if k == 110 {
        lemma_order_red_wool();
    } else if k == 111 {
        lemma_order_black_wool();
    } else if k == 112 {
        lemma_order_moving_piston();
    } else if k == 113 {
        lemma_order_dandelion();
    } else if k == 114 {
        lemma_order_poppy();
    } else if k == 115 {
        lemma_order_blue_orchid();
    } else if k == 116 {
        lemma_order_allium();
    } else if k == 117 {
        lemma_order_azure_bluet();
    } else if k == 118 {
        lemma_order_red_tulip();
    } else if k == 119 {
        lemma_order_orange_tulip();
    } else if k == 120 {
        lemma_order_white_tulip();
    } else if k == 121 {
        lemma_order_pink_tulip();
    } else if k == 122 {
        lemma_order_oxeye_daisy();
    } else if k == 123 {
        lemma_order_cornflower();
    } else if k == 124 {
        lemma_order_wither_rose();
    } else if k == 125 {
        lemma_order_lily_of_the_valley();
    } else if k == 126 {
        lemma_order_brown_mushroom();
    } else if k == 127 {
        lemma_order_red_mushroom();
    } else if k == 128 {
        lemma_order_gold_block();
    } else if k == 129 {
        lemma_order_iron_block();
    } else if k == 130 {
        lemma_order_bricks();
    } else if k == 131 {
        lemma_order_t_n_t();
    } else if k == 132 {
        lemma_order_bookshelf();
    } else if k == 133 {
        lemma_order_mossy_cobblestone();
    } else if k == 134 {
        lemma_order_obsidian();
    } else if k == 135 {
        lemma_order_torch();
    } else if k == 136 {
        lemma_order_wall_torch();
    } else if k == 137 {
        lemma_order_fire();
    } else if k == 138 {
        lemma_order_spawner();
    } else if k == 139 {
        lemma_order_oak_stairs();
    } else if k == 140 {
        lemma_order_chest();
    } else if k == 141 {
        lemma_order_redstone_wire();
    } else if k == 142 {
        lemma_order_diamond_ore();
    } else if k == 143 {
        lemma_order_diamond_block();
    } else if k == 144 {
        lemma_order_crafting_table();
    } else if k == 145 {
        lemma_order_wheat();
    }
}

/// Law: the registry gives every state its id in order: the state with id
/// `first_state_id(k) + j`, for `j < kind_state_count(k)`, belongs to kind `k` and
/// is the state of rank `j` among that kind's states, with declared property
/// values and the variant the kind's states are written with.
pub proof fn law_registry_ids_in_order(k: int, j: int)
    requires
        0 <= k < BLOCK_COUNT,
        0 <= j < kind_state_count(k),
    ensures
        ({
            let e = entries_of(BLOCK_COUNT as int)[first_state_id(k) + j];
            &&& first_state_id(k) + j < entries_of(BLOCK_COUNT as int).len()
            &&& e.number() == k
            &&& state_rank(e.props()) == j
            &&& state_valid(e.props())
            &&& kind_of(e.props()) == state_variant_kind(k)
        }),
{
    law_states_in_odometer_order(k);
    law_state_at_id(k, j);
}

} // verus!
