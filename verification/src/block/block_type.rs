//! The kinds of blocks, their properties, and the list of kinds in registry order.

use vstd::prelude::*;
use super::{Axis, ChestType, Direction, Instrument, RailShape, RedstoneWireDirection, StairShape, TreeVariant};

verus! {

/// Every kind of block in the game, with the properties that distinguish its states.
#[derive(Debug, Clone, Copy, PartialEq, Eq, Structural, Hash)]
pub enum BlockType {
    Air {},
    Stone {},
    Granite {},
    SmoothGranite {},
    Diorite {},
    SmoothDiorite {},
    Andesite {},
    SmoothAndesite {},
    GrassBlock { snowy: bool },
    Dirt {},
    CoarseDirt {},
    Podzol { snowy: bool },
    Cobblestone {},
    Planks { variant: TreeVariant },
    OakSapling { stage: u8 },
    SpruceSapling { stage: u8 },
    BirchSapling { stage: u8 },
    JungleSapling { stage: u8 },
    AcaciaSapling { stage: u8 },
    DarkOakSapling { stage: u8 },
    Bedrock {},
    Water { water: u8 },
    Lava { water: u8 },
    Sand {},
    RedSand {},
    Gravel {},
    GoldOre {},
    IronOre {},
    CoalOre {},
    OakLog { axis: Axis },
    SpruceLog { axis: Axis },
    BirchLog { axis: Axis },
    JungleLog { axis: Axis },
    AcaciaLog { axis: Axis },
    DarkOakLog { axis: Axis },
    StrippedSpruceLog { axis: Axis },
    StrippedBirchLog { axis: Axis },
    StrippedJungleLog { axis: Axis },
    StrippedAcaciaLog { axis: Axis },
    StrippedDarkOakLog { axis: Axis },
    StrippedOakLog { axis: Axis },
    OakWood { axis: Axis },
    SpruceWood { axis: Axis },
    BirchWood { axis: Axis },
    JungleWood { axis: Axis },
    AcaciaWood { axis: Axis },
    DarkOakWood { axis: Axis },
    StrippedOakWood { axis: Axis },
    StrippedSpruceWood { axis: Axis },
    StrippedBirchWood { axis: Axis },
    StrippedJungleWood { axis: Axis },
    StrippedAcaciaWood { axis: Axis },
    StrippedDarkOakWood { axis: Axis },
    OakLeaves { distance: u8, persistent: bool },
    SpruceLeaves { distance: u8, persistent: bool },
    BirchLeaves { distance: u8, persistent: bool },
    JungleLeaves { distance: u8, persistent: bool },
    AcaciaLeaves { distance: u8, persistent: bool },
    DarkOakLeaves { distance: u8, persistent: bool },
    Sponge {},
    WetSponge {},
    Glass {},
    LapisOre {},
    LapisBlock {},
    Dispenser { facing: Direction, triggered: bool },
    Sandstone {},
    ChiseledSandstone {},
    CutSandstone {},
    NoteBlock { instrument: Instrument, note: u8, powered: bool },
    WhiteBed { facing: Direction, occupied: bool, head_part: bool },
    OrangeBed { facing: Direction, occupied: bool, head_part: bool },
    MagentaBed { facing: Direction, occupied: bool, head_part: bool },
    LightBlueBed { facing: Direction, occupied: bool, head_part: bool },
    YellowBed { facing: Direction, occupied: bool, head_part: bool },
    LimeBed { facing: Direction, occupied: bool, head_part: bool },
    PinkBed { facing: Direction, occupied: bool, head_part: bool },
    GrayBed { facing: Direction, occupied: bool, head_part: bool },
    LightGrayBed { facing: Direction, occupied: bool, head_part: bool },
    CyanBed { facing: Direction, occupied: bool, head_part: bool },
    PurpleBed { facing: Direction, occupied: bool, head_part: bool },
    BlueBed { facing: Direction, occupied: bool, head_part: bool },
    BrownBed { facing: Direction, occupied: bool, head_part: bool },
    GreenBed { facing: Direction, occupied: bool, head_part: bool },
    RedBed { facing: Direction, occupied: bool, head_part: bool },
    BlackBed { facing: Direction, occupied: bool, head_part: bool },
    PoweredRail { powered: bool, shape: RailShape },
    DetectorRail { powered: bool, shape: RailShape },
    StickyPiston { extended: bool, facing: Direction },
    Cobweb {},
    Grass {},
    Fern {},
    DeadBush {},
    Seagrass {},
    TallSeagrass { upper_half: bool },
    Piston { extended: bool, facing: Direction },
    PistonHead { facing: Direction, short: bool, is_sticky: bool },
    WhiteWool {},
    OrangeWool {},
    MagentaWool {},
    LightBlueWool {},
    YellowWool {},
    LimeWool {},
    PinkWool {},
    GrayWool {},
    LightGrayWool {},
    CyanWool {},
    PurpleWool {},
    BlueWool {},
    BrownWool {},
    GreenWool {},
    RedWool {},
    BlackWool {},
    MovingPiston { facing: Direction, is_sticky: bool },
    Dandelion {},
    Poppy {},
    BlueOrchid {},
    Allium {},
    AzureBluet {},
    RedTulip {},
    OrangeTulip {},
    WhiteTulip {},
    PinkTulip {},
    OxeyeDaisy {},
    Cornflower {},
    WitherRose {},
    LilyOfTheValley {},
    BrownMushroom {},
    RedMushroom {},
    GoldBlock {},
    IronBlock {},
    Bricks {},
    TNT { unstable: bool },
    Bookshelf {},
    MossyCobblestone {},
    Obsidian {},
    Torch {},
    WallTorch { facing: Direction },
    Fire { age: u8, east: bool, north: bool, south: bool, up: bool, west: bool },
    Spawner {},
    OakStairs { facing: Direction, top: bool, shape: StairShape, waterlogged: bool },
    Chest { facing: Direction, chest_type: ChestType, waterlogged: bool },
    RedstoneWire { east: RedstoneWireDirection, north: RedstoneWireDirection, power: u8, south: RedstoneWireDirection, west: RedstoneWireDirection },
    DiamondOre {},
    DiamondBlock {},
    CraftingTable {},
    Wheat { age: u8 },
}

/// The number of kinds of blocks.
pub const BLOCK_COUNT: usize = 146;

/// Whether entities collide with the block (a unit cube) or pass through it.
pub open spec fn spec_collidable(b: BlockType) -> bool {
    match b {
        BlockType::Air { .. } => false,
        BlockType::OakSapling { .. } => false,
        BlockType::SpruceSapling { .. } => false,
        BlockType::BirchSapling { .. } => false,
        BlockType::JungleSapling { .. } => false,
        BlockType::AcaciaSapling { .. } => false,
        BlockType::DarkOakSapling { .. } => false,
        BlockType::Water { .. } => false,
        BlockType::Lava { .. } => false,
        BlockType::PoweredRail { .. } => false,
        BlockType::DetectorRail { .. } => false,
        BlockType::StickyPiston { .. } => false,
        BlockType::Grass { .. } => false,
        BlockType::Fern { .. } => false,
        BlockType::Piston { .. } => false,
        BlockType::PistonHead { .. } => false,
        BlockType::Torch { .. } => false,
        BlockType::WallTorch { .. } => false,
        BlockType::Fire { .. } => false,
        _ => true,
    }
}

/// Whether the block fills its whole cube.
pub open spec fn spec_full(b: BlockType) -> bool {
    match b {
        BlockType::Air { .. } => false,
        BlockType::OakSapling { .. } => false,
        BlockType::SpruceSapling { .. } => false,
        BlockType::BirchSapling { .. } => false,
        BlockType::JungleSapling { .. } => false,
        BlockType::AcaciaSapling { .. } => false,
        BlockType::DarkOakSapling { .. } => false,
        BlockType::PoweredRail { .. } => false,
        BlockType::DetectorRail { .. } => false,
        BlockType::StickyPiston { .. } => false,
        BlockType::Grass { .. } => false,
        BlockType::Piston { .. } => false,
        BlockType::PistonHead { .. } => false,
        BlockType::Torch { .. } => false,
        BlockType::WallTorch { .. } => false,
        BlockType::Fire { .. } => false,
        _ => true,
    }
}

/// Whether the block holds water.
pub open spec fn spec_waterlogged(b: BlockType) -> bool {
    match b {
        BlockType::Water { .. } => true,
        BlockType::Seagrass { .. } => true,
        BlockType::TallSeagrass { .. } => true,
        _ => false,
    }
}

/// Whether light and sight pass through the block.
pub open spec fn spec_transparent(b: BlockType) -> bool {
    match b {
        BlockType::Water { .. } => true,
        BlockType::Lava { .. } => true,
        BlockType::OakLeaves { .. } => true,
        BlockType::SpruceLeaves { .. } => true,
        BlockType::BirchLeaves { .. } => true,
        BlockType::JungleLeaves { .. } => true,
        BlockType::AcaciaLeaves { .. } => true,
        BlockType::DarkOakLeaves { .. } => true,
        BlockType::Glass { .. } => true,
        BlockType::Cobweb { .. } => true,
        BlockType::Grass { .. } => true,
        BlockType::Fern { .. } => true,
        BlockType::DeadBush { .. } => true,
        BlockType::Seagrass { .. } => true,
        BlockType::TallSeagrass { .. } => true,
        BlockType::Dandelion { .. } => true,
        BlockType::Poppy { .. } => true,
        BlockType::BlueOrchid { .. } => true,
        BlockType::Allium { .. } => true,
        BlockType::AzureBluet { .. } => true,
        BlockType::RedTulip { .. } => true,
        BlockType::OrangeTulip { .. } => true,
        BlockType::WhiteTulip { .. } => true,
        BlockType::PinkTulip { .. } => true,
        BlockType::OxeyeDaisy { .. } => true,
        BlockType::Cornflower { .. } => true,
        BlockType::WitherRose { .. } => true,
        BlockType::LilyOfTheValley { .. } => true,
        BlockType::BrownMushroom { .. } => true,
        BlockType::RedMushroom { .. } => true,
        BlockType::Chest { .. } => true,
        BlockType::RedstoneWire { .. } => true,
        BlockType::Wheat { .. } => true,
        _ => false,
    }
}

/// The light level that the block gives off.
pub open spec fn spec_light_intensity(b: BlockType) -> u8 {
    match b {
        BlockType::Torch { .. } => 14u8,
        BlockType::WallTorch { .. } => 14u8,
        BlockType::Fire { .. } => 14u8,
        _ => 0u8,
    }
}

/// The colour of the light that the block gives off.
pub open spec fn spec_light_color(b: BlockType) -> [u8; 3] {
    match b {
        BlockType::Torch { .. } => [255u8, 255u8, 255u8],
        BlockType::WallTorch { .. } => [109u8, 8u8, 100u8],
        BlockType::Fire { .. } => [255u8, 255u8, 255u8],
        _ => [0u8, 0u8, 0u8],
    }
}

/// The namespaced identifier of the block.
pub open spec fn spec_identifier(b: BlockType) -> Seq<char> {
    match b {
        BlockType::Air { .. } => "minecraft:air"@,
        BlockType::Stone { .. } => "minecraft:stone"@,
        BlockType::Granite { .. } => "minecraft:granite"@,
        BlockType::SmoothGranite { .. } => "minecraft:smooth_granite"@,
        BlockType::Diorite { .. } => "minecraft:diorite"@,
        BlockType::SmoothDiorite { .. } => "minecraft:smooth_diorite"@,
        BlockType::Andesite { .. } => "minecraft:andesite"@,
        BlockType::SmoothAndesite { .. } => "minecraft:smooth_andesite"@,
        BlockType::GrassBlock { .. } => "minecraft:grass_block"@,
        BlockType::Dirt { .. } => "minecraft:dirt"@,
        BlockType::CoarseDirt { .. } => "minecraft:coarse_dirt"@,
        BlockType::Podzol { .. } => "minecraft:podzol"@,
        BlockType::Cobblestone { .. } => "minecraft:cobblestone"@,
        BlockType::Planks { .. } => "minecraft:wooden_planks"@,
        BlockType::OakSapling { .. } => "minecraft:oak_sapling"@,
        BlockType::SpruceSapling { .. } => "minecraft:spruce_sapling"@,
        BlockType::BirchSapling { .. } => "minecraft:birch_sapling"@,
        BlockType::JungleSapling { .. } => "minecraft:jungle_sapling"@,
        BlockType::AcaciaSapling { .. } => "minecraft:acacia_sapling"@,
        BlockType::DarkOakSapling { .. } => "minecraft:dark_oak_sapling"@,
        BlockType::Bedrock { .. } => "minecraft:bedrock"@,
        BlockType::Water { .. } => "minecraft:water"@,
        BlockType::Lava { .. } => "minecraft:lava"@,
        BlockType::Sand { .. } => "minecraft:sand"@,
        BlockType::RedSand { .. } => "minecraft:red_sand"@,
        BlockType::Gravel { .. } => "minecraft:gravel"@,
        BlockType::GoldOre { .. } => "minecraft:gold_ore"@,
        BlockType::IronOre { .. } => "minecraft:iron_ore"@,
        BlockType::CoalOre { .. } => "minecraft:coal_ore"@,
        BlockType::OakLog { .. } => "minecraft:oak_log"@,
        BlockType::SpruceLog { .. } => "minecraft:spruce_log"@,
        BlockType::BirchLog { .. } => "minecraft:birch_log"@,
        BlockType::JungleLog { .. } => "minecraft:jungle_log"@,
        BlockType::AcaciaLog { .. } => "minecraft:acacia_log"@,
        BlockType::DarkOakLog { .. } => "minecraft:dark_oak_log"@,
        BlockType::StrippedSpruceLog { .. } => "minecraft:stripped_spruce_log"@,
        BlockType::StrippedBirchLog { .. } => "minecraft:stripped_birch_log"@,
        BlockType::StrippedJungleLog { .. } => "minecraft:stripped_jungle_log"@,
        BlockType::StrippedAcaciaLog { .. } => "minecraft:stripped_acacia_log"@,
        BlockType::StrippedDarkOakLog { .. } => "minecraft:stripped_dark_oak_log"@,
        BlockType::StrippedOakLog { .. } => "minecraft:stripped_oak_log"@,
        BlockType::OakWood { .. } => "minecraft:oak_wood"@,
        BlockType::SpruceWood { .. } => "minecraft:spruce_wood"@,
        BlockType::BirchWood { .. } => "minecraft:birch_wood"@,
        BlockType::JungleWood { .. } => "minecraft:jungle_wood"@,
        BlockType::AcaciaWood { .. } => "minecraft:acacia_wood"@,
        BlockType::DarkOakWood { .. } => "minecraft:jungle_wood"@,
        BlockType::StrippedOakWood { .. } => "minecraft:stripped_oak_wood"@,
        BlockType::StrippedSpruceWood { .. } => "minecraft:stripped_spruce_wood"@,
        BlockType::StrippedBirchWood { .. } => "minecraft:stripped_birch_wood"@,
        BlockType::StrippedJungleWood { .. } => "minecraft:stripped_jungle_wood"@,
        BlockType::StrippedAcaciaWood { .. } => "minecraft:stripped_acacia_wood"@,
        BlockType::StrippedDarkOakWood { .. } => "minecraft:stripped_dark_oak_wood"@,
        BlockType::OakLeaves { .. } => "minecraft:oak_leaves"@,
        BlockType::SpruceLeaves { .. } => "minecraft:spruce_leaves"@,
        BlockType::BirchLeaves { .. } => "minecraft:birch_leaves"@,
        BlockType::JungleLeaves { .. } => "minecraft:jungle_leaves"@,
        BlockType::AcaciaLeaves { .. } => "minecraft:acacia_leaves"@,
        BlockType::DarkOakLeaves { .. } => "minecraft:dark_oak_leaves"@,
        BlockType::Sponge { .. } => "minecraft:sponge"@,
        BlockType::WetSponge { .. } => "minecraft:wet_sponge"@,
        BlockType::Glass { .. } => "minecraft:glass"@,
        BlockType::LapisOre { .. } => "minecraft:lapis_ore"@,
        BlockType::LapisBlock { .. } => "minecraft:lapis_block"@,
        BlockType::Dispenser { .. } => "minecraft:dispenser"@,
        BlockType::Sandstone { .. } => "minecraft:sandstone"@,
        BlockType::ChiseledSandstone { .. } => "minecraft:chiseled_sandstone"@,
        BlockType::CutSandstone { .. } => "minecraft:cut_sandstone"@,
        BlockType::NoteBlock { .. } => "minecraft:note_block"@,
        BlockType::WhiteBed { .. } => "minecraft:white_bed"@,
        BlockType::OrangeBed { .. } => "minecraft:orange_bed"@,
        BlockType::MagentaBed { .. } => "minecraft:magenta_bed"@,
        BlockType::LightBlueBed { .. } => "minecraft:light_blue_bed"@,
        BlockType::YellowBed { .. } => "minecraft:yellow_bed"@,
        BlockType::LimeBed { .. } => "minecraft:lime_bed"@,
        BlockType::PinkBed { .. } => "minecraft:pink_bed"@,
        BlockType::GrayBed { .. } => "minecraft:gray_bed"@,
        BlockType::LightGrayBed { .. } => "minecraft:light_gray_bed"@,
        BlockType::CyanBed { .. } => "minecraft:cyan_bed"@,
        BlockType::PurpleBed { .. } => "minecraft:purple_bed"@,
        BlockType::BlueBed { .. } => "minecraft:blue_bed"@,
        BlockType::BrownBed { .. } => "minecraft:brown_bed"@,
        BlockType::GreenBed { .. } => "minecraft:green_bed"@,
        BlockType::RedBed { .. } => "minecraft:red_bed"@,
        BlockType::BlackBed { .. } => "minecraft:black_bed"@,
        BlockType::PoweredRail { .. } => "minecraft:powered_rail"@,
        BlockType::DetectorRail { .. } => "minecraft:detector_rail"@,
        BlockType::StickyPiston { .. } => "minecraft:sticky_piston"@,
        BlockType::Cobweb { .. } => "minecraft:cobweb"@,
        BlockType::Grass { .. } => "minecraft:grass"@,
        BlockType::Fern { .. } => "minecraft:fern"@,
        BlockType::DeadBush { .. } => "minecraft:dead_bush"@,
        BlockType::Seagrass { .. } => "minecraft:seagrass"@,
        BlockType::TallSeagrass { .. } => "minecraft:tall_seagrass"@,
        BlockType::Piston { .. } => "minecraft:piston"@,
        BlockType::PistonHead { .. } => "minecraft:piston_head"@,
        BlockType::WhiteWool { .. } => "minecraft:white_wool"@,
        BlockType::OrangeWool { .. } => "minecraft:orange_wool"@,
        BlockType::MagentaWool { .. } => "minecraft:magenta_wool"@,
        BlockType::LightBlueWool { .. } => "minecraft:light_blue_wool"@,
        BlockType::YellowWool { .. } => "minecraft:yellow_wool"@,
        BlockType::LimeWool { .. } => "minecraft:lime_wool"@,
        BlockType::PinkWool { .. } => "minecraft:pink_wool"@,
        BlockType::GrayWool { .. } => "minecraft:gray_wool"@,
        BlockType::LightGrayWool { .. } => "minecraft:light_gray_wool"@,
        BlockType::CyanWool { .. } => "minecraft:cyan_wool"@,
        BlockType::PurpleWool { .. } => "minecraft:purple_wool"@,
        BlockType::BlueWool { .. } => "minecraft:blue_wool"@,
        BlockType::BrownWool { .. } => "minecraft:brown_wool"@,
        BlockType::GreenWool { .. } => "minecraft:green_wool"@,
        BlockType::RedWool { .. } => "minecraft:red_wool"@,
        BlockType::BlackWool { .. } => "minecraft:black_wool"@,
        BlockType::MovingPiston { .. } => "minecraft:moving_piston"@,
        BlockType::Dandelion { .. } => "minecraft:dandelion"@,
        BlockType::Poppy { .. } => "minecraft:poppy"@,
        BlockType::BlueOrchid { .. } => "minecraft:blue_orchid"@,
        BlockType::Allium { .. } => "minecraft:allium"@,
        BlockType::AzureBluet { .. } => "minecraft:azure_bluet"@,
        BlockType::RedTulip { .. } => "minecraft:red_tulip"@,
        BlockType::OrangeTulip { .. } => "minecraft:orange_tulip"@,
        BlockType::WhiteTulip { .. } => "minecraft:white_tulip"@,
        BlockType::PinkTulip { .. } => "minecraft:pink_tulip"@,
        BlockType::OxeyeDaisy { .. } => "minecraft:oxeye_daisy"@,
        BlockType::Cornflower { .. } => "minecraft:cornflower"@,
        BlockType::WitherRose { .. } => "minecraft:wither_rose"@,
        BlockType::LilyOfTheValley { .. } => "minecraft:lily_of_the_valley"@,
        BlockType::BrownMushroom { .. } => "minecraft:brown_mushroom"@,
        BlockType::RedMushroom { .. } => "minecraft:red_mushroom"@,
        BlockType::GoldBlock { .. } => "minecraft:gold_block"@,
        BlockType::IronBlock { .. } => "minecraft:iron_block"@,
        BlockType::Bricks { .. } => "minecraft:bricks"@,
        BlockType::TNT { .. } => "minecraft:tnt"@,
        BlockType::Bookshelf { .. } => "minecraft:bookshelf"@,
        BlockType::MossyCobblestone { .. } => "minecraft:mossy_cobblestone"@,
        BlockType::Obsidian { .. } => "minecraft:obsidian"@,
        BlockType::Torch { .. } => "minecraft:torch"@,
        BlockType::WallTorch { .. } => "minecraft:wall_torch"@,
        BlockType::Fire { .. } => "minecraft:fire"@,
        BlockType::Spawner { .. } => "minecraft:spawner"@,
        BlockType::OakStairs { .. } => "minecraft:oak_stairs"@,
        BlockType::Chest { .. } => "minecraft:chest"@,
        BlockType::RedstoneWire { .. } => "minecraft:redstone_wire"@,
        BlockType::DiamondOre { .. } => "minecraft:diamond_ore"@,
        BlockType::DiamondBlock { .. } => "minecraft:diamond_block"@,
        BlockType::CraftingTable { .. } => "minecraft:crafting_table"@,
        BlockType::Wheat { .. } => "minecraft:wheat"@,
    }
}

/// One block of each kind, in registry order, every property at its default.
pub open spec fn spec_blocks() -> Seq<BlockType> {
    seq![
        BlockType::Air {},
        BlockType::Stone {},
        BlockType::Granite {},
        BlockType::SmoothGranite {},
        BlockType::Diorite {},
        BlockType::SmoothDiorite {},
        BlockType::Andesite {},
        BlockType::SmoothAndesite {},
        BlockType::GrassBlock { snowy: false },
        BlockType::Dirt {},
        BlockType::CoarseDirt {},
        BlockType::Podzol { snowy: false },
        BlockType::Cobblestone {},
        BlockType::Planks { variant: TreeVariant::Oak },
        BlockType::OakSapling { stage: 0 },
        BlockType::SpruceSapling { stage: 0 },
        BlockType::BirchSapling { stage: 0 },
        BlockType::JungleSapling { stage: 0 },
        BlockType::AcaciaSapling { stage: 0 },
        BlockType::DarkOakSapling { stage: 0 },
        BlockType::Bedrock {},
        BlockType::Water { water: 0 },
        BlockType::Lava { water: 0 },
        BlockType::Sand {},
        BlockType::RedSand {},
        BlockType::Gravel {},
        BlockType::GoldOre {},
        BlockType::IronOre {},
        BlockType::CoalOre {},
        BlockType::OakLog { axis: Axis::X },
        BlockType::SpruceLog { axis: Axis::X },
        BlockType::BirchLog { axis: Axis::X },
        BlockType::JungleLog { axis: Axis::X },
        BlockType::AcaciaLog { axis: Axis::X },
        BlockType::DarkOakLog { axis: Axis::X },
        BlockType::StrippedSpruceLog { axis: Axis::X },
        BlockType::StrippedBirchLog { axis: Axis::X },
        BlockType::StrippedJungleLog { axis: Axis::X },
        BlockType::StrippedAcaciaLog { axis: Axis::X },
        BlockType::StrippedDarkOakLog { axis: Axis::X },
        BlockType::StrippedOakLog { axis: Axis::X },
        BlockType::OakWood { axis: Axis::X },
        BlockType::SpruceWood { axis: Axis::X },
        BlockType::BirchWood { axis: Axis::X },
        BlockType::JungleWood { axis: Axis::X },
        BlockType::AcaciaWood { axis: Axis::X },
        BlockType::DarkOakWood { axis: Axis::X },
        BlockType::StrippedOakWood { axis: Axis::X },
        BlockType::StrippedSpruceWood { axis: Axis::X },
        BlockType::StrippedBirchWood { axis: Axis::X },
        BlockType::StrippedJungleWood { axis: Axis::X },
        BlockType::StrippedAcaciaWood { axis: Axis::X },
        BlockType::StrippedDarkOakWood { axis: Axis::X },
        BlockType::OakLeaves { distance: 0, persistent: false },
        BlockType::SpruceLeaves { distance: 0, persistent: false },
        BlockType::BirchLeaves { distance: 0, persistent: false },
        BlockType::JungleLeaves { distance: 0, persistent: false },
        BlockType::AcaciaLeaves { distance: 0, persistent: false },
        BlockType::DarkOakLeaves { distance: 0, persistent: false },
        BlockType::Sponge {},
        BlockType::WetSponge {},
        BlockType::Glass {},
        BlockType::LapisOre {},
        BlockType::LapisBlock {},
        BlockType::Dispenser { facing: Direction::Up, triggered: false },
        BlockType::Sandstone {},
        BlockType::ChiseledSandstone {},
        BlockType::CutSandstone {},
        BlockType::NoteBlock { instrument: Instrument::Banjo, note: 0, powered: false },
        BlockType::WhiteBed { facing: Direction::Up, occupied: false, head_part: false },
        BlockType::OrangeBed { facing: Direction::Up, occupied: false, head_part: false },
        BlockType::MagentaBed { facing: Direction::Up, occupied: false, head_part: false },
        BlockType::LightBlueBed { facing: Direction::Up, occupied: false, head_part: false },
        BlockType::YellowBed { facing: Direction::Up, occupied: false, head_part: false },
        BlockType::LimeBed { facing: Direction::Up, occupied: false, head_part: false },
        BlockType::PinkBed { facing: Direction::Up, occupied: false, head_part: false },
        BlockType::GrayBed { facing: Direction::Up, occupied: false, head_part: false },
        BlockType::LightGrayBed { facing: Direction::Up, occupied: false, head_part: false },
        BlockType::CyanBed { facing: Direction::Up, occupied: false, head_part: false },
        BlockType::PurpleBed { facing: Direction::Up, occupied: false, head_part: false },
        BlockType::BlueBed { facing: Direction::Up, occupied: false, head_part: false },
        BlockType::BrownBed { facing: Direction::Up, occupied: false, head_part: false },
        BlockType::GreenBed { facing: Direction::Up, occupied: false, head_part: false },
        BlockType::RedBed { facing: Direction::Up, occupied: false, head_part: false },
        BlockType::BlackBed { facing: Direction::Up, occupied: false, head_part: false },
        BlockType::PoweredRail { powered: false, shape: RailShape::AscendingEast },
        BlockType::DetectorRail { powered: false, shape: RailShape::AscendingEast },
        BlockType::StickyPiston { extended: false, facing: Direction::Up },
        BlockType::Cobweb {},
        BlockType::Grass {},
        BlockType::Fern {},
        BlockType::DeadBush {},
        BlockType::Seagrass {},
        BlockType::TallSeagrass { upper_half: false },
        BlockType::Piston { extended: false, facing: Direction::Up },
        BlockType::PistonHead { facing: Direction::Up, short: false, is_sticky: false },
        BlockType::WhiteWool {},
        BlockType::OrangeWool {},
        BlockType::MagentaWool {},
        BlockType::LightBlueWool {},
        BlockType::YellowWool {},
        BlockType::LimeWool {},
        BlockType::PinkWool {},
        BlockType::GrayWool {},
        BlockType::LightGrayWool {},
        BlockType::CyanWool {},
        BlockType::PurpleWool {},
        BlockType::BlueWool {},
        BlockType::BrownWool {},
        BlockType::GreenWool {},
        BlockType::RedWool {},
        BlockType::BlackWool {},
        BlockType::MovingPiston { facing: Direction::Up, is_sticky: false },
        BlockType::Dandelion {},
        BlockType::Poppy {},
        BlockType::BlueOrchid {},
        BlockType::Allium {},
        BlockType::AzureBluet {},
        BlockType::RedTulip {},
        BlockType::OrangeTulip {},
        BlockType::WhiteTulip {},
        BlockType::PinkTulip {},
        BlockType::OxeyeDaisy {},
        BlockType::Cornflower {},
        BlockType::WitherRose {},
        BlockType::LilyOfTheValley {},
        BlockType::BrownMushroom {},
        BlockType::RedMushroom {},
        BlockType::GoldBlock {},
        BlockType::IronBlock {},
        BlockType::Bricks {},
        BlockType::TNT { unstable: false },
        BlockType::Bookshelf {},
        BlockType::MossyCobblestone {},
        BlockType::Obsidian {},
        BlockType::Torch {},
        BlockType::WallTorch { facing: Direction::Up },
        BlockType::Fire { age: 0, east: false, north: false, south: false, up: false, west: false },
        BlockType::Spawner {},
        BlockType::OakStairs { facing: Direction::Up, top: false, shape: StairShape::Straight, waterlogged: false },
        BlockType::Chest { facing: Direction::Up, chest_type: ChestType::Single, waterlogged: false },
        BlockType::RedstoneWire { east: RedstoneWireDirection::Unconnected, north: RedstoneWireDirection::Unconnected, power: 0, south: RedstoneWireDirection::Unconnected, west: RedstoneWireDirection::Unconnected },
        BlockType::DiamondOre {},
        BlockType::DiamondBlock {},
        BlockType::CraftingTable {},
        BlockType::Wheat { age: 0 },
    ]
}

/// One block of each kind, in registry order, every property at its default.
pub fn get_blocks() -> (blocks: Vec<BlockType>)
    ensures
        blocks@ == spec_blocks(),
{
    vec![
        BlockType::Air {},
        BlockType::Stone {},
        BlockType::Granite {},
        BlockType::SmoothGranite {},
        BlockType::Diorite {},
        BlockType::SmoothDiorite {},
        BlockType::Andesite {},
        BlockType::SmoothAndesite {},
        BlockType::GrassBlock { snowy: false },
        BlockType::Dirt {},
        BlockType::CoarseDirt {},
        BlockType::Podzol { snowy: false },
        BlockType::Cobblestone {},
        BlockType::Planks { variant: TreeVariant::Oak },
        BlockType::OakSapling { stage: 0 },
        BlockType::SpruceSapling { stage: 0 },
        BlockType::BirchSapling { stage: 0 },
        BlockType::JungleSapling { stage: 0 },
        BlockType::AcaciaSapling { stage: 0 },
        BlockType::DarkOakSapling { stage: 0 },
        BlockType::Bedrock {},
        BlockType::Water { water: 0 },
        BlockType::Lava { water: 0 },
        BlockType::Sand {},
        BlockType::RedSand {},
        BlockType::Gravel {},
        BlockType::GoldOre {},
        BlockType::IronOre {},
        BlockType::CoalOre {},
        BlockType::OakLog { axis: Axis::X },
        BlockType::SpruceLog { axis: Axis::X },
        BlockType::BirchLog { axis: Axis::X },
        BlockType::JungleLog { axis: Axis::X },
        BlockType::AcaciaLog { axis: Axis::X },
        BlockType::DarkOakLog { axis: Axis::X },
        BlockType::StrippedSpruceLog { axis: Axis::X },
        BlockType::StrippedBirchLog { axis: Axis::X },
        BlockType::StrippedJungleLog { axis: Axis::X },
        BlockType::StrippedAcaciaLog { axis: Axis::X },
        BlockType::StrippedDarkOakLog { axis: Axis::X },
        BlockType::StrippedOakLog { axis: Axis::X },
        BlockType::OakWood { axis: Axis::X },
        BlockType::SpruceWood { axis: Axis::X },
        BlockType::BirchWood { axis: Axis::X },
        BlockType::JungleWood { axis: Axis::X },
        BlockType::AcaciaWood { axis: Axis::X },
        BlockType::DarkOakWood { axis: Axis::X },
        BlockType::StrippedOakWood { axis: Axis::X },
        BlockType::StrippedSpruceWood { axis: Axis::X },
        BlockType::StrippedBirchWood { axis: Axis::X },
        BlockType::StrippedJungleWood { axis: Axis::X },
        BlockType::StrippedAcaciaWood { axis: Axis::X },
        BlockType::StrippedDarkOakWood { axis: Axis::X },
        BlockType::OakLeaves { distance: 0, persistent: false },
        BlockType::SpruceLeaves { distance: 0, persistent: false },
        BlockType::BirchLeaves { distance: 0, persistent: false },
        BlockType::JungleLeaves { distance: 0, persistent: false },
        BlockType::AcaciaLeaves { distance: 0, persistent: false },
        BlockType::DarkOakLeaves { distance: 0, persistent: false },
        BlockType::Sponge {},
        BlockType::WetSponge {},
        BlockType::Glass {},
        BlockType::LapisOre {},
        BlockType::LapisBlock {},
        BlockType::Dispenser { facing: Direction::Up, triggered: false },
        BlockType::Sandstone {},
        BlockType::ChiseledSandstone {},
        BlockType::CutSandstone {},
        BlockType::NoteBlock { instrument: Instrument::Banjo, note: 0, powered: false },
        BlockType::WhiteBed { facing: Direction::Up, occupied: false, head_part: false },
        BlockType::OrangeBed { facing: Direction::Up, occupied: false, head_part: false },
        BlockType::MagentaBed { facing: Direction::Up, occupied: false, head_part: false },
        BlockType::LightBlueBed { facing: Direction::Up, occupied: false, head_part: false },
        BlockType::YellowBed { facing: Direction::Up, occupied: false, head_part: false },
        BlockType::LimeBed { facing: Direction::Up, occupied: false, head_part: false },
        BlockType::PinkBed { facing: Direction::Up, occupied: false, head_part: false },
        BlockType::GrayBed { facing: Direction::Up, occupied: false, head_part: false },
        BlockType::LightGrayBed { facing: Direction::Up, occupied: false, head_part: false },
        BlockType::CyanBed { facing: Direction::Up, occupied: false, head_part: false },
        BlockType::PurpleBed { facing: Direction::Up, occupied: false, head_part: false },
        BlockType::BlueBed { facing: Direction::Up, occupied: false, head_part: false },
        BlockType::BrownBed { facing: Direction::Up, occupied: false, head_part: false },
        BlockType::GreenBed { facing: Direction::Up, occupied: false, head_part: false },
        BlockType::RedBed { facing: Direction::Up, occupied: false, head_part: false },
        BlockType::BlackBed { facing: Direction::Up, occupied: false, head_part: false },
        BlockType::PoweredRail { powered: false, shape: RailShape::AscendingEast },
        BlockType::DetectorRail { powered: false, shape: RailShape::AscendingEast },
        BlockType::StickyPiston { extended: false, facing: Direction::Up },
        BlockType::Cobweb {},
        BlockType::Grass {},
        BlockType::Fern {},
        BlockType::DeadBush {},
        BlockType::Seagrass {},
        BlockType::TallSeagrass { upper_half: false },
        BlockType::Piston { extended: false, facing: Direction::Up },
        BlockType::PistonHead { facing: Direction::Up, short: false, is_sticky: false },
        BlockType::WhiteWool {},
        BlockType::OrangeWool {},
        BlockType::MagentaWool {},
        BlockType::LightBlueWool {},
        BlockType::YellowWool {},
        BlockType::LimeWool {},
        BlockType::PinkWool {},
        BlockType::GrayWool {},
        BlockType::LightGrayWool {},
        BlockType::CyanWool {},
        BlockType::PurpleWool {},
        BlockType::BlueWool {},
        BlockType::BrownWool {},
        BlockType::GreenWool {},
        BlockType::RedWool {},
        BlockType::BlackWool {},
        BlockType::MovingPiston { facing: Direction::Up, is_sticky: false },
        BlockType::Dandelion {},
        BlockType::Poppy {},
        BlockType::BlueOrchid {},
        BlockType::Allium {},
        BlockType::AzureBluet {},
        BlockType::RedTulip {},
        BlockType::OrangeTulip {},
        BlockType::WhiteTulip {},
        BlockType::PinkTulip {},
        BlockType::OxeyeDaisy {},
        BlockType::Cornflower {},
        BlockType::WitherRose {},
        BlockType::LilyOfTheValley {},
        BlockType::BrownMushroom {},
        BlockType::RedMushroom {},
        BlockType::GoldBlock {},
        BlockType::IronBlock {},
        BlockType::Bricks {},
        BlockType::TNT { unstable: false },
        BlockType::Bookshelf {},
        BlockType::MossyCobblestone {},
        BlockType::Obsidian {},
        BlockType::Torch {},
        BlockType::WallTorch { facing: Direction::Up },
        BlockType::Fire { age: 0, east: false, north: false, south: false, up: false, west: false },
        BlockType::Spawner {},
        BlockType::OakStairs { facing: Direction::Up, top: false, shape: StairShape::Straight, waterlogged: false },
        BlockType::Chest { facing: Direction::Up, chest_type: ChestType::Single, waterlogged: false },
        BlockType::RedstoneWire { east: RedstoneWireDirection::Unconnected, north: RedstoneWireDirection::Unconnected, power: 0, south: RedstoneWireDirection::Unconnected, west: RedstoneWireDirection::Unconnected },
        BlockType::DiamondOre {},
        BlockType::DiamondBlock {},
        BlockType::CraftingTable {},
        BlockType::Wheat { age: 0 },
    ]
}

impl BlockType {
    /// Whether entities collide with the block (a unit cube) or pass through it.
    pub fn is_collidable(&self) -> (r: bool)
        ensures
            r == spec_collidable(*self),
    {
        match self {
            BlockType::Air { .. } => false,
            BlockType::OakSapling { .. } => false,
            BlockType::SpruceSapling { .. } => false,
            BlockType::BirchSapling { .. } => false,
            BlockType::JungleSapling { .. } => false,
            BlockType::AcaciaSapling { .. } => false,
            BlockType::DarkOakSapling { .. } => false,
            BlockType::Water { .. } => false,
            BlockType::Lava { .. } => false,
            BlockType::PoweredRail { .. } => false,
            BlockType::DetectorRail { .. } => false,
            BlockType::StickyPiston { .. } => false,
            BlockType::Grass { .. } => false,
            BlockType::Fern { .. } => false,
            BlockType::Piston { .. } => false,
            BlockType::PistonHead { .. } => false,
            BlockType::Torch { .. } => false,
            BlockType::WallTorch { .. } => false,
            BlockType::Fire { .. } => false,
            _ => true,
        }
    }

    /// Whether the block fills its whole cube.
    pub fn is_block_full(&self) -> (r: bool)
        ensures
            r == spec_full(*self),
    {
        match self {
            BlockType::Air { .. } => false,
            BlockType::OakSapling { .. } => false,
            BlockType::SpruceSapling { .. } => false,
            BlockType::BirchSapling { .. } => false,
            BlockType::JungleSapling { .. } => false,
            BlockType::AcaciaSapling { .. } => false,
            BlockType::DarkOakSapling { .. } => false,
            BlockType::PoweredRail { .. } => false,
            BlockType::DetectorRail { .. } => false,
            BlockType::StickyPiston { .. } => false,
            BlockType::Grass { .. } => false,
            BlockType::Piston { .. } => false,
            BlockType::PistonHead { .. } => false,
            BlockType::Torch { .. } => false,
            BlockType::WallTorch { .. } => false,
            BlockType::Fire { .. } => false,
            _ => true,
        }
    }

    /// Whether the block holds water.
    pub fn is_waterlogged(&self) -> (r: bool)
        ensures
            r == spec_waterlogged(*self),
    {
        match self {
            BlockType::Water { .. } => true,
            BlockType::Seagrass { .. } => true,
            BlockType::TallSeagrass { .. } => true,
            _ => false,
        }
    }

    /// Whether light and sight pass through the block.
    pub fn get_transparency(&self) -> (r: bool)
        ensures
            r == spec_transparent(*self),
    {
        match self {
            BlockType::Water { .. } => true,
            BlockType::Lava { .. } => true,
            BlockType::OakLeaves { .. } => true,
            BlockType::SpruceLeaves { .. } => true,
            BlockType::BirchLeaves { .. } => true,
            BlockType::JungleLeaves { .. } => true,
            BlockType::AcaciaLeaves { .. } => true,
            BlockType::DarkOakLeaves { .. } => true,
            BlockType::Glass { .. } => true,
            BlockType::Cobweb { .. } => true,
            BlockType::Grass { .. } => true,
            BlockType::Fern { .. } => true,
            BlockType::DeadBush { .. } => true,
            BlockType::Seagrass { .. } => true,
            BlockType::TallSeagrass { .. } => true,
            BlockType::Dandelion { .. } => true,
            BlockType::Poppy { .. } => true,
            BlockType::BlueOrchid { .. } => true,
            BlockType::Allium { .. } => true,
            BlockType::AzureBluet { .. } => true,
            BlockType::RedTulip { .. } => true,
            BlockType::OrangeTulip { .. } => true,
            BlockType::WhiteTulip { .. } => true,
            BlockType::PinkTulip { .. } => true,
            BlockType::OxeyeDaisy { .. } => true,
            BlockType::Cornflower { .. } => true,
            BlockType::WitherRose { .. } => true,
            BlockType::LilyOfTheValley { .. } => true,
            BlockType::BrownMushroom { .. } => true,
            BlockType::RedMushroom { .. } => true,
            BlockType::Chest { .. } => true,
            BlockType::RedstoneWire { .. } => true,
            BlockType::Wheat { .. } => true,
            _ => false,
        }
    }

    /// How many blocks of this kind fit in one inventory slot.
    pub fn get_stacksize(&self) -> (r: u16)
        ensures
            r == 64,
    {
        64
    }

    /// The light level that the block gives off.
    pub fn get_light_intensity(&self) -> (r: u8)
        ensures
            r == spec_light_intensity(*self),
    {
        match self {
            BlockType::Torch { .. } => 14,
            BlockType::WallTorch { .. } => 14,
            BlockType::Fire { .. } => 14,
            _ => 0,
        }
    }

    /// The colour of the light that the block gives off.
    pub fn get_light_color(&self) -> (r: [u8; 3])
        ensures
            r == spec_light_color(*self),
    {
        match self {
            BlockType::Torch { .. } => [255u8, 255u8, 255u8],
            BlockType::WallTorch { .. } => [109u8, 8u8, 100u8],
            BlockType::Fire { .. } => [255u8, 255u8, 255u8],
            _ => [0, 0, 0],
        }
    }

    /// The namespaced identifier of the block.
    pub fn get_identifier(&self) -> (r: &'static str)
        ensures
            r@ == spec_identifier(*self),
    {
        match self {
            BlockType::Air { .. } => "minecraft:air",
            BlockType::Stone { .. } => "minecraft:stone",
            BlockType::Granite { .. } => "minecraft:granite",
            BlockType::SmoothGranite { .. } => "minecraft:smooth_granite",
            BlockType::Diorite { .. } => "minecraft:diorite",
            BlockType::SmoothDiorite { .. } => "minecraft:smooth_diorite",
            BlockType::Andesite { .. } => "minecraft:andesite",
            BlockType::SmoothAndesite { .. } => "minecraft:smooth_andesite",
            BlockType::GrassBlock { .. } => "minecraft:grass_block",
            BlockType::Dirt { .. } => "minecraft:dirt",
            BlockType::CoarseDirt { .. } => "minecraft:coarse_dirt",
            BlockType::Podzol { .. } => "minecraft:podzol",
            BlockType::Cobblestone { .. } => "minecraft:cobblestone",
            BlockType::Planks { .. } => "minecraft:wooden_planks",
            BlockType::OakSapling { .. } => "minecraft:oak_sapling",
            BlockType::SpruceSapling { .. } => "minecraft:spruce_sapling",
            BlockType::BirchSapling { .. } => "minecraft:birch_sapling",
            BlockType::JungleSapling { .. } => "minecraft:jungle_sapling",
            BlockType::AcaciaSapling { .. } => "minecraft:acacia_sapling",
            BlockType::DarkOakSapling { .. } => "minecraft:dark_oak_sapling",
            BlockType::Bedrock { .. } => "minecraft:bedrock",
            BlockType::Water { .. } => "minecraft:water",
            BlockType::Lava { .. } => "minecraft:lava",
            BlockType::Sand { .. } => "minecraft:sand",
            BlockType::RedSand { .. } => "minecraft:red_sand",
            BlockType::Gravel { .. } => "minecraft:gravel",
            BlockType::GoldOre { .. } => "minecraft:gold_ore",
            BlockType::IronOre { .. } => "minecraft:iron_ore",
            BlockType::CoalOre { .. } => "minecraft:coal_ore",
            BlockType::OakLog { .. } => "minecraft:oak_log",
            BlockType::SpruceLog { .. } => "minecraft:spruce_log",
            BlockType::BirchLog { .. } => "minecraft:birch_log",
            BlockType::JungleLog { .. } => "minecraft:jungle_log",
            BlockType::AcaciaLog { .. } => "minecraft:acacia_log",
            BlockType::DarkOakLog { .. } => "minecraft:dark_oak_log",
            BlockType::StrippedSpruceLog { .. } => "minecraft:stripped_spruce_log",
            BlockType::StrippedBirchLog { .. } => "minecraft:stripped_birch_log",
            BlockType::StrippedJungleLog { .. } => "minecraft:stripped_jungle_log",
            BlockType::StrippedAcaciaLog { .. } => "minecraft:stripped_acacia_log",
            BlockType::StrippedDarkOakLog { .. } => "minecraft:stripped_dark_oak_log",
            BlockType::StrippedOakLog { .. } => "minecraft:stripped_oak_log",
            BlockType::OakWood { .. } => "minecraft:oak_wood",
            BlockType::SpruceWood { .. } => "minecraft:spruce_wood",
            BlockType::BirchWood { .. } => "minecraft:birch_wood",
            BlockType::JungleWood { .. } => "minecraft:jungle_wood",
            BlockType::AcaciaWood { .. } => "minecraft:acacia_wood",
            BlockType::DarkOakWood { .. } => "minecraft:jungle_wood",
            BlockType::StrippedOakWood { .. } => "minecraft:stripped_oak_wood",
            BlockType::StrippedSpruceWood { .. } => "minecraft:stripped_spruce_wood",
            BlockType::StrippedBirchWood { .. } => "minecraft:stripped_birch_wood",
            BlockType::StrippedJungleWood { .. } => "minecraft:stripped_jungle_wood",
            BlockType::StrippedAcaciaWood { .. } => "minecraft:stripped_acacia_wood",
            BlockType::StrippedDarkOakWood { .. } => "minecraft:stripped_dark_oak_wood",
            BlockType::OakLeaves { .. } => "minecraft:oak_leaves",
            BlockType::SpruceLeaves { .. } => "minecraft:spruce_leaves",
            BlockType::BirchLeaves { .. } => "minecraft:birch_leaves",
            BlockType::JungleLeaves { .. } => "minecraft:jungle_leaves",
            BlockType::AcaciaLeaves { .. } => "minecraft:acacia_leaves",
            BlockType::DarkOakLeaves { .. } => "minecraft:dark_oak_leaves",
            BlockType::Sponge { .. } => "minecraft:sponge",
            BlockType::WetSponge { .. } => "minecraft:wet_sponge",
            BlockType::Glass { .. } => "minecraft:glass",
            BlockType::LapisOre { .. } => "minecraft:lapis_ore",
            BlockType::LapisBlock { .. } => "minecraft:lapis_block",
            BlockType::Dispenser { .. } => "minecraft:dispenser",
            BlockType::Sandstone { .. } => "minecraft:sandstone",
            BlockType::ChiseledSandstone { .. } => "minecraft:chiseled_sandstone",
            BlockType::CutSandstone { .. } => "minecraft:cut_sandstone",
            BlockType::NoteBlock { .. } => "minecraft:note_block",
            BlockType::WhiteBed { .. } => "minecraft:white_bed",
            BlockType::OrangeBed { .. } => "minecraft:orange_bed",
            BlockType::MagentaBed { .. } => "minecraft:magenta_bed",
            BlockType::LightBlueBed { .. } => "minecraft:light_blue_bed",
            BlockType::YellowBed { .. } => "minecraft:yellow_bed",
            BlockType::LimeBed { .. } => "minecraft:lime_bed",
            BlockType::PinkBed { .. } => "minecraft:pink_bed",
            BlockType::GrayBed { .. } => "minecraft:gray_bed",
            BlockType::LightGrayBed { .. } => "minecraft:light_gray_bed",
            BlockType::CyanBed { .. } => "minecraft:cyan_bed",
            BlockType::PurpleBed { .. } => "minecraft:purple_bed",
            BlockType::BlueBed { .. } => "minecraft:blue_bed",
            BlockType::BrownBed { .. } => "minecraft:brown_bed",
            BlockType::GreenBed { .. } => "minecraft:green_bed",
            BlockType::RedBed { .. } => "minecraft:red_bed",
            BlockType::BlackBed { .. } => "minecraft:black_bed",
            BlockType::PoweredRail { .. } => "minecraft:powered_rail",
            BlockType::DetectorRail { .. } => "minecraft:detector_rail",
            BlockType::StickyPiston { .. } => "minecraft:sticky_piston",
            BlockType::Cobweb { .. } => "minecraft:cobweb",
            BlockType::Grass { .. } => "minecraft:grass",
            BlockType::Fern { .. } => "minecraft:fern",
            BlockType::DeadBush { .. } => "minecraft:dead_bush",
            BlockType::Seagrass { .. } => "minecraft:seagrass",
            BlockType::TallSeagrass { .. } => "minecraft:tall_seagrass",
            BlockType::Piston { .. } => "minecraft:piston",
            BlockType::PistonHead { .. } => "minecraft:piston_head",
            BlockType::WhiteWool { .. } => "minecraft:white_wool",
            BlockType::OrangeWool { .. } => "minecraft:orange_wool",
            BlockType::MagentaWool { .. } => "minecraft:magenta_wool",
            BlockType::LightBlueWool { .. } => "minecraft:light_blue_wool",
            BlockType::YellowWool { .. } => "minecraft:yellow_wool",
            BlockType::LimeWool { .. } => "minecraft:lime_wool",
            BlockType::PinkWool { .. } => "minecraft:pink_wool",
            BlockType::GrayWool { .. } => "minecraft:gray_wool",
            BlockType::LightGrayWool { .. } => "minecraft:light_gray_wool",
            BlockType::CyanWool { .. } => "minecraft:cyan_wool",
            BlockType::PurpleWool { .. } => "minecraft:purple_wool",
            BlockType::BlueWool { .. } => "minecraft:blue_wool",
            BlockType::BrownWool { .. } => "minecraft:brown_wool",
            BlockType::GreenWool { .. } => "minecraft:green_wool",
            BlockType::RedWool { .. } => "minecraft:red_wool",
            BlockType::BlackWool { .. } => "minecraft:black_wool",
            BlockType::MovingPiston { .. } => "minecraft:moving_piston",
            BlockType::Dandelion { .. } => "minecraft:dandelion",
            BlockType::Poppy { .. } => "minecraft:poppy",
            BlockType::BlueOrchid { .. } => "minecraft:blue_orchid",
            BlockType::Allium { .. } => "minecraft:allium",
            BlockType::AzureBluet { .. } => "minecraft:azure_bluet",
            BlockType::RedTulip { .. } => "minecraft:red_tulip",
            BlockType::OrangeTulip { .. } => "minecraft:orange_tulip",
            BlockType::WhiteTulip { .. } => "minecraft:white_tulip",
            BlockType::PinkTulip { .. } => "minecraft:pink_tulip",
            BlockType::OxeyeDaisy { .. } => "minecraft:oxeye_daisy",
            BlockType::Cornflower { .. } => "minecraft:cornflower",
            BlockType::WitherRose { .. } => "minecraft:wither_rose",
            BlockType::LilyOfTheValley { .. } => "minecraft:lily_of_the_valley",
            BlockType::BrownMushroom { .. } => "minecraft:brown_mushroom",
            BlockType::RedMushroom { .. } => "minecraft:red_mushroom",
            BlockType::GoldBlock { .. } => "minecraft:gold_block",
            BlockType::IronBlock { .. } => "minecraft:iron_block",
            BlockType::Bricks { .. } => "minecraft:bricks",
            BlockType::TNT { .. } => "minecraft:tnt",
            BlockType::Bookshelf { .. } => "minecraft:bookshelf",
            BlockType::MossyCobblestone { .. } => "minecraft:mossy_cobblestone",
            BlockType::Obsidian { .. } => "minecraft:obsidian",
            BlockType::Torch { .. } => "minecraft:torch",
            BlockType::WallTorch { .. } => "minecraft:wall_torch",
            BlockType::Fire { .. } => "minecraft:fire",
            BlockType::Spawner { .. } => "minecraft:spawner",
            BlockType::OakStairs { .. } => "minecraft:oak_stairs",
            BlockType::Chest { .. } => "minecraft:chest",
            BlockType::RedstoneWire { .. } => "minecraft:redstone_wire",
            BlockType::DiamondOre { .. } => "minecraft:diamond_ore",
            BlockType::DiamondBlock { .. } => "minecraft:diamond_block",
            BlockType::CraftingTable { .. } => "minecraft:crafting_table",
            BlockType::Wheat { .. } => "minecraft:wheat",
        }
    }
}

} // verus!
