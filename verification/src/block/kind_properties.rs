//! The properties of the kinds of block, stated by kind number: which kinds
//! entities pass through, which do not fill their cube, which hold water, which
//! let light through and which glow.

use vstd::prelude::*;
use super::block_type::{
    spec_blocks,
    spec_collidable,
    spec_full,
    spec_identifier,
    spec_light_color,
    spec_light_intensity,
    spec_transparent,
    spec_waterlogged,
    BlockType,
    BLOCK_COUNT,
};
use super::state_order::kind_of;

verus! {

/// The kinds that entities pass through: Air, OakSapling, SpruceSapling, BirchSapling, JungleSapling, AcaciaSapling, DarkOakSapling, Water, Lava, PoweredRail, DetectorRail, StickyPiston, Grass, Fern, Piston, PistonHead, Torch, WallTorch, Fire.
pub open spec fn passable_kind(k: int) -> bool {
    k == 0 || k == 14 || k == 15 || k == 16 || k == 17 || k == 18 || k == 19 || k == 21 || k == 22 || k == 85 || k == 86 || k == 87 || k == 89 || k == 90 || k == 94 || k == 95 || k == 135 || k == 136 || k == 137
}

/// The kinds that do not fill their cube: Air, OakSapling, SpruceSapling, BirchSapling, JungleSapling, AcaciaSapling, DarkOakSapling, PoweredRail, DetectorRail, StickyPiston, Grass, Piston, PistonHead, Torch, WallTorch, Fire.
pub open spec fn hollow_kind(k: int) -> bool {
    k == 0 || k == 14 || k == 15 || k == 16 || k == 17 || k == 18 || k == 19 || k == 85 || k == 86 || k == 87 || k == 89 || k == 94 || k == 95 || k == 135 || k == 136 || k == 137
}

/// The kinds that hold water: Water, Seagrass, TallSeagrass.
pub open spec fn water_kind(k: int) -> bool {
    k == 21 || k == 92 || k == 93
}

/// The kinds that let light and sight through: Water, Lava, OakLeaves, SpruceLeaves, BirchLeaves, JungleLeaves, AcaciaLeaves, DarkOakLeaves, Glass, Cobweb, Grass, Fern, DeadBush, Seagrass, TallSeagrass, Dandelion, Poppy, BlueOrchid, Allium, AzureBluet, RedTulip, OrangeTulip, WhiteTulip, PinkTulip, OxeyeDaisy, Cornflower, WitherRose, LilyOfTheValley, BrownMushroom, RedMushroom, Chest, RedstoneWire, Wheat.
pub open spec fn see_through_kind(k: int) -> bool {
    k == 21 || k == 22 || k == 53 || k == 54 || k == 55 || k == 56 || k == 57 || k == 58 || k == 61 || k == 88 || k == 89 || k == 90 || k == 91 || k == 92 || k == 93 || k == 113 || k == 114 || k == 115 || k == 116 || k == 117 || k == 118 || k == 119 || k == 120 || k == 121 || k == 122 || k == 123 || k == 124 || k == 125 || k == 126 || k == 127 || k == 140 || k == 141 || k == 145
}

/// The kinds that give off light: Torch, WallTorch, Fire.
pub open spec fn glowing_kind(k: int) -> bool {
    k == 135 || k == 136 || k == 137
}

/// Law: a block is collidable exactly when its kind is not one that entities pass
/// through; every other kind, such as stone, dirt or sand, is collidable.
pub proof fn law_collidable_by_kind(t: BlockType)
    ensures
        spec_collidable(t) == !passable_kind(kind_of(t)),
{
}

/// Law: a block fills its cube exactly when its kind is not a hollow one.
pub proof fn law_full_by_kind(t: BlockType)
    ensures
        spec_full(t) == !hollow_kind(kind_of(t)),
{
}

/// Law: a block holds water exactly when its kind is water, seagrass or tall seagrass.
pub proof fn law_waterlogged_by_kind(t: BlockType)
    ensures
        spec_waterlogged(t) == water_kind(kind_of(t)),
{
}

/// Law: a block lets light through exactly when its kind is a see-through one.
pub proof fn law_transparent_by_kind(t: BlockType)
    ensures
        spec_transparent(t) == see_through_kind(kind_of(t)),
{
}

/// Law: torches, wall torches and fire give off light of level 14; no other block
/// gives off light.
pub proof fn law_light_by_kind(t: BlockType)
    ensures
        spec_light_intensity(t) == (if glowing_kind(kind_of(t)) { 14u8 } else { 0u8 }),
{
}

/// The light colour of a kind: purple for wall torches, white for torches and
/// fire, none for every other kind.
pub open spec fn kind_light_color(k: int) -> [u8; 3] {
    if k == 136 {
        [109u8, 8u8, 100u8]
    } else if glowing_kind(k) {
        [255u8, 255u8, 255u8]
    } else {
        [0u8, 0u8, 0u8]
    }
}

/// Law: the light colour of a block is the light colour of its kind.
pub proof fn law_light_color_by_kind(t: BlockType)
    ensures
        spec_light_color(t) == kind_light_color(kind_of(t)),
{
}

/// The namespaced identifier of each kind, by kind number.
pub open spec fn kind_identifier(k: int) -> Seq<char> {
    if k == 0 {
        "minecraft:air"@
    } else if k == 1 {
        "minecraft:stone"@
    } else if k == 2 {
        "minecraft:granite"@
    } else if k == 3 {
        "minecraft:smooth_granite"@
    } else if k == 4 {
        "minecraft:diorite"@
    } else if k == 5 {
        "minecraft:smooth_diorite"@
    } else if k == 6 {
        "minecraft:andesite"@
    } else if k == 7 {
        "minecraft:smooth_andesite"@
    } else if k == 8 {
        "minecraft:grass_block"@
    } else if k == 9 {
        "minecraft:dirt"@
    } else if k == 10 {
        "minecraft:coarse_dirt"@
    } else if k == 11 {
        "minecraft:podzol"@
    } else if k == 12 {
        "minecraft:cobblestone"@
    } else if k == 13 {
        "minecraft:wooden_planks"@
    } else if k == 14 {
        "minecraft:oak_sapling"@
    } else if k == 15 {
        "minecraft:spruce_sapling"@
    } else if k == 16 {
        "minecraft:birch_sapling"@
    } else if k == 17 {
        "minecraft:jungle_sapling"@
    } else if k == 18 {
        "minecraft:acacia_sapling"@
    } else if k == 19 {
        "minecraft:dark_oak_sapling"@
    } else if k == 20 {
        "minecraft:bedrock"@
    } else if k == 21 {
        "minecraft:water"@
    } else if k == 22 {
        "minecraft:lava"@
    } else if k == 23 {
        "minecraft:sand"@
    } else if k == 24 {
        "minecraft:red_sand"@
    } else if k == 25 {
        "minecraft:gravel"@
    } else if k == 26 {
        "minecraft:gold_ore"@
    } else if k == 27 {
        "minecraft:iron_ore"@
    } else if k == 28 {
        "minecraft:coal_ore"@
    } else if k == 29 {
        "minecraft:oak_log"@
    } else if k == 30 {
        "minecraft:spruce_log"@
    } else if k == 31 {
        "minecraft:birch_log"@
    } else if k == 32 {
        "minecraft:jungle_log"@
    } else if k == 33 {
        "minecraft:acacia_log"@
    } else if k == 34 {
        "minecraft:dark_oak_log"@
    } else if k == 35 {
        "minecraft:stripped_spruce_log"@
    } else if k == 36 {
        "minecraft:stripped_birch_log"@
    } else if k == 37 {
        "minecraft:stripped_jungle_log"@
    } else if k == 38 {
        "minecraft:stripped_acacia_log"@
    } else if k == 39 {
        "minecraft:stripped_dark_oak_log"@
    } else if k == 40 {
        "minecraft:stripped_oak_log"@
    } else if k == 41 {
        "minecraft:oak_wood"@
    } else if k == 42 {
        "minecraft:spruce_wood"@
    } else if k == 43 {
        "minecraft:birch_wood"@
    } else if k == 44 {
        "minecraft:jungle_wood"@
    } else if k == 45 {
        "minecraft:acacia_wood"@
    } else if k == 46 {
        "minecraft:jungle_wood"@
    } else if k == 47 {
        "minecraft:stripped_oak_wood"@
    } else if k == 48 {
        "minecraft:stripped_spruce_wood"@
    } else if k == 49 {
        "minecraft:stripped_birch_wood"@
    } else if k == 50 {
        "minecraft:stripped_jungle_wood"@
    } else if k == 51 {
        "minecraft:stripped_acacia_wood"@
    } else if k == 52 {
        "minecraft:stripped_dark_oak_wood"@
    } else if k == 53 {
        "minecraft:oak_leaves"@
    } else if k == 54 {
        "minecraft:spruce_leaves"@
    } else if k == 55 {
        "minecraft:birch_leaves"@
    } else if k == 56 {
        "minecraft:jungle_leaves"@
    } else if k == 57 {
        "minecraft:acacia_leaves"@
    } else if k == 58 {
        "minecraft:dark_oak_leaves"@
    } else if k == 59 {
        "minecraft:sponge"@
    } else if k == 60 {
        "minecraft:wet_sponge"@
    } else if k == 61 {
        "minecraft:glass"@
    } else if k == 62 {
        "minecraft:lapis_ore"@
    } else if k == 63 {
        "minecraft:lapis_block"@
    } else if k == 64 {
        "minecraft:dispenser"@
    } else if k == 65 {
        "minecraft:sandstone"@
    } else if k == 66 {
        "minecraft:chiseled_sandstone"@
    } else if k == 67 {
        "minecraft:cut_sandstone"@
    } else if k == 68 {
        "minecraft:note_block"@
    } else if k == 69 {
        "minecraft:white_bed"@
    } else if k == 70 {
        "minecraft:orange_bed"@
    } else if k == 71 {
        "minecraft:magenta_bed"@
    } else if k == 72 {
        "minecraft:light_blue_bed"@
    } else if k == 73 {
        "minecraft:yellow_bed"@
    } else if k == 74 {
        "minecraft:lime_bed"@
    } else if k == 75 {
        "minecraft:pink_bed"@
    } else if k == 76 {
        "minecraft:gray_bed"@
    } else if k == 77 {
        "minecraft:light_gray_bed"@
    } else if k == 78 {
        "minecraft:cyan_bed"@
    } else if k == 79 {
        "minecraft:purple_bed"@
    } else if k == 80 {
        "minecraft:blue_bed"@
    } else if k == 81 {
        "minecraft:brown_bed"@
    } else if k == 82 {
        "minecraft:green_bed"@
    } else if k == 83 {
        "minecraft:red_bed"@
    } else if k == 84 {
        "minecraft:black_bed"@
    } else if k == 85 {
        "minecraft:powered_rail"@
    } else if k == 86 {
        "minecraft:detector_rail"@
    } else if k == 87 {
        "minecraft:sticky_piston"@
    } else if k == 88 {
        "minecraft:cobweb"@
    } else if k == 89 {
        "minecraft:grass"@
    } else if k == 90 {
        "minecraft:fern"@
    } else if k == 91 {
        "minecraft:dead_bush"@
    } else if k == 92 {
        "minecraft:seagrass"@
    } else if k == 93 {
        "minecraft:tall_seagrass"@
    } else if k == 94 {
        "minecraft:piston"@
    } else if k == 95 {
        "minecraft:piston_head"@
    } else if k == 96 {
        "minecraft:white_wool"@
    } else if k == 97 {
        "minecraft:orange_wool"@
    } else if k == 98 {
        "minecraft:magenta_wool"@
    } else if k == 99 {
        "minecraft:light_blue_wool"@
    } else if k == 100 {
        "minecraft:yellow_wool"@
    } else if k == 101 {
        "minecraft:lime_wool"@
    } else if k == 102 {
        "minecraft:pink_wool"@
    } else if k == 103 {
        "minecraft:gray_wool"@
    } else if k == 104 {
        "minecraft:light_gray_wool"@
    } else if k == 105 {
        "minecraft:cyan_wool"@
    } else if k == 106 {
        "minecraft:purple_wool"@
    } else if k == 107 {
        "minecraft:blue_wool"@
    } else if k == 108 {
        "minecraft:brown_wool"@
    } else if k == 109 {
        "minecraft:green_wool"@
    } else if k == 110 {
        "minecraft:red_wool"@
    } else if k == 111 {
        "minecraft:black_wool"@
    } else if k == 112 {
        "minecraft:moving_piston"@
    } else if k == 113 {
        "minecraft:dandelion"@
    } else if k == 114 {
        "minecraft:poppy"@
    } else if k == 115 {
        "minecraft:blue_orchid"@
    } else if k == 116 {
        "minecraft:allium"@
    } else if k == 117 {
        "minecraft:azure_bluet"@
    } else if k == 118 {
        "minecraft:red_tulip"@
    } else if k == 119 {
        "minecraft:orange_tulip"@
    } else if k == 120 {
        "minecraft:white_tulip"@
    } else if k == 121 {
        "minecraft:pink_tulip"@
    } else if k == 122 {
        "minecraft:oxeye_daisy"@
    } else if k == 123 {
        "minecraft:cornflower"@
    } else if k == 124 {
        "minecraft:wither_rose"@
    } else if k == 125 {
        "minecraft:lily_of_the_valley"@
    } else if k == 126 {
        "minecraft:brown_mushroom"@
    } else if k == 127 {
        "minecraft:red_mushroom"@
    } else if k == 128 {
        "minecraft:gold_block"@
    } else if k == 129 {
        "minecraft:iron_block"@
    } else if k == 130 {
        "minecraft:bricks"@
    } else if k == 131 {
        "minecraft:tnt"@
    } else if k == 132 {
        "minecraft:bookshelf"@
    } else if k == 133 {
        "minecraft:mossy_cobblestone"@
    } else if k == 134 {
        "minecraft:obsidian"@
    } else if k == 135 {
        "minecraft:torch"@
    } else if k == 136 {
        "minecraft:wall_torch"@
    } else if k == 137 {
        "minecraft:fire"@
    } else if k == 138 {
        "minecraft:spawner"@
    } else if k == 139 {
        "minecraft:oak_stairs"@
    } else if k == 140 {
        "minecraft:chest"@
    } else if k == 141 {
        "minecraft:redstone_wire"@
    } else if k == 142 {
        "minecraft:diamond_ore"@
    } else if k == 143 {
        "minecraft:diamond_block"@
    } else if k == 144 {
        "minecraft:crafting_table"@
    } else if k == 145 {
        "minecraft:wheat"@
    } else {
        Seq::empty()
    }
}

/// Law: the identifier of a block is the identifier of its kind.
pub proof fn law_identifier_by_kind(t: BlockType)
    ensures
        spec_identifier(t) == kind_identifier(kind_of(t)),
{
}

/// Law: the block list holds one block of each kind, in kind order: block `k` of
/// the list is of kind `k`.
pub proof fn law_blocks_in_kind_order(k: int)
    requires
        0 <= k < BLOCK_COUNT,
    ensures
        spec_blocks().len() == BLOCK_COUNT,
        kind_of(spec_blocks()[k]) == k,
{
}

} // verus!
