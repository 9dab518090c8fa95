//! The states of every kind of block, in the order that gives them their ids.
//! States that range over several properties list them odometer fashion: the
//! last property changes fastest.

use vstd::prelude::*;
use super::block_type::BlockType;
use super::{Axis, ChestType, Direction, Instrument, RailShape, RedstoneWireDirection, StairShape, TreeVariant};

verus! {

/// The `d`-th of `[true, false]`.
pub open spec fn true_first(d: int) -> bool {
    d == 0
}

/// The `d`-th of `[false, true]`.
pub open spec fn false_first(d: int) -> bool {
    d == 1
}

/// The `d`-th of the six directions North, East, South, West, Up, Down.
pub open spec fn direction_of_six(d: int) -> Direction {
    if d == 0 { Direction::North }
    else if d == 1 { Direction::East }
    else if d == 2 { Direction::South }
    else if d == 3 { Direction::West }
    else if d == 4 { Direction::Up }
    else { Direction::Down }
}

/// The `d`-th of the four directions North, South, West, East.
pub open spec fn direction_nswe(d: int) -> Direction {
    if d == 0 { Direction::North }
    else if d == 1 { Direction::South }
    else if d == 2 { Direction::West }
    else { Direction::East }
}

/// The `d`-th of the four directions North, East, South, West.
pub open spec fn direction_nesw(d: int) -> Direction {
    if d == 0 { Direction::North }
    else if d == 1 { Direction::East }
    else if d == 2 { Direction::South }
    else { Direction::West }
}

/// The `d`-th instrument, in declaration order.
pub open spec fn instrument_of(d: int) -> Instrument {
    if d == 0 { Instrument::Harp }
    else if d == 1 { Instrument::Basedrum }
    else if d == 2 { Instrument::Snare }
    else if d == 3 { Instrument::Hat }
    else if d == 4 { Instrument::Bass }
    else if d == 5 { Instrument::Flute }
    else if d == 6 { Instrument::Bell }
    else if d == 7 { Instrument::Guitar }
    else if d == 8 { Instrument::Chime }
    else if d == 9 { Instrument::Xylophone }
    else if d == 10 { Instrument::IronXylophone }
    else if d == 11 { Instrument::CowBell }
    else if d == 12 { Instrument::Didgeridoo }
    else if d == 13 { Instrument::Bit }
    else if d == 14 { Instrument::Banjo }
    else { Instrument::Pling }
}

/// The `d`-th rail shape, in declaration order.
pub open spec fn rail_shape_of(d: int) -> RailShape {
    if d == 0 { RailShape::NorthSouth }
    else if d == 1 { RailShape::EastWest }
    else if d == 2 { RailShape::AscendingEast }
    else if d == 3 { RailShape::AscendingWest }
    else if d == 4 { RailShape::AscendingNorth }
    else { RailShape::AscendingSouth }
}

/// The `d`-th stair shape, in declaration order.
pub open spec fn stair_shape_of(d: int) -> StairShape {
    if d == 0 { StairShape::Straight }
    else if d == 1 { StairShape::InnerLeft }
    else if d == 2 { StairShape::InnerRight }
    else if d == 3 { StairShape::OuterLeft }
    else { StairShape::OuterRight }
}

/// The `d`-th chest type, in declaration order.
pub open spec fn chest_type_of(d: int) -> ChestType {
    if d == 0 { ChestType::Single }
    else if d == 1 { ChestType::Left }
    else { ChestType::Right }
}

/// The `d`-th redstone wire direction, in declaration order.
pub open spec fn wire_direction_of(d: int) -> RedstoneWireDirection {
    if d == 0 { RedstoneWireDirection::Up }
    else if d == 1 { RedstoneWireDirection::Side }
    else { RedstoneWireDirection::Unconnected }
}

fn exec_direction_of_six(d: usize) -> (r: Direction)
    ensures
        r == direction_of_six(d as int),
{
    if d == 0 { Direction::North }
    else if d == 1 { Direction::East }
    else if d == 2 { Direction::South }
    else if d == 3 { Direction::West }
    else if d == 4 { Direction::Up }
    else { Direction::Down }
}

fn exec_direction_nswe(d: usize) -> (r: Direction)
    ensures
        r == direction_nswe(d as int),
{
    if d == 0 { Direction::North }
    else if d == 1 { Direction::South }
    else if d == 2 { Direction::West }
    else { Direction::East }
}

fn exec_direction_nesw(d: usize) -> (r: Direction)
    ensures
        r == direction_nesw(d as int),
{
    if d == 0 { Direction::North }
    else if d == 1 { Direction::East }
    else if d == 2 { Direction::South }
    else { Direction::West }
}

fn exec_instrument_of(d: usize) -> (r: Instrument)
    ensures
        r == instrument_of(d as int),
{
    if d == 0 { Instrument::Harp }
    else if d == 1 { Instrument::Basedrum }
    else if d == 2 { Instrument::Snare }
    else if d == 3 { Instrument::Hat }
    else if d == 4 { Instrument::Bass }
    else if d == 5 { Instrument::Flute }
    else if d == 6 { Instrument::Bell }
    else if d == 7 { Instrument::Guitar }
    else if d == 8 { Instrument::Chime }
    else if d == 9 { Instrument::Xylophone }
    else if d == 10 { Instrument::IronXylophone }
    else if d == 11 { Instrument::CowBell }
    else if d == 12 { Instrument::Didgeridoo }
    else if d == 13 { Instrument::Bit }
    else if d == 14 { Instrument::Banjo }
    else { Instrument::Pling }
}

fn exec_rail_shape_of(d: usize) -> (r: RailShape)
    ensures
        r == rail_shape_of(d as int),
{
    if d == 0 { RailShape::NorthSouth }
    else if d == 1 { RailShape::EastWest }
    else if d == 2 { RailShape::AscendingEast }
    else if d == 3 { RailShape::AscendingWest }
    else if d == 4 { RailShape::AscendingNorth }
    else { RailShape::AscendingSouth }
}

fn exec_stair_shape_of(d: usize) -> (r: StairShape)
    ensures
        r == stair_shape_of(d as int),
{
    if d == 0 { StairShape::Straight }
    else if d == 1 { StairShape::InnerLeft }
    else if d == 2 { StairShape::InnerRight }
    else if d == 3 { StairShape::OuterLeft }
    else { StairShape::OuterRight }
}

fn exec_chest_type_of(d: usize) -> (r: ChestType)
    ensures
        r == chest_type_of(d as int),
{
    if d == 0 { ChestType::Single }
    else if d == 1 { ChestType::Left }
    else { ChestType::Right }
}

fn exec_wire_direction_of(d: usize) -> (r: RedstoneWireDirection)
    ensures
        r == wire_direction_of(d as int),
{
    if d == 0 { RedstoneWireDirection::Up }
    else if d == 1 { RedstoneWireDirection::Side }
    else { RedstoneWireDirection::Unconnected }
}

/// The states of `Air`.
pub open spec fn spec_states_air() -> Seq<BlockType> {
    seq![BlockType::Air {}]
}

fn states_air() -> (v: Vec<BlockType>)
    ensures
        v@ == spec_states_air(),
{
    vec![BlockType::Air {}]
}

/// The states of `Stone`.
pub open spec fn spec_states_stone() -> Seq<BlockType> {
    seq![BlockType::Stone {}]
}

fn states_stone() -> (v: Vec<BlockType>)
    ensures
        v@ == spec_states_stone(),
{
    vec![BlockType::Stone {}]
}

/// The states of `Granite`.
pub open spec fn spec_states_granite() -> Seq<BlockType> {
    seq![BlockType::Granite {}]
}

fn states_granite() -> (v: Vec<BlockType>)
    ensures
        v@ == spec_states_granite(),
{
    vec![BlockType::Granite {}]
}

/// The states of `SmoothGranite`.
pub open spec fn spec_states_smooth_granite() -> Seq<BlockType> {
    seq![BlockType::SmoothGranite {}]
}

fn states_smooth_granite() -> (v: Vec<BlockType>)
    ensures
        v@ == spec_states_smooth_granite(),
{
    vec![BlockType::SmoothGranite {}]
}

/// The states of `Diorite`.
pub open spec fn spec_states_diorite() -> Seq<BlockType> {
    seq![BlockType::Diorite {}]
}

fn states_diorite() -> (v: Vec<BlockType>)
    ensures
        v@ == spec_states_diorite(),
{
    vec![BlockType::Diorite {}]
}

/// The states of `SmoothDiorite`.
pub open spec fn spec_states_smooth_diorite() -> Seq<BlockType> {
    seq![BlockType::SmoothDiorite {}]
}

fn states_smooth_diorite() -> (v: Vec<BlockType>)
    ensures
        v@ == spec_states_smooth_diorite(),
{
    vec![BlockType::SmoothDiorite {}]
}

/// The states of `Andesite`.
pub open spec fn spec_states_andesite() -> Seq<BlockType> {
    seq![BlockType::Andesite {}]
}

fn states_andesite() -> (v: Vec<BlockType>)
    ensures
        v@ == spec_states_andesite(),
{
    vec![BlockType::Andesite {}]
}

/// The states of `SmoothAndesite`.
pub open spec fn spec_states_smooth_andesite() -> Seq<BlockType> {
    seq![BlockType::SmoothAndesite {}]
}

fn states_smooth_andesite() -> (v: Vec<BlockType>)
    ensures
        v@ == spec_states_smooth_andesite(),
{
    vec![BlockType::SmoothAndesite {}]
}

/// The states of `GrassBlock`.
pub open spec fn spec_states_grass_block() -> Seq<BlockType> {
    seq![BlockType::GrassBlock { snowy: true }, BlockType::GrassBlock { snowy: false }]
}

fn states_grass_block() -> (v: Vec<BlockType>)
    ensures
        v@ == spec_states_grass_block(),
{
    vec![BlockType::GrassBlock { snowy: true }, BlockType::GrassBlock { snowy: false }]
}

/// The states of `Dirt`.
pub open spec fn spec_states_dirt() -> Seq<BlockType> {
    seq![BlockType::Dirt {}]
}

fn states_dirt() -> (v: Vec<BlockType>)
    ensures
        v@ == spec_states_dirt(),
{
    vec![BlockType::Dirt {}]
}

/// The states of `CoarseDirt`.
pub open spec fn spec_states_coarse_dirt() -> Seq<BlockType> {
    seq![BlockType::CoarseDirt {}]
}

fn states_coarse_dirt() -> (v: Vec<BlockType>)
    ensures
        v@ == spec_states_coarse_dirt(),
{
    vec![BlockType::CoarseDirt {}]
}

/// The states of `Podzol`.
pub open spec fn spec_states_podzol() -> Seq<BlockType> {
    seq![BlockType::Podzol { snowy: true }, BlockType::Podzol { snowy: false }]
}

fn states_podzol() -> (v: Vec<BlockType>)
    ensures
        v@ == spec_states_podzol(),
{
    vec![BlockType::Podzol { snowy: true }, BlockType::Podzol { snowy: false }]
}

/// The states of `Cobblestone`.
pub open spec fn spec_states_cobblestone() -> Seq<BlockType> {
    seq![BlockType::Cobblestone {}]
}

fn states_cobblestone() -> (v: Vec<BlockType>)
    ensures
        v@ == spec_states_cobblestone(),
{
    vec![BlockType::Cobblestone {}]
}

/// The states of `Planks`.
pub open spec fn spec_states_planks() -> Seq<BlockType> {
    seq![BlockType::Planks { variant: TreeVariant::Oak }, BlockType::Planks { variant: TreeVariant::Spruce }, BlockType::Planks { variant: TreeVariant::Birch }, BlockType::Planks { variant: TreeVariant::Jungle }, BlockType::Planks { variant: TreeVariant::Acacia }, BlockType::Planks { variant: TreeVariant::DarkOak }]
}

fn states_planks() -> (v: Vec<BlockType>)
    ensures
        v@ == spec_states_planks(),
{
    vec![BlockType::Planks { variant: TreeVariant::Oak }, BlockType::Planks { variant: TreeVariant::Spruce }, BlockType::Planks { variant: TreeVariant::Birch }, BlockType::Planks { variant: TreeVariant::Jungle }, BlockType::Planks { variant: TreeVariant::Acacia }, BlockType::Planks { variant: TreeVariant::DarkOak }]
}

/// The states of `OakSapling`.
pub open spec fn spec_states_oak_sapling() -> Seq<BlockType> {
    seq![BlockType::OakSapling { stage: 0 }, BlockType::OakSapling { stage: 1 }]
}

fn states_oak_sapling() -> (v: Vec<BlockType>)
    ensures
        v@ == spec_states_oak_sapling(),
{
    vec![BlockType::OakSapling { stage: 0 }, BlockType::OakSapling { stage: 1 }]
}

/// The states of `SpruceSapling`.
pub open spec fn spec_states_spruce_sapling() -> Seq<BlockType> {
    seq![BlockType::SpruceSapling { stage: 0 }, BlockType::SpruceSapling { stage: 1 }]
}

fn states_spruce_sapling() -> (v: Vec<BlockType>)
    ensures
        v@ == spec_states_spruce_sapling(),
{
    vec![BlockType::SpruceSapling { stage: 0 }, BlockType::SpruceSapling { stage: 1 }]
}

/// The states of `BirchSapling`.
pub open spec fn spec_states_birch_sapling() -> Seq<BlockType> {
    seq![BlockType::BirchSapling { stage: 0 }, BlockType::BirchSapling { stage: 1 }]
}

fn states_birch_sapling() -> (v: Vec<BlockType>)
    ensures
        v@ == spec_states_birch_sapling(),
{
    vec![BlockType::BirchSapling { stage: 0 }, BlockType::BirchSapling { stage: 1 }]
}

/// The states of `JungleSapling`.
pub open spec fn spec_states_jungle_sapling() -> Seq<BlockType> {
    seq![BlockType::JungleSapling { stage: 0 }, BlockType::JungleSapling { stage: 1 }]
}

fn states_jungle_sapling() -> (v: Vec<BlockType>)
    ensures
        v@ == spec_states_jungle_sapling(),
{
    vec![BlockType::JungleSapling { stage: 0 }, BlockType::JungleSapling { stage: 1 }]
}

/// The states of `AcaciaSapling`.
pub open spec fn spec_states_acacia_sapling() -> Seq<BlockType> {
    seq![BlockType::AcaciaSapling { stage: 0 }, BlockType::AcaciaSapling { stage: 1 }]
}

fn states_acacia_sapling() -> (v: Vec<BlockType>)
    ensures
        v@ == spec_states_acacia_sapling(),
{
    vec![BlockType::AcaciaSapling { stage: 0 }, BlockType::AcaciaSapling { stage: 1 }]
}

/// The states of `DarkOakSapling`.
pub open spec fn spec_states_dark_oak_sapling() -> Seq<BlockType> {
    seq![BlockType::DarkOakSapling { stage: 0 }, BlockType::DarkOakSapling { stage: 1 }]
}

fn states_dark_oak_sapling() -> (v: Vec<BlockType>)
    ensures
        v@ == spec_states_dark_oak_sapling(),
{
    vec![BlockType::DarkOakSapling { stage: 0 }, BlockType::DarkOakSapling { stage: 1 }]
}

/// The states of `Bedrock`.
pub open spec fn spec_states_bedrock() -> Seq<BlockType> {
    seq![BlockType::Bedrock { }]
}

fn states_bedrock() -> (v: Vec<BlockType>)
    ensures
        v@ == spec_states_bedrock(),
{
    vec![BlockType::Bedrock { }]
}

/// The states of `Water`.
pub open spec fn spec_states_water() -> Seq<BlockType> {
    seq![BlockType::Water { water: 0 }, BlockType::Water { water: 1 }, BlockType::Water { water: 2 }, BlockType::Water { water: 3 }, BlockType::Water { water: 4 }, BlockType::Water { water: 5 }, BlockType::Water { water: 6 }, BlockType::Water { water: 7 }, BlockType::Water { water: 8 }, BlockType::Water { water: 9 }, BlockType::Water { water: 10 }, BlockType::Water { water: 11 }, BlockType::Water { water: 12 }, BlockType::Water { water: 13 }, BlockType::Water { water: 14 }, BlockType::Water { water: 15 }]
}

fn states_water() -> (v: Vec<BlockType>)
    ensures
        v@ == spec_states_water(),
{
    vec![BlockType::Water { water: 0 }, BlockType::Water { water: 1 }, BlockType::Water { water: 2 }, BlockType::Water { water: 3 }, BlockType::Water { water: 4 }, BlockType::Water { water: 5 }, BlockType::Water { water: 6 }, BlockType::Water { water: 7 }, BlockType::Water { water: 8 }, BlockType::Water { water: 9 }, BlockType::Water { water: 10 }, BlockType::Water { water: 11 }, BlockType::Water { water: 12 }, BlockType::Water { water: 13 }, BlockType::Water { water: 14 }, BlockType::Water { water: 15 }]
}

/// The states of `Lava`.
pub open spec fn spec_states_lava() -> Seq<BlockType> {
    seq![BlockType::Water { water: 0 }, BlockType::Water { water: 1 }, BlockType::Water { water: 2 }, BlockType::Water { water: 3 }, BlockType::Water { water: 4 }, BlockType::Water { water: 5 }, BlockType::Water { water: 6 }, BlockType::Water { water: 7 }, BlockType::Water { water: 8 }, BlockType::Water { water: 9 }, BlockType::Water { water: 10 }, BlockType::Water { water: 11 }, BlockType::Water { water: 12 }, BlockType::Water { water: 13 }, BlockType::Water { water: 14 }, BlockType::Water { water: 15 }]
}

fn states_lava() -> (v: Vec<BlockType>)
    ensures
        v@ == spec_states_lava(),
{
    vec![BlockType::Water { water: 0 }, BlockType::Water { water: 1 }, BlockType::Water { water: 2 }, BlockType::Water { water: 3 }, BlockType::Water { water: 4 }, BlockType::Water { water: 5 }, BlockType::Water { water: 6 }, BlockType::Water { water: 7 }, BlockType::Water { water: 8 }, BlockType::Water { water: 9 }, BlockType::Water { water: 10 }, BlockType::Water { water: 11 }, BlockType::Water { water: 12 }, BlockType::Water { water: 13 }, BlockType::Water { water: 14 }, BlockType::Water { water: 15 }]
}

/// The states of `Sand`.
pub open spec fn spec_states_sand() -> Seq<BlockType> {
    seq![BlockType::Sand { }]
}

fn states_sand() -> (v: Vec<BlockType>)
    ensures
        v@ == spec_states_sand(),
{
    vec![BlockType::Sand { }]
}

/// The states of `RedSand`.
pub open spec fn spec_states_red_sand() -> Seq<BlockType> {
    seq![BlockType::RedSand { }]
}

fn states_red_sand() -> (v: Vec<BlockType>)
    ensures
        v@ == spec_states_red_sand(),
{
    vec![BlockType::RedSand { }]
}

/// The states of `Gravel`.
pub open spec fn spec_states_gravel() -> Seq<BlockType> {
    seq![BlockType::Gravel { }]
}

fn states_gravel() -> (v: Vec<BlockType>)
    ensures
        v@ == spec_states_gravel(),
{
    vec![BlockType::Gravel { }]
}

/// The states of `GoldOre`.
pub open spec fn spec_states_gold_ore() -> Seq<BlockType> {
    seq![BlockType::GoldOre { }]
}

fn states_gold_ore() -> (v: Vec<BlockType>)
    ensures
        v@ == spec_states_gold_ore(),
{
    vec![BlockType::GoldOre { }]
}

/// The states of `IronOre`.
pub open spec fn spec_states_iron_ore() -> Seq<BlockType> {
    seq![BlockType::IronOre { }]
}

fn states_iron_ore() -> (v: Vec<BlockType>)
    ensures
        v@ == spec_states_iron_ore(),
{
    vec![BlockType::IronOre { }]
}

/// The states of `CoalOre`.
pub open spec fn spec_states_coal_ore() -> Seq<BlockType> {
    seq![BlockType::CoalOre { }]
}

fn states_coal_ore() -> (v: Vec<BlockType>)
    ensures
        v@ == spec_states_coal_ore(),
{
    vec![BlockType::CoalOre { }]
}

/// The states of `OakLog`.
pub open spec fn spec_states_oak_log() -> Seq<BlockType> {
    seq![BlockType::OakLog { axis: Axis::X }, BlockType::OakLog { axis: Axis::Y }, BlockType::OakLog { axis: Axis::Z }]
}

fn states_oak_log() -> (v: Vec<BlockType>)
    ensures
        v@ == spec_states_oak_log(),
{
    vec![BlockType::OakLog { axis: Axis::X }, BlockType::OakLog { axis: Axis::Y }, BlockType::OakLog { axis: Axis::Z }]
}

/// The states of `SpruceLog`.
pub open spec fn spec_states_spruce_log() -> Seq<BlockType> {
    seq![BlockType::SpruceLog { axis: Axis::X }, BlockType::SpruceLog { axis: Axis::Y }, BlockType::SpruceLog { axis: Axis::Z }]
}

fn states_spruce_log() -> (v: Vec<BlockType>)
    ensures
        v@ == spec_states_spruce_log(),
{
    vec![BlockType::SpruceLog { axis: Axis::X }, BlockType::SpruceLog { axis: Axis::Y }, BlockType::SpruceLog { axis: Axis::Z }]
}

/// The states of `BirchLog`.
pub open spec fn spec_states_birch_log() -> Seq<BlockType> {
    seq![BlockType::BirchLog { axis: Axis::X }, BlockType::BirchLog { axis: Axis::Y }, BlockType::BirchLog { axis: Axis::Z }]
}

fn states_birch_log() -> (v: Vec<BlockType>)
    ensures
        v@ == spec_states_birch_log(),
{
    vec![BlockType::BirchLog { axis: Axis::X }, BlockType::BirchLog { axis: Axis::Y }, BlockType::BirchLog { axis: Axis::Z }]
}

/// The states of `JungleLog`.
pub open spec fn spec_states_jungle_log() -> Seq<BlockType> {
    seq![BlockType::JungleLog { axis: Axis::X }, BlockType::JungleLog { axis: Axis::Y }, BlockType::JungleLog { axis: Axis::Z }]
}

fn states_jungle_log() -> (v: Vec<BlockType>)
    ensures
        v@ == spec_states_jungle_log(),
{
    vec![BlockType::JungleLog { axis: Axis::X }, BlockType::JungleLog { axis: Axis::Y }, BlockType::JungleLog { axis: Axis::Z }]
}

/// The states of `AcaciaLog`.
pub open spec fn spec_states_acacia_log() -> Seq<BlockType> {
    seq![BlockType::AcaciaLog { axis: Axis::X }, BlockType::AcaciaLog { axis: Axis::Y }, BlockType::AcaciaLog { axis: Axis::Z }]
}

fn states_acacia_log() -> (v: Vec<BlockType>)
    ensures
        v@ == spec_states_acacia_log(),
{
    vec![BlockType::AcaciaLog { axis: Axis::X }, BlockType::AcaciaLog { axis: Axis::Y }, BlockType::AcaciaLog { axis: Axis::Z }]
}

/// The states of `DarkOakLog`.
pub open spec fn spec_states_dark_oak_log() -> Seq<BlockType> {
    seq![BlockType::DarkOakLog { axis: Axis::X }, BlockType::DarkOakLog { axis: Axis::Y }, BlockType::DarkOakLog { axis: Axis::Z }]
}

fn states_dark_oak_log() -> (v: Vec<BlockType>)
    ensures
        v@ == spec_states_dark_oak_log(),
{
    vec![BlockType::DarkOakLog { axis: Axis::X }, BlockType::DarkOakLog { axis: Axis::Y }, BlockType::DarkOakLog { axis: Axis::Z }]
}

/// The states of `StrippedSpruceLog`.
pub open spec fn spec_states_stripped_spruce_log() -> Seq<BlockType> {
    seq![BlockType::StrippedSpruceLog { axis: Axis::X }, BlockType::StrippedSpruceLog { axis: Axis::Y }, BlockType::StrippedSpruceLog { axis: Axis::Z }]
}

fn states_stripped_spruce_log() -> (v: Vec<BlockType>)
    ensures
        v@ == spec_states_stripped_spruce_log(),
{
    vec![BlockType::StrippedSpruceLog { axis: Axis::X }, BlockType::StrippedSpruceLog { axis: Axis::Y }, BlockType::StrippedSpruceLog { axis: Axis::Z }]
}

/// The states of `StrippedBirchLog`.
pub open spec fn spec_states_stripped_birch_log() -> Seq<BlockType> {
    seq![BlockType::StrippedBirchLog { axis: Axis::X }, BlockType::StrippedBirchLog { axis: Axis::Y }, BlockType::StrippedBirchLog { axis: Axis::Z }]
}

fn states_stripped_birch_log() -> (v: Vec<BlockType>)
    ensures
        v@ == spec_states_stripped_birch_log(),
{
    vec![BlockType::StrippedBirchLog { axis: Axis::X }, BlockType::StrippedBirchLog { axis: Axis::Y }, BlockType::StrippedBirchLog { axis: Axis::Z }]
}

/// The states of `StrippedJungleLog`.
pub open spec fn spec_states_stripped_jungle_log() -> Seq<BlockType> {
    seq![BlockType::StrippedJungleLog { axis: Axis::X }, BlockType::StrippedJungleLog { axis: Axis::Y }, BlockType::StrippedJungleLog { axis: Axis::Z }]
}

fn states_stripped_jungle_log() -> (v: Vec<BlockType>)
    ensures
        v@ == spec_states_stripped_jungle_log(),
{
    vec![BlockType::StrippedJungleLog { axis: Axis::X }, BlockType::StrippedJungleLog { axis: Axis::Y }, BlockType::StrippedJungleLog { axis: Axis::Z }]
}

/// The states of `StrippedAcaciaLog`.
pub open spec fn spec_states_stripped_acacia_log() -> Seq<BlockType> {
    seq![BlockType::StrippedAcaciaLog { axis: Axis::X }, BlockType::StrippedAcaciaLog { axis: Axis::Y }, BlockType::StrippedAcaciaLog { axis: Axis::Z }]
}

fn states_stripped_acacia_log() -> (v: Vec<BlockType>)
    ensures
        v@ == spec_states_stripped_acacia_log(),
{
    vec![BlockType::StrippedAcaciaLog { axis: Axis::X }, BlockType::StrippedAcaciaLog { axis: Axis::Y }, BlockType::StrippedAcaciaLog { axis: Axis::Z }]
}

/// The states of `StrippedDarkOakLog`.
pub open spec fn spec_states_stripped_dark_oak_log() -> Seq<BlockType> {
    seq![BlockType::StrippedDarkOakLog { axis: Axis::X }, BlockType::StrippedDarkOakLog { axis: Axis::Y }, BlockType::StrippedDarkOakLog { axis: Axis::Z }]
}

fn states_stripped_dark_oak_log() -> (v: Vec<BlockType>)
    ensures
        v@ == spec_states_stripped_dark_oak_log(),
{
    vec![BlockType::StrippedDarkOakLog { axis: Axis::X }, BlockType::StrippedDarkOakLog { axis: Axis::Y }, BlockType::StrippedDarkOakLog { axis: Axis::Z }]
}

/// The states of `StrippedOakLog`.
pub open spec fn spec_states_stripped_oak_log() -> Seq<BlockType> {
    seq![BlockType::StrippedOakLog { axis: Axis::X }, BlockType::StrippedOakLog { axis: Axis::Y }, BlockType::StrippedOakLog { axis: Axis::Z }]
}

fn states_stripped_oak_log() -> (v: Vec<BlockType>)
    ensures
        v@ == spec_states_stripped_oak_log(),
{
    vec![BlockType::StrippedOakLog { axis: Axis::X }, BlockType::StrippedOakLog { axis: Axis::Y }, BlockType::StrippedOakLog { axis: Axis::Z }]
}

/// The states of `OakWood`.
pub open spec fn spec_states_oak_wood() -> Seq<BlockType> {
    seq![BlockType::OakWood { axis: Axis::X }, BlockType::OakWood { axis: Axis::Y }, BlockType::OakWood { axis: Axis::Z }]
}

fn states_oak_wood() -> (v: Vec<BlockType>)
    ensures
        v@ == spec_states_oak_wood(),
{
    vec![BlockType::OakWood { axis: Axis::X }, BlockType::OakWood { axis: Axis::Y }, BlockType::OakWood { axis: Axis::Z }]
}

/// The states of `SpruceWood`.
pub open spec fn spec_states_spruce_wood() -> Seq<BlockType> {
    seq![BlockType::SpruceWood { axis: Axis::X }, BlockType::SpruceWood { axis: Axis::Y }, BlockType::SpruceWood { axis: Axis::Z }]
}

fn states_spruce_wood() -> (v: Vec<BlockType>)
    ensures
        v@ == spec_states_spruce_wood(),
{
    vec![BlockType::SpruceWood { axis: Axis::X }, BlockType::SpruceWood { axis: Axis::Y }, BlockType::SpruceWood { axis: Axis::Z }]
}

/// The states of `BirchWood`.
pub open spec fn spec_states_birch_wood() -> Seq<BlockType> {
    seq![BlockType::BirchWood { axis: Axis::X }, BlockType::BirchWood { axis: Axis::Y }, BlockType::BirchWood { axis: Axis::Z }]
}

fn states_birch_wood() -> (v: Vec<BlockType>)
    ensures
        v@ == spec_states_birch_wood(),
{
    vec![BlockType::BirchWood { axis: Axis::X }, BlockType::BirchWood { axis: Axis::Y }, BlockType::BirchWood { axis: Axis::Z }]
}

/// The states of `JungleWood`.
pub open spec fn spec_states_jungle_wood() -> Seq<BlockType> {
    seq![BlockType::JungleWood { axis: Axis::X }, BlockType::JungleWood { axis: Axis::Y }, BlockType::JungleWood { axis: Axis::Z }]
}

fn states_jungle_wood() -> (v: Vec<BlockType>)
    ensures
        v@ == spec_states_jungle_wood(),
{
    vec![BlockType::JungleWood { axis: Axis::X }, BlockType::JungleWood { axis: Axis::Y }, BlockType::JungleWood { axis: Axis::Z }]
}

/// The states of `AcaciaWood`.
pub open spec fn spec_states_acacia_wood() -> Seq<BlockType> {
    seq![BlockType::AcaciaWood { axis: Axis::X }, BlockType::AcaciaWood { axis: Axis::Y }, BlockType::AcaciaWood { axis: Axis::Z }]
}

fn states_acacia_wood() -> (v: Vec<BlockType>)
    ensures
        v@ == spec_states_acacia_wood(),
{
    vec![BlockType::AcaciaWood { axis: Axis::X }, BlockType::AcaciaWood { axis: Axis::Y }, BlockType::AcaciaWood { axis: Axis::Z }]
}

/// The states of `DarkOakWood`.
pub open spec fn spec_states_dark_oak_wood() -> Seq<BlockType> {
    seq![BlockType::DarkOakWood { axis: Axis::X }, BlockType::DarkOakWood { axis: Axis::Y }, BlockType::DarkOakWood { axis: Axis::Z }]
}

fn states_dark_oak_wood() -> (v: Vec<BlockType>)
    ensures
        v@ == spec_states_dark_oak_wood(),
{
    vec![BlockType::DarkOakWood { axis: Axis::X }, BlockType::DarkOakWood { axis: Axis::Y }, BlockType::DarkOakWood { axis: Axis::Z }]
}

/// The states of `StrippedOakWood`.
pub open spec fn spec_states_stripped_oak_wood() -> Seq<BlockType> {
    seq![BlockType::StrippedOakWood { axis: Axis::X }, BlockType::StrippedOakWood { axis: Axis::Y }, BlockType::StrippedOakWood { axis: Axis::Z }]
}

fn states_stripped_oak_wood() -> (v: Vec<BlockType>)
    ensures
        v@ == spec_states_stripped_oak_wood(),
{
    vec![BlockType::StrippedOakWood { axis: Axis::X }, BlockType::StrippedOakWood { axis: Axis::Y }, BlockType::StrippedOakWood { axis: Axis::Z }]
}

/// The states of `StrippedSpruceWood`.
pub open spec fn spec_states_stripped_spruce_wood() -> Seq<BlockType> {
    seq![BlockType::StrippedSpruceWood { axis: Axis::X }, BlockType::StrippedSpruceWood { axis: Axis::Y }, BlockType::StrippedSpruceWood { axis: Axis::Z }]
}

fn states_stripped_spruce_wood() -> (v: Vec<BlockType>)
    ensures
        v@ == spec_states_stripped_spruce_wood(),
{
    vec![BlockType::StrippedSpruceWood { axis: Axis::X }, BlockType::StrippedSpruceWood { axis: Axis::Y }, BlockType::StrippedSpruceWood { axis: Axis::Z }]
}

/// The states of `StrippedBirchWood`.
pub open spec fn spec_states_stripped_birch_wood() -> Seq<BlockType> {
    seq![BlockType::StrippedBirchWood { axis: Axis::X }, BlockType::StrippedBirchWood { axis: Axis::Y }, BlockType::StrippedBirchWood { axis: Axis::Z }]
}

fn states_stripped_birch_wood() -> (v: Vec<BlockType>)
    ensures
        v@ == spec_states_stripped_birch_wood(),
{
    vec![BlockType::StrippedBirchWood { axis: Axis::X }, BlockType::StrippedBirchWood { axis: Axis::Y }, BlockType::StrippedBirchWood { axis: Axis::Z }]
}

/// The states of `StrippedJungleWood`.
pub open spec fn spec_states_stripped_jungle_wood() -> Seq<BlockType> {
    seq![BlockType::StrippedJungleWood { axis: Axis::X }, BlockType::StrippedJungleWood { axis: Axis::Y }, BlockType::StrippedJungleWood { axis: Axis::Z }]
}

fn states_stripped_jungle_wood() -> (v: Vec<BlockType>)
    ensures
        v@ == spec_states_stripped_jungle_wood(),
{
    vec![BlockType::StrippedJungleWood { axis: Axis::X }, BlockType::StrippedJungleWood { axis: Axis::Y }, BlockType::StrippedJungleWood { axis: Axis::Z }]
}

/// The states of `StrippedAcaciaWood`.
pub open spec fn spec_states_stripped_acacia_wood() -> Seq<BlockType> {
    seq![BlockType::StrippedAcaciaWood { axis: Axis::X }, BlockType::StrippedAcaciaWood { axis: Axis::Y }, BlockType::StrippedAcaciaWood { axis: Axis::Z }]
}

fn states_stripped_acacia_wood() -> (v: Vec<BlockType>)
    ensures
        v@ == spec_states_stripped_acacia_wood(),
{
    vec![BlockType::StrippedAcaciaWood { axis: Axis::X }, BlockType::StrippedAcaciaWood { axis: Axis::Y }, BlockType::StrippedAcaciaWood { axis: Axis::Z }]
}

/// The states of `StrippedDarkOakWood`.
pub open spec fn spec_states_stripped_dark_oak_wood() -> Seq<BlockType> {
    seq![BlockType::StrippedDarkOakWood { axis: Axis::X }, BlockType::StrippedDarkOakWood { axis: Axis::Y }, BlockType::StrippedDarkOakWood { axis: Axis::Z }]
}

fn states_stripped_dark_oak_wood() -> (v: Vec<BlockType>)
    ensures
        v@ == spec_states_stripped_dark_oak_wood(),
{
    vec![BlockType::StrippedDarkOakWood { axis: Axis::X }, BlockType::StrippedDarkOakWood { axis: Axis::Y }, BlockType::StrippedDarkOakWood { axis: Axis::Z }]
}

/// The `i`-th state of `OakLeaves`.
pub open spec fn state_oak_leaves(i: int) -> BlockType {
    BlockType::OakLeaves { distance: ((i / 2) % 7 + 1) as u8, persistent: true_first(i % 2) }
}

/// The states of `OakLeaves`.
pub open spec fn spec_states_oak_leaves() -> Seq<BlockType> {
    Seq::new(14, |i: int| state_oak_leaves(i))
}

fn states_oak_leaves() -> (v: Vec<BlockType>)
    ensures
        v@ == spec_states_oak_leaves(),
{
    let mut v: Vec<BlockType> = Vec::new();
    let mut i: usize = 0;
    while i < 14
        invariant
            i <= 14,
            v@ =~= spec_states_oak_leaves().take(i as int),
        decreases 14 - i,
    {
        v.push(BlockType::OakLeaves { distance: ((i / 2) % 7 + 1) as u8, persistent: i % 2 == 0 });
        assert(spec_states_oak_leaves().take(i + 1) =~= spec_states_oak_leaves().take(i as int).push(state_oak_leaves(i as int)));
        i = i + 1;
    }
    assert(spec_states_oak_leaves().take(14) =~= spec_states_oak_leaves());
    v
}

/// The `i`-th state of `SpruceLeaves`.
pub open spec fn state_spruce_leaves(i: int) -> BlockType {
    BlockType::SpruceLeaves { distance: ((i / 2) % 7 + 1) as u8, persistent: true_first(i % 2) }
}

/// The states of `SpruceLeaves`.
pub open spec fn spec_states_spruce_leaves() -> Seq<BlockType> {
    Seq::new(14, |i: int| state_spruce_leaves(i))
}

fn states_spruce_leaves() -> (v: Vec<BlockType>)
    ensures
        v@ == spec_states_spruce_leaves(),
{
    let mut v: Vec<BlockType> = Vec::new();
    let mut i: usize = 0;
    while i < 14
        invariant
            i <= 14,
            v@ =~= spec_states_spruce_leaves().take(i as int),
        decreases 14 - i,
    {
        v.push(BlockType::SpruceLeaves { distance: ((i / 2) % 7 + 1) as u8, persistent: i % 2 == 0 });
        assert(spec_states_spruce_leaves().take(i + 1) =~= spec_states_spruce_leaves().take(i as int).push(state_spruce_leaves(i as int)));
        i = i + 1;
    }
    assert(spec_states_spruce_leaves().take(14) =~= spec_states_spruce_leaves());
    v
}

/// The `i`-th state of `BirchLeaves`.
pub open spec fn state_birch_leaves(i: int) -> BlockType {
    BlockType::BirchLeaves { distance: ((i / 2) % 7 + 1) as u8, persistent: true_first(i % 2) }
}

/// The states of `BirchLeaves`.
pub open spec fn spec_states_birch_leaves() -> Seq<BlockType> {
    Seq::new(14, |i: int| state_birch_leaves(i))
}

fn states_birch_leaves() -> (v: Vec<BlockType>)
    ensures
        v@ == spec_states_birch_leaves(),
{
    let mut v: Vec<BlockType> = Vec::new();
    let mut i: usize = 0;
    while i < 14
        invariant
            i <= 14,
            v@ =~= spec_states_birch_leaves().take(i as int),
        decreases 14 - i,
    {
        v.push(BlockType::BirchLeaves { distance: ((i / 2) % 7 + 1) as u8, persistent: i % 2 == 0 });
        assert(spec_states_birch_leaves().take(i + 1) =~= spec_states_birch_leaves().take(i as int).push(state_birch_leaves(i as int)));
        i = i + 1;
    }
    assert(spec_states_birch_leaves().take(14) =~= spec_states_birch_leaves());
    v
}

/// The `i`-th state of `JungleLeaves`.
pub open spec fn state_jungle_leaves(i: int) -> BlockType {
    BlockType::JungleLeaves { distance: ((i / 2) % 7 + 1) as u8, persistent: true_first(i % 2) }
}

/// The states of `JungleLeaves`.
pub open spec fn spec_states_jungle_leaves() -> Seq<BlockType> {
    Seq::new(14, |i: int| state_jungle_leaves(i))
}

fn states_jungle_leaves() -> (v: Vec<BlockType>)
    ensures
        v@ == spec_states_jungle_leaves(),
{
    let mut v: Vec<BlockType> = Vec::new();
    let mut i: usize = 0;
    while i < 14
        invariant
            i <= 14,
            v@ =~= spec_states_jungle_leaves().take(i as int),
        decreases 14 - i,
    {
        v.push(BlockType::JungleLeaves { distance: ((i / 2) % 7 + 1) as u8, persistent: i % 2 == 0 });
        assert(spec_states_jungle_leaves().take(i + 1) =~= spec_states_jungle_leaves().take(i as int).push(state_jungle_leaves(i as int)));
        i = i + 1;
    }
    assert(spec_states_jungle_leaves().take(14) =~= spec_states_jungle_leaves());
    v
}

/// The `i`-th state of `AcaciaLeaves`.
pub open spec fn state_acacia_leaves(i: int) -> BlockType {
    BlockType::AcaciaLeaves { distance: ((i / 2) % 7 + 1) as u8, persistent: true_first(i % 2) }
}

/// The states of `AcaciaLeaves`.
pub open spec fn spec_states_acacia_leaves() -> Seq<BlockType> {
    Seq::new(14, |i: int| state_acacia_leaves(i))
}

fn states_acacia_leaves() -> (v: Vec<BlockType>)
    ensures
        v@ == spec_states_acacia_leaves(),
{
    let mut v: Vec<BlockType> = Vec::new();
    let mut i: usize = 0;
    while i < 14
        invariant
            i <= 14,
            v@ =~= spec_states_acacia_leaves().take(i as int),
        decreases 14 - i,
    {
        v.push(BlockType::AcaciaLeaves { distance: ((i / 2) % 7 + 1) as u8, persistent: i % 2 == 0 });
        assert(spec_states_acacia_leaves().take(i + 1) =~= spec_states_acacia_leaves().take(i as int).push(state_acacia_leaves(i as int)));
        i = i + 1;
    }
    assert(spec_states_acacia_leaves().take(14) =~= spec_states_acacia_leaves());
    v
}

/// The `i`-th state of `DarkOakLeaves`.
pub open spec fn state_dark_oak_leaves(i: int) -> BlockType {
    BlockType::DarkOakLeaves { distance: ((i / 2) % 7 + 1) as u8, persistent: true_first(i % 2) }
}

/// The states of `DarkOakLeaves`.
pub open spec fn spec_states_dark_oak_leaves() -> Seq<BlockType> {
    Seq::new(14, |i: int| state_dark_oak_leaves(i))
}

fn states_dark_oak_leaves() -> (v: Vec<BlockType>)
    ensures
        v@ == spec_states_dark_oak_leaves(),
{
    let mut v: Vec<BlockType> = Vec::new();
    let mut i: usize = 0;
    while i < 14
        invariant
            i <= 14,
            v@ =~= spec_states_dark_oak_leaves().take(i as int),
        decreases 14 - i,
    {
        v.push(BlockType::DarkOakLeaves { distance: ((i / 2) % 7 + 1) as u8, persistent: i % 2 == 0 });
        assert(spec_states_dark_oak_leaves().take(i + 1) =~= spec_states_dark_oak_leaves().take(i as int).push(state_dark_oak_leaves(i as int)));
        i = i + 1;
    }
    assert(spec_states_dark_oak_leaves().take(14) =~= spec_states_dark_oak_leaves());
    v
}

/// The states of `Sponge`.
pub open spec fn spec_states_sponge() -> Seq<BlockType> {
    seq![BlockType::Sponge { }]
}

fn states_sponge() -> (v: Vec<BlockType>)
    ensures
        v@ == spec_states_sponge(),
{
    vec![BlockType::Sponge { }]
}

/// The states of `WetSponge`.
pub open spec fn spec_states_wet_sponge() -> Seq<BlockType> {
    seq![BlockType::WetSponge { }]
}

fn states_wet_sponge() -> (v: Vec<BlockType>)
    ensures
        v@ == spec_states_wet_sponge(),
{
    vec![BlockType::WetSponge { }]
}

/// The states of `Glass`.
pub open spec fn spec_states_glass() -> Seq<BlockType> {
    seq![BlockType::Glass { }]
}

fn states_glass() -> (v: Vec<BlockType>)
    ensures
        v@ == spec_states_glass(),
{
    vec![BlockType::Glass { }]
}

/// The states of `LapisOre`.
pub open spec fn spec_states_lapis_ore() -> Seq<BlockType> {
    seq![BlockType::LapisOre { }]
}

fn states_lapis_ore() -> (v: Vec<BlockType>)
    ensures
        v@ == spec_states_lapis_ore(),
{
    vec![BlockType::LapisOre { }]
}

/// The states of `LapisBlock`.
pub open spec fn spec_states_lapis_block() -> Seq<BlockType> {
    seq![BlockType::LapisBlock { }]
}

fn states_lapis_block() -> (v: Vec<BlockType>)
    ensures
        v@ == spec_states_lapis_block(),
{
    vec![BlockType::LapisBlock { }]
}

/// The `i`-th state of `Dispenser`.
pub open spec fn state_dispenser(i: int) -> BlockType {
    BlockType::Dispenser { facing: direction_of_six((i / 2) % 6), triggered: true_first(i % 2) }
}

/// The states of `Dispenser`.
pub open spec fn spec_states_dispenser() -> Seq<BlockType> {
    Seq::new(12, |i: int| state_dispenser(i))
}

fn states_dispenser() -> (v: Vec<BlockType>)
    ensures
        v@ == spec_states_dispenser(),
{
    let mut v: Vec<BlockType> = Vec::new();
    let mut i: usize = 0;
    while i < 12
        invariant
            i <= 12,
            v@ =~= spec_states_dispenser().take(i as int),
        decreases 12 - i,
    {
        v.push(BlockType::Dispenser { facing: exec_direction_of_six((i / 2) % 6), triggered: i % 2 == 0 });
        assert(spec_states_dispenser().take(i + 1) =~= spec_states_dispenser().take(i as int).push(state_dispenser(i as int)));
        i = i + 1;
    }
    assert(spec_states_dispenser().take(12) =~= spec_states_dispenser());
    v
}

/// The states of `Sandstone`.
pub open spec fn spec_states_sandstone() -> Seq<BlockType> {
    seq![BlockType::Sandstone { }]
}

fn states_sandstone() -> (v: Vec<BlockType>)
    ensures
        v@ == spec_states_sandstone(),
{
    vec![BlockType::Sandstone { }]
}

/// The states of `ChiseledSandstone`.
pub open spec fn spec_states_chiseled_sandstone() -> Seq<BlockType> {
    seq![BlockType::ChiseledSandstone { }]
}

fn states_chiseled_sandstone() -> (v: Vec<BlockType>)
    ensures
        v@ == spec_states_chiseled_sandstone(),
{
    vec![BlockType::ChiseledSandstone { }]
}

/// The states of `CutSandstone`.
pub open spec fn spec_states_cut_sandstone() -> Seq<BlockType> {
    seq![BlockType::CutSandstone { }]
}

fn states_cut_sandstone() -> (v: Vec<BlockType>)
    ensures
        v@ == spec_states_cut_sandstone(),
{
    vec![BlockType::CutSandstone { }]
}

/// The `i`-th state of `NoteBlock`.
pub open spec fn state_note_block(i: int) -> BlockType {
    BlockType::NoteBlock { instrument: instrument_of((i / 50) % 16), note: ((i / 2) % 25) as u8, powered: true_first(i % 2) }
}

/// The states of `NoteBlock`.
pub open spec fn spec_states_note_block() -> Seq<BlockType> {
    Seq::new(800, |i: int| state_note_block(i))
}

fn states_note_block() -> (v: Vec<BlockType>)
    ensures
        v@ == spec_states_note_block(),
{
    let mut v: Vec<BlockType> = Vec::new();
    let mut i: usize = 0;
    while i < 800
        invariant
            i <= 800,
            v@ =~= spec_states_note_block().take(i as int),
        decreases 800 - i,
    {
        v.push(BlockType::NoteBlock { instrument: exec_instrument_of((i / 50) % 16), note: ((i / 2) % 25) as u8, powered: i % 2 == 0 });
        assert(spec_states_note_block().take(i + 1) =~= spec_states_note_block().take(i as int).push(state_note_block(i as int)));
        i = i + 1;
    }
    assert(spec_states_note_block().take(800) =~= spec_states_note_block());
    v
}

/// The `i`-th state of `WhiteBed`.
pub open spec fn state_white_bed(i: int) -> BlockType {
    BlockType::WhiteBed { facing: direction_nswe((i / 4) % 4), occupied: true_first((i / 2) % 2), head_part: true_first(i % 2) }
}

/// The states of `WhiteBed`.
pub open spec fn spec_states_white_bed() -> Seq<BlockType> {
    Seq::new(16, |i: int| state_white_bed(i))
}

fn states_white_bed() -> (v: Vec<BlockType>)
    ensures
        v@ == spec_states_white_bed(),
{
    let mut v: Vec<BlockType> = Vec::new();
    let mut i: usize = 0;
    while i < 16
        invariant
            i <= 16,
            v@ =~= spec_states_white_bed().take(i as int),
        decreases 16 - i,
    {
        v.push(BlockType::WhiteBed { facing: exec_direction_nswe((i / 4) % 4), occupied: (i / 2) % 2 == 0, head_part: i % 2 == 0 });
        assert(spec_states_white_bed().take(i + 1) =~= spec_states_white_bed().take(i as int).push(state_white_bed(i as int)));
        i = i + 1;
    }
    assert(spec_states_white_bed().take(16) =~= spec_states_white_bed());
    v
}

/// The `i`-th state of `OrangeBed`.
pub open spec fn state_orange_bed(i: int) -> BlockType {
    BlockType::OrangeBed { facing: direction_nswe((i / 4) % 4), occupied: true_first((i / 2) % 2), head_part: true_first(i % 2) }
}

/// The states of `OrangeBed`.
pub open spec fn spec_states_orange_bed() -> Seq<BlockType> {
    Seq::new(16, |i: int| state_orange_bed(i))
}

fn states_orange_bed() -> (v: Vec<BlockType>)
    ensures
        v@ == spec_states_orange_bed(),
{
    let mut v: Vec<BlockType> = Vec::new();
    let mut i: usize = 0;
    while i < 16
        invariant
            i <= 16,
            v@ =~= spec_states_orange_bed().take(i as int),
        decreases 16 - i,
    {
        v.push(BlockType::OrangeBed { facing: exec_direction_nswe((i / 4) % 4), occupied: (i / 2) % 2 == 0, head_part: i % 2 == 0 });
        assert(spec_states_orange_bed().take(i + 1) =~= spec_states_orange_bed().take(i as int).push(state_orange_bed(i as int)));
        i = i + 1;
    }
    assert(spec_states_orange_bed().take(16) =~= spec_states_orange_bed());
    v
}

/// The `i`-th state of `MagentaBed`.
pub open spec fn state_magenta_bed(i: int) -> BlockType {
    BlockType::MagentaBed { facing: direction_nswe((i / 4) % 4), occupied: true_first((i / 2) % 2), head_part: true_first(i % 2) }
}

/// The states of `MagentaBed`.
pub open spec fn spec_states_magenta_bed() -> Seq<BlockType> {
    Seq::new(16, |i: int| state_magenta_bed(i))
}

fn states_magenta_bed() -> (v: Vec<BlockType>)
    ensures
        v@ == spec_states_magenta_bed(),
{
    let mut v: Vec<BlockType> = Vec::new();
    let mut i: usize = 0;
    while i < 16
        invariant
            i <= 16,
            v@ =~= spec_states_magenta_bed().take(i as int),
        decreases 16 - i,
    {
        v.push(BlockType::MagentaBed { facing: exec_direction_nswe((i / 4) % 4), occupied: (i / 2) % 2 == 0, head_part: i % 2 == 0 });
        assert(spec_states_magenta_bed().take(i + 1) =~= spec_states_magenta_bed().take(i as int).push(state_magenta_bed(i as int)));
        i = i + 1;
    }
    assert(spec_states_magenta_bed().take(16) =~= spec_states_magenta_bed());
    v
}

/// The `i`-th state of `LightBlueBed`.
pub open spec fn state_light_blue_bed(i: int) -> BlockType {
    BlockType::LightBlueBed { facing: direction_nswe((i / 4) % 4), occupied: true_first((i / 2) % 2), head_part: true_first(i % 2) }
}

/// The states of `LightBlueBed`.
pub open spec fn spec_states_light_blue_bed() -> Seq<BlockType> {
    Seq::new(16, |i: int| state_light_blue_bed(i))
}

fn states_light_blue_bed() -> (v: Vec<BlockType>)
    ensures
        v@ == spec_states_light_blue_bed(),
{
    let mut v: Vec<BlockType> = Vec::new();
    let mut i: usize = 0;
    while i < 16
        invariant
            i <= 16,
            v@ =~= spec_states_light_blue_bed().take(i as int),
        decreases 16 - i,
    {
        v.push(BlockType::LightBlueBed { facing: exec_direction_nswe((i / 4) % 4), occupied: (i / 2) % 2 == 0, head_part: i % 2 == 0 });
        assert(spec_states_light_blue_bed().take(i + 1) =~= spec_states_light_blue_bed().take(i as int).push(state_light_blue_bed(i as int)));
        i = i + 1;
    }
    assert(spec_states_light_blue_bed().take(16) =~= spec_states_light_blue_bed());
    v
}

/// The `i`-th state of `YellowBed`.
pub open spec fn state_yellow_bed(i: int) -> BlockType {
    BlockType::YellowBed { facing: direction_nswe((i / 4) % 4), occupied: true_first((i / 2) % 2), head_part: true_first(i % 2) }
}

/// The states of `YellowBed`.
pub open spec fn spec_states_yellow_bed() -> Seq<BlockType> {
    Seq::new(16, |i: int| state_yellow_bed(i))
}

fn states_yellow_bed() -> (v: Vec<BlockType>)
    ensures
        v@ == spec_states_yellow_bed(),
{
    let mut v: Vec<BlockType> = Vec::new();
    let mut i: usize = 0;
    while i < 16
        invariant
            i <= 16,
            v@ =~= spec_states_yellow_bed().take(i as int),
        decreases 16 - i,
    {
        v.push(BlockType::YellowBed { facing: exec_direction_nswe((i / 4) % 4), occupied: (i / 2) % 2 == 0, head_part: i % 2 == 0 });
        assert(spec_states_yellow_bed().take(i + 1) =~= spec_states_yellow_bed().take(i as int).push(state_yellow_bed(i as int)));
        i = i + 1;
    }
    assert(spec_states_yellow_bed().take(16) =~= spec_states_yellow_bed());
    v
}

/// The `i`-th state of `LimeBed`.
pub open spec fn state_lime_bed(i: int) -> BlockType {
    BlockType::LimeBed { facing: direction_nswe((i / 4) % 4), occupied: true_first((i / 2) % 2), head_part: true_first(i % 2) }
}

/// The states of `LimeBed`.
pub open spec fn spec_states_lime_bed() -> Seq<BlockType> {
    Seq::new(16, |i: int| state_lime_bed(i))
}

fn states_lime_bed() -> (v: Vec<BlockType>)
    ensures
        v@ == spec_states_lime_bed(),
{
    let mut v: Vec<BlockType> = Vec::new();
    let mut i: usize = 0;
    while i < 16
        invariant
            i <= 16,
            v@ =~= spec_states_lime_bed().take(i as int),
        decreases 16 - i,
    {
        v.push(BlockType::LimeBed { facing: exec_direction_nswe((i / 4) % 4), occupied: (i / 2) % 2 == 0, head_part: i % 2 == 0 });
        assert(spec_states_lime_bed().take(i + 1) =~= spec_states_lime_bed().take(i as int).push(state_lime_bed(i as int)));
        i = i + 1;
    }
    assert(spec_states_lime_bed().take(16) =~= spec_states_lime_bed());
    v
}

/// The `i`-th state of `PinkBed`.
pub open spec fn state_pink_bed(i: int) -> BlockType {
    BlockType::PinkBed { facing: direction_nswe((i / 4) % 4), occupied: true_first((i / 2) % 2), head_part: true_first(i % 2) }
}

/// The states of `PinkBed`.
pub open spec fn spec_states_pink_bed() -> Seq<BlockType> {
    Seq::new(16, |i: int| state_pink_bed(i))
}

fn states_pink_bed() -> (v: Vec<BlockType>)
    ensures
        v@ == spec_states_pink_bed(),
{
    let mut v: Vec<BlockType> = Vec::new();
    let mut i: usize = 0;
    while i < 16
        invariant
            i <= 16,
            v@ =~= spec_states_pink_bed().take(i as int),
        decreases 16 - i,
    {
        v.push(BlockType::PinkBed { facing: exec_direction_nswe((i / 4) % 4), occupied: (i / 2) % 2 == 0, head_part: i % 2 == 0 });
        assert(spec_states_pink_bed().take(i + 1) =~= spec_states_pink_bed().take(i as int).push(state_pink_bed(i as int)));
        i = i + 1;
    }
    assert(spec_states_pink_bed().take(16) =~= spec_states_pink_bed());
    v
}

/// The `i`-th state of `GrayBed`.
pub open spec fn state_gray_bed(i: int) -> BlockType {
    BlockType::GrayBed { facing: direction_nswe((i / 4) % 4), occupied: true_first((i / 2) % 2), head_part: true_first(i % 2) }
}

/// The states of `GrayBed`.
pub open spec fn spec_states_gray_bed() -> Seq<BlockType> {
    Seq::new(16, |i: int| state_gray_bed(i))
}

fn states_gray_bed() -> (v: Vec<BlockType>)
    ensures
        v@ == spec_states_gray_bed(),
{
    let mut v: Vec<BlockType> = Vec::new();
    let mut i: usize = 0;
    while i < 16
        invariant
            i <= 16,
            v@ =~= spec_states_gray_bed().take(i as int),
        decreases 16 - i,
    {
        v.push(BlockType::GrayBed { facing: exec_direction_nswe((i / 4) % 4), occupied: (i / 2) % 2 == 0, head_part: i % 2 == 0 });
        assert(spec_states_gray_bed().take(i + 1) =~= spec_states_gray_bed().take(i as int).push(state_gray_bed(i as int)));
        i = i + 1;
    }
    assert(spec_states_gray_bed().take(16) =~= spec_states_gray_bed());
    v
}

/// The `i`-th state of `LightGrayBed`.
pub open spec fn state_light_gray_bed(i: int) -> BlockType {
    BlockType::LightGrayBed { facing: direction_nswe((i / 4) % 4), occupied: true_first((i / 2) % 2), head_part: true_first(i % 2) }
}

/// The states of `LightGrayBed`.
pub open spec fn spec_states_light_gray_bed() -> Seq<BlockType> {
    Seq::new(16, |i: int| state_light_gray_bed(i))
}

fn states_light_gray_bed() -> (v: Vec<BlockType>)
    ensures
        v@ == spec_states_light_gray_bed(),
{
    let mut v: Vec<BlockType> = Vec::new();
    let mut i: usize = 0;
    while i < 16
        invariant
            i <= 16,
            v@ =~= spec_states_light_gray_bed().take(i as int),
        decreases 16 - i,
    {
        v.push(BlockType::LightGrayBed { facing: exec_direction_nswe((i / 4) % 4), occupied: (i / 2) % 2 == 0, head_part: i % 2 == 0 });
        assert(spec_states_light_gray_bed().take(i + 1) =~= spec_states_light_gray_bed().take(i as int).push(state_light_gray_bed(i as int)));
        i = i + 1;
    }
    assert(spec_states_light_gray_bed().take(16) =~= spec_states_light_gray_bed());
    v
}

/// The `i`-th state of `CyanBed`.
pub open spec fn state_cyan_bed(i: int) -> BlockType {
    BlockType::CyanBed { facing: direction_nswe((i / 4) % 4), occupied: true_first((i / 2) % 2), head_part: true_first(i % 2) }
}

/// The states of `CyanBed`.
pub open spec fn spec_states_cyan_bed() -> Seq<BlockType> {
    Seq::new(16, |i: int| state_cyan_bed(i))
}

fn states_cyan_bed() -> (v: Vec<BlockType>)
    ensures
        v@ == spec_states_cyan_bed(),
{
    let mut v: Vec<BlockType> = Vec::new();
    let mut i: usize = 0;
    while i < 16
        invariant
            i <= 16,
            v@ =~= spec_states_cyan_bed().take(i as int),
        decreases 16 - i,
    {
        v.push(BlockType::CyanBed { facing: exec_direction_nswe((i / 4) % 4), occupied: (i / 2) % 2 == 0, head_part: i % 2 == 0 });
        assert(spec_states_cyan_bed().take(i + 1) =~= spec_states_cyan_bed().take(i as int).push(state_cyan_bed(i as int)));
        i = i + 1;
    }
    assert(spec_states_cyan_bed().take(16) =~= spec_states_cyan_bed());
    v
}

/// The `i`-th state of `PurpleBed`.
pub open spec fn state_purple_bed(i: int) -> BlockType {
    BlockType::PurpleBed { facing: direction_nswe((i / 4) % 4), occupied: true_first((i / 2) % 2), head_part: true_first(i % 2) }
}

/// The states of `PurpleBed`.
pub open spec fn spec_states_purple_bed() -> Seq<BlockType> {
    Seq::new(16, |i: int| state_purple_bed(i))
}

fn states_purple_bed() -> (v: Vec<BlockType>)
    ensures
        v@ == spec_states_purple_bed(),
{
    let mut v: Vec<BlockType> = Vec::new();
    let mut i: usize = 0;
    while i < 16
        invariant
            i <= 16,
            v@ =~= spec_states_purple_bed().take(i as int),
        decreases 16 - i,
    {
        v.push(BlockType::PurpleBed { facing: exec_direction_nswe((i / 4) % 4), occupied: (i / 2) % 2 == 0, head_part: i % 2 == 0 });
        assert(spec_states_purple_bed().take(i + 1) =~= spec_states_purple_bed().take(i as int).push(state_purple_bed(i as int)));
        i = i + 1;
    }
    assert(spec_states_purple_bed().take(16) =~= spec_states_purple_bed());
    v
}

/// The `i`-th state of `BlueBed`.
pub open spec fn state_blue_bed(i: int) -> BlockType {
    BlockType::BlueBed { facing: direction_nswe((i / 4) % 4), occupied: true_first((i / 2) % 2), head_part: true_first(i % 2) }
}

/// The states of `BlueBed`.
pub open spec fn spec_states_blue_bed() -> Seq<BlockType> {
    Seq::new(16, |i: int| state_blue_bed(i))
}

fn states_blue_bed() -> (v: Vec<BlockType>)
    ensures
        v@ == spec_states_blue_bed(),
{
    let mut v: Vec<BlockType> = Vec::new();
    let mut i: usize = 0;
    while i < 16
        invariant
            i <= 16,
            v@ =~= spec_states_blue_bed().take(i as int),
        decreases 16 - i,
    {
        v.push(BlockType::BlueBed { facing: exec_direction_nswe((i / 4) % 4), occupied: (i / 2) % 2 == 0, head_part: i % 2 == 0 });
        assert(spec_states_blue_bed().take(i + 1) =~= spec_states_blue_bed().take(i as int).push(state_blue_bed(i as int)));
        i = i + 1;
    }
    assert(spec_states_blue_bed().take(16) =~= spec_states_blue_bed());
    v
}

/// The `i`-th state of `BrownBed`.
pub open spec fn state_brown_bed(i: int) -> BlockType {
    BlockType::BrownBed { facing: direction_nswe((i / 4) % 4), occupied: true_first((i / 2) % 2), head_part: true_first(i % 2) }
}

/// The states of `BrownBed`.
pub open spec fn spec_states_brown_bed() -> Seq<BlockType> {
    Seq::new(16, |i: int| state_brown_bed(i))
}

fn states_brown_bed() -> (v: Vec<BlockType>)
    ensures
        v@ == spec_states_brown_bed(),
{
    let mut v: Vec<BlockType> = Vec::new();
    let mut i: usize = 0;
    while i < 16
        invariant
            i <= 16,
            v@ =~= spec_states_brown_bed().take(i as int),
        decreases 16 - i,
    {
        v.push(BlockType::BrownBed { facing: exec_direction_nswe((i / 4) % 4), occupied: (i / 2) % 2 == 0, head_part: i % 2 == 0 });
        assert(spec_states_brown_bed().take(i + 1) =~= spec_states_brown_bed().take(i as int).push(state_brown_bed(i as int)));
        i = i + 1;
    }
    assert(spec_states_brown_bed().take(16) =~= spec_states_brown_bed());
    v
}

/// The `i`-th state of `GreenBed`.
pub open spec fn state_green_bed(i: int) -> BlockType {
    BlockType::GreenBed { facing: direction_nswe((i / 4) % 4), occupied: true_first((i / 2) % 2), head_part: true_first(i % 2) }
}

/// The states of `GreenBed`.
pub open spec fn spec_states_green_bed() -> Seq<BlockType> {
    Seq::new(16, |i: int| state_green_bed(i))
}

fn states_green_bed() -> (v: Vec<BlockType>)
    ensures
        v@ == spec_states_green_bed(),
{
    let mut v: Vec<BlockType> = Vec::new();
    let mut i: usize = 0;
    while i < 16
        invariant
            i <= 16,
            v@ =~= spec_states_green_bed().take(i as int),
        decreases 16 - i,
    {
        v.push(BlockType::GreenBed { facing: exec_direction_nswe((i / 4) % 4), occupied: (i / 2) % 2 == 0, head_part: i % 2 == 0 });
        assert(spec_states_green_bed().take(i + 1) =~= spec_states_green_bed().take(i as int).push(state_green_bed(i as int)));
        i = i + 1;
    }
    assert(spec_states_green_bed().take(16) =~= spec_states_green_bed());
    v
}

/// The `i`-th state of `RedBed`.
pub open spec fn state_red_bed(i: int) -> BlockType {
    BlockType::RedBed { facing: direction_nswe((i / 4) % 4), occupied: true_first((i / 2) % 2), head_part: true_first(i % 2) }
}

/// The states of `RedBed`.
pub open spec fn spec_states_red_bed() -> Seq<BlockType> {
    Seq::new(16, |i: int| state_red_bed(i))
}

fn states_red_bed() -> (v: Vec<BlockType>)
    ensures
        v@ == spec_states_red_bed(),
{
    let mut v: Vec<BlockType> = Vec::new();
    let mut i: usize = 0;
    while i < 16
        invariant
            i <= 16,
            v@ =~= spec_states_red_bed().take(i as int),
        decreases 16 - i,
    {
        v.push(BlockType::RedBed { facing: exec_direction_nswe((i / 4) % 4), occupied: (i / 2) % 2 == 0, head_part: i % 2 == 0 });
        assert(spec_states_red_bed().take(i + 1) =~= spec_states_red_bed().take(i as int).push(state_red_bed(i as int)));
        i = i + 1;
    }
    assert(spec_states_red_bed().take(16) =~= spec_states_red_bed());
    v
}

/// The `i`-th state of `BlackBed`.
pub open spec fn state_black_bed(i: int) -> BlockType {
    BlockType::BlackBed { facing: direction_nswe((i / 4) % 4), occupied: true_first((i / 2) % 2), head_part: true_first(i % 2) }
}

/// The states of `BlackBed`.
pub open spec fn spec_states_black_bed() -> Seq<BlockType> {
    Seq::new(16, |i: int| state_black_bed(i))
}

fn states_black_bed() -> (v: Vec<BlockType>)
    ensures
        v@ == spec_states_black_bed(),
{
    let mut v: Vec<BlockType> = Vec::new();
    let mut i: usize = 0;
    while i < 16
        invariant
            i <= 16,
            v@ =~= spec_states_black_bed().take(i as int),
        decreases 16 - i,
    {
        v.push(BlockType::BlackBed { facing: exec_direction_nswe((i / 4) % 4), occupied: (i / 2) % 2 == 0, head_part: i % 2 == 0 });
        assert(spec_states_black_bed().take(i + 1) =~= spec_states_black_bed().take(i as int).push(state_black_bed(i as int)));
        i = i + 1;
    }
    assert(spec_states_black_bed().take(16) =~= spec_states_black_bed());
    v
}

/// The `i`-th state of `PoweredRail`.
pub open spec fn state_powered_rail(i: int) -> BlockType {
    BlockType::PoweredRail { powered: true_first((i / 6) % 2), shape: rail_shape_of(i % 6) }
}

/// The states of `PoweredRail`.
pub open spec fn spec_states_powered_rail() -> Seq<BlockType> {
    Seq::new(12, |i: int| state_powered_rail(i))
}

fn states_powered_rail() -> (v: Vec<BlockType>)
    ensures
        v@ == spec_states_powered_rail(),
{
    let mut v: Vec<BlockType> = Vec::new();
    let mut i: usize = 0;
    while i < 12
        invariant
            i <= 12,
            v@ =~= spec_states_powered_rail().take(i as int),
        decreases 12 - i,
    {
        v.push(BlockType::PoweredRail { powered: (i / 6) % 2 == 0, shape: exec_rail_shape_of(i % 6) });
        assert(spec_states_powered_rail().take(i + 1) =~= spec_states_powered_rail().take(i as int).push(state_powered_rail(i as int)));
        i = i + 1;
    }
    assert(spec_states_powered_rail().take(12) =~= spec_states_powered_rail());
    v
}

/// The `i`-th state of `DetectorRail`.
pub open spec fn state_detector_rail(i: int) -> BlockType {
    BlockType::PoweredRail { powered: true_first((i / 6) % 2), shape: rail_shape_of(i % 6) }
}

/// The states of `DetectorRail`.
pub open spec fn spec_states_detector_rail() -> Seq<BlockType> {
    Seq::new(12, |i: int| state_detector_rail(i))
}

fn states_detector_rail() -> (v: Vec<BlockType>)
    ensures
        v@ == spec_states_detector_rail(),
{
    let mut v: Vec<BlockType> = Vec::new();
    let mut i: usize = 0;
    while i < 12
        invariant
            i <= 12,
            v@ =~= spec_states_detector_rail().take(i as int),
        decreases 12 - i,
    {
        v.push(BlockType::PoweredRail { powered: (i / 6) % 2 == 0, shape: exec_rail_shape_of(i % 6) });
        assert(spec_states_detector_rail().take(i + 1) =~= spec_states_detector_rail().take(i as int).push(state_detector_rail(i as int)));
        i = i + 1;
    }
    assert(spec_states_detector_rail().take(12) =~= spec_states_detector_rail());
    v
}

/// The `i`-th state of `StickyPiston`.
pub open spec fn state_sticky_piston(i: int) -> BlockType {
    BlockType::StickyPiston { extended: true_first((i / 6) % 2), facing: direction_of_six(i % 6) }
}

/// The states of `StickyPiston`.
pub open spec fn spec_states_sticky_piston() -> Seq<BlockType> {
    Seq::new(12, |i: int| state_sticky_piston(i))
}

fn states_sticky_piston() -> (v: Vec<BlockType>)
    ensures
        v@ == spec_states_sticky_piston(),
{
    let mut v: Vec<BlockType> = Vec::new();
    let mut i: usize = 0;
    while i < 12
        invariant
            i <= 12,
            v@ =~= spec_states_sticky_piston().take(i as int),
        decreases 12 - i,
    {
        v.push(BlockType::StickyPiston { extended: (i / 6) % 2 == 0, facing: exec_direction_of_six(i % 6) });
        assert(spec_states_sticky_piston().take(i + 1) =~= spec_states_sticky_piston().take(i as int).push(state_sticky_piston(i as int)));
        i = i + 1;
    }
    assert(spec_states_sticky_piston().take(12) =~= spec_states_sticky_piston());
    v
}

/// The states of `Cobweb`.
pub open spec fn spec_states_cobweb() -> Seq<BlockType> {
    seq![BlockType::Cobweb { }]
}

fn states_cobweb() -> (v: Vec<BlockType>)
    ensures
        v@ == spec_states_cobweb(),
{
    vec![BlockType::Cobweb { }]
}

/// The states of `Grass`.
pub open spec fn spec_states_grass() -> Seq<BlockType> {
    seq![BlockType::Grass { }]
}

fn states_grass() -> (v: Vec<BlockType>)
    ensures
        v@ == spec_states_grass(),
{
    vec![BlockType::Grass { }]
}

/// The states of `Fern`.
pub open spec fn spec_states_fern() -> Seq<BlockType> {
    seq![BlockType::Fern { }]
}

fn states_fern() -> (v: Vec<BlockType>)
    ensures
        v@ == spec_states_fern(),
{
    vec![BlockType::Fern { }]
}

/// The states of `DeadBush`.
pub open spec fn spec_states_dead_bush() -> Seq<BlockType> {
    seq![BlockType::DeadBush { }]
}

fn states_dead_bush() -> (v: Vec<BlockType>)
    ensures
        v@ == spec_states_dead_bush(),
{
    vec![BlockType::DeadBush { }]
}

/// The states of `Seagrass`.
pub open spec fn spec_states_seagrass() -> Seq<BlockType> {
    seq![BlockType::Seagrass { }]
}

fn states_seagrass() -> (v: Vec<BlockType>)
    ensures
        v@ == spec_states_seagrass(),
{
    vec![BlockType::Seagrass { }]
}

/// The states of `TallSeagrass`.
pub open spec fn spec_states_tall_seagrass() -> Seq<BlockType> {
    seq![BlockType::TallSeagrass { upper_half: true }, BlockType::TallSeagrass { upper_half: false }]
}

fn states_tall_seagrass() -> (v: Vec<BlockType>)
    ensures
        v@ == spec_states_tall_seagrass(),
{
    vec![BlockType::TallSeagrass { upper_half: true }, BlockType::TallSeagrass { upper_half: false }]
}

/// The `i`-th state of `Piston`.
pub open spec fn state_piston(i: int) -> BlockType {
    BlockType::StickyPiston { extended: true_first((i / 6) % 2), facing: direction_of_six(i % 6) }
}

/// The states of `Piston`.
pub open spec fn spec_states_piston() -> Seq<BlockType> {
    Seq::new(12, |i: int| state_piston(i))
}

fn states_piston() -> (v: Vec<BlockType>)
    ensures
        v@ == spec_states_piston(),
{
    let mut v: Vec<BlockType> = Vec::new();
    let mut i: usize = 0;
    while i < 12
        invariant
            i <= 12,
            v@ =~= spec_states_piston().take(i as int),
        decreases 12 - i,
    {
        v.push(BlockType::StickyPiston { extended: (i / 6) % 2 == 0, facing: exec_direction_of_six(i % 6) });
        assert(spec_states_piston().take(i + 1) =~= spec_states_piston().take(i as int).push(state_piston(i as int)));
        i = i + 1;
    }
    assert(spec_states_piston().take(12) =~= spec_states_piston());
    v
}

/// The `i`-th state of `PistonHead`.
pub open spec fn state_piston_head(i: int) -> BlockType {
    BlockType::PistonHead { facing: direction_of_six((i / 4) % 6), short: true_first((i / 2) % 2), is_sticky: false_first(i % 2) }
}

/// The states of `PistonHead`.
pub open spec fn spec_states_piston_head() -> Seq<BlockType> {
    Seq::new(24, |i: int| state_piston_head(i))
}

fn states_piston_head() -> (v: Vec<BlockType>)
    ensures
        v@ == spec_states_piston_head(),
{
    let mut v: Vec<BlockType> = Vec::new();
    let mut i: usize = 0;
    while i < 24
        invariant
            i <= 24,
            v@ =~= spec_states_piston_head().take(i as int),
        decreases 24 - i,
    {
        v.push(BlockType::PistonHead { facing: exec_direction_of_six((i / 4) % 6), short: (i / 2) % 2 == 0, is_sticky: i % 2 == 1 });
        assert(spec_states_piston_head().take(i + 1) =~= spec_states_piston_head().take(i as int).push(state_piston_head(i as int)));
        i = i + 1;
    }
    assert(spec_states_piston_head().take(24) =~= spec_states_piston_head());
    v
}

/// The states of `WhiteWool`.
pub open spec fn spec_states_white_wool() -> Seq<BlockType> {
    seq![BlockType::WhiteWool { }]
}

fn states_white_wool() -> (v: Vec<BlockType>)
    ensures
        v@ == spec_states_white_wool(),
{
    vec![BlockType::WhiteWool { }]
}

/// The states of `OrangeWool`.
pub open spec fn spec_states_orange_wool() -> Seq<BlockType> {
    seq![BlockType::OrangeWool { }]
}

fn states_orange_wool() -> (v: Vec<BlockType>)
    ensures
        v@ == spec_states_orange_wool(),
{
    vec![BlockType::OrangeWool { }]
}

/// The states of `MagentaWool`.
pub open spec fn spec_states_magenta_wool() -> Seq<BlockType> {
    seq![BlockType::MagentaWool { }]
}

fn states_magenta_wool() -> (v: Vec<BlockType>)
    ensures
        v@ == spec_states_magenta_wool(),
{
    vec![BlockType::MagentaWool { }]
}

/// The states of `LightBlueWool`.
pub open spec fn spec_states_light_blue_wool() -> Seq<BlockType> {
    seq![BlockType::LightBlueWool { }]
}

fn states_light_blue_wool() -> (v: Vec<BlockType>)
    ensures
        v@ == spec_states_light_blue_wool(),
{
    vec![BlockType::LightBlueWool { }]
}

/// The states of `YellowWool`.
pub open spec fn spec_states_yellow_wool() -> Seq<BlockType> {
    seq![BlockType::YellowWool { }]
}

fn states_yellow_wool() -> (v: Vec<BlockType>)
    ensures
        v@ == spec_states_yellow_wool(),
{
    vec![BlockType::YellowWool { }]
}

/// The states of `LimeWool`.
pub open spec fn spec_states_lime_wool() -> Seq<BlockType> {
    seq![BlockType::LimeWool { }]
}

fn states_lime_wool() -> (v: Vec<BlockType>)
    ensures
        v@ == spec_states_lime_wool(),
{
    vec![BlockType::LimeWool { }]
}

/// The states of `PinkWool`.
pub open spec fn spec_states_pink_wool() -> Seq<BlockType> {
    seq![BlockType::PinkWool { }]
}

fn states_pink_wool() -> (v: Vec<BlockType>)
    ensures
        v@ == spec_states_pink_wool(),
{
    vec![BlockType::PinkWool { }]
}

/// The states of `GrayWool`.
pub open spec fn spec_states_gray_wool() -> Seq<BlockType> {
    seq![BlockType::GrayWool { }]
}

fn states_gray_wool() -> (v: Vec<BlockType>)
    ensures
        v@ == spec_states_gray_wool(),
{
    vec![BlockType::GrayWool { }]
}

/// The states of `LightGrayWool`.
pub open spec fn spec_states_light_gray_wool() -> Seq<BlockType> {
    seq![BlockType::LightGrayWool { }]
}

fn states_light_gray_wool() -> (v: Vec<BlockType>)
    ensures
        v@ == spec_states_light_gray_wool(),
{
    vec![BlockType::LightGrayWool { }]
}

/// The states of `CyanWool`.
pub open spec fn spec_states_cyan_wool() -> Seq<BlockType> {
    seq![BlockType::CyanWool { }]
}

fn states_cyan_wool() -> (v: Vec<BlockType>)
    ensures
        v@ == spec_states_cyan_wool(),
{
    vec![BlockType::CyanWool { }]
}

/// The states of `PurpleWool`.
pub open spec fn spec_states_purple_wool() -> Seq<BlockType> {
    seq![BlockType::PurpleWool { }]
}

fn states_purple_wool() -> (v: Vec<BlockType>)
    ensures
        v@ == spec_states_purple_wool(),
{
    vec![BlockType::PurpleWool { }]
}

/// The states of `BlueWool`.
pub open spec fn spec_states_blue_wool() -> Seq<BlockType> {
    seq![BlockType::BlueWool { }]
}

fn states_blue_wool() -> (v: Vec<BlockType>)
    ensures
        v@ == spec_states_blue_wool(),
{
    vec![BlockType::BlueWool { }]
}

/// The states of `BrownWool`.
pub open spec fn spec_states_brown_wool() -> Seq<BlockType> {
    seq![BlockType::BrownWool { }]
}

fn states_brown_wool() -> (v: Vec<BlockType>)
    ensures
        v@ == spec_states_brown_wool(),
{
    vec![BlockType::BrownWool { }]
}

/// The states of `GreenWool`.
pub open spec fn spec_states_green_wool() -> Seq<BlockType> {
    seq![BlockType::GreenWool { }]
}

fn states_green_wool() -> (v: Vec<BlockType>)
    ensures
        v@ == spec_states_green_wool(),
{
    vec![BlockType::GreenWool { }]
}

/// The states of `RedWool`.
pub open spec fn spec_states_red_wool() -> Seq<BlockType> {
    seq![BlockType::RedWool { }]
}

fn states_red_wool() -> (v: Vec<BlockType>)
    ensures
        v@ == spec_states_red_wool(),
{
    vec![BlockType::RedWool { }]
}

/// The states of `BlackWool`.
pub open spec fn spec_states_black_wool() -> Seq<BlockType> {
    seq![BlockType::BlackWool { }]
}

fn states_black_wool() -> (v: Vec<BlockType>)
    ensures
        v@ == spec_states_black_wool(),
{
    vec![BlockType::BlackWool { }]
}

/// The `i`-th state of `MovingPiston`.
pub open spec fn state_moving_piston(i: int) -> BlockType {
    BlockType::MovingPiston { facing: direction_of_six((i / 2) % 6), is_sticky: false_first(i % 2) }
}

/// The states of `MovingPiston`.
pub open spec fn spec_states_moving_piston() -> Seq<BlockType> {
    Seq::new(12, |i: int| state_moving_piston(i))
}

fn states_moving_piston() -> (v: Vec<BlockType>)
    ensures
        v@ == spec_states_moving_piston(),
{
    let mut v: Vec<BlockType> = Vec::new();
    let mut i: usize = 0;
    while i < 12
        invariant
            i <= 12,
            v@ =~= spec_states_moving_piston().take(i as int),
        decreases 12 - i,
    {
        v.push(BlockType::MovingPiston { facing: exec_direction_of_six((i / 2) % 6), is_sticky: i % 2 == 1 });
        assert(spec_states_moving_piston().take(i + 1) =~= spec_states_moving_piston().take(i as int).push(state_moving_piston(i as int)));
        i = i + 1;
    }
    assert(spec_states_moving_piston().take(12) =~= spec_states_moving_piston());
    v
}

/// The states of `Dandelion`.
pub open spec fn spec_states_dandelion() -> Seq<BlockType> {
    seq![BlockType::Dandelion { }]
}

fn states_dandelion() -> (v: Vec<BlockType>)
    ensures
        v@ == spec_states_dandelion(),
{
    vec![BlockType::Dandelion { }]
}

/// The states of `Poppy`.
pub open spec fn spec_states_poppy() -> Seq<BlockType> {
    seq![BlockType::Poppy { }]
}

fn states_poppy() -> (v: Vec<BlockType>)
    ensures
        v@ == spec_states_poppy(),
{
    vec![BlockType::Poppy { }]
}

/// The states of `BlueOrchid`.
pub open spec fn spec_states_blue_orchid() -> Seq<BlockType> {
    seq![BlockType::BlueOrchid { }]
}

fn states_blue_orchid() -> (v: Vec<BlockType>)
    ensures
        v@ == spec_states_blue_orchid(),
{
    vec![BlockType::BlueOrchid { }]
}

/// The states of `Allium`.
pub open spec fn spec_states_allium() -> Seq<BlockType> {
    seq![BlockType::Allium { }]
}

fn states_allium() -> (v: Vec<BlockType>)
    ensures
        v@ == spec_states_allium(),
{
    vec![BlockType::Allium { }]
}

/// The states of `AzureBluet`.
pub open spec fn spec_states_azure_bluet() -> Seq<BlockType> {
    seq![BlockType::AzureBluet { }]
}

fn states_azure_bluet() -> (v: Vec<BlockType>)
    ensures
        v@ == spec_states_azure_bluet(),
{
    vec![BlockType::AzureBluet { }]
}

/// The states of `RedTulip`.
pub open spec fn spec_states_red_tulip() -> Seq<BlockType> {
    seq![BlockType::RedTulip { }]
}

fn states_red_tulip() -> (v: Vec<BlockType>)
    ensures
        v@ == spec_states_red_tulip(),
{
    vec![BlockType::RedTulip { }]
}

/// The states of `OrangeTulip`.
pub open spec fn spec_states_orange_tulip() -> Seq<BlockType> {
    seq![BlockType::OrangeTulip { }]
}

fn states_orange_tulip() -> (v: Vec<BlockType>)
    ensures
        v@ == spec_states_orange_tulip(),
{
    vec![BlockType::OrangeTulip { }]
}

/// The states of `WhiteTulip`.
pub open spec fn spec_states_white_tulip() -> Seq<BlockType> {
    seq![BlockType::WhiteTulip { }]
}

fn states_white_tulip() -> (v: Vec<BlockType>)
    ensures
        v@ == spec_states_white_tulip(),
{
    vec![BlockType::WhiteTulip { }]
}

/// The states of `PinkTulip`.
pub open spec fn spec_states_pink_tulip() -> Seq<BlockType> {
    seq![BlockType::PinkTulip { }]
}

fn states_pink_tulip() -> (v: Vec<BlockType>)
    ensures
        v@ == spec_states_pink_tulip(),
{
    vec![BlockType::PinkTulip { }]
}

/// The states of `OxeyeDaisy`.
pub open spec fn spec_states_oxeye_daisy() -> Seq<BlockType> {
    seq![BlockType::OxeyeDaisy { }]
}

fn states_oxeye_daisy() -> (v: Vec<BlockType>)
    ensures
        v@ == spec_states_oxeye_daisy(),
{
    vec![BlockType::OxeyeDaisy { }]
}

/// The states of `Cornflower`.
pub open spec fn spec_states_cornflower() -> Seq<BlockType> {
    seq![BlockType::Cornflower { }]
}

fn states_cornflower() -> (v: Vec<BlockType>)
    ensures
        v@ == spec_states_cornflower(),
{
    vec![BlockType::Cornflower { }]
}

/// The states of `WitherRose`.
pub open spec fn spec_states_wither_rose() -> Seq<BlockType> {
    seq![BlockType::WitherRose { }]
}

fn states_wither_rose() -> (v: Vec<BlockType>)
    ensures
        v@ == spec_states_wither_rose(),
{
    vec![BlockType::WitherRose { }]
}

/// The states of `LilyOfTheValley`.
pub open spec fn spec_states_lily_of_the_valley() -> Seq<BlockType> {
    seq![BlockType::LilyOfTheValley { }]
}

fn states_lily_of_the_valley() -> (v: Vec<BlockType>)
    ensures
        v@ == spec_states_lily_of_the_valley(),
{
    vec![BlockType::LilyOfTheValley { }]
}

/// The states of `BrownMushroom`.
pub open spec fn spec_states_brown_mushroom() -> Seq<BlockType> {
    seq![BlockType::BrownMushroom { }]
}

fn states_brown_mushroom() -> (v: Vec<BlockType>)
    ensures
        v@ == spec_states_brown_mushroom(),
{
    vec![BlockType::BrownMushroom { }]
}

/// The states of `RedMushroom`.
pub open spec fn spec_states_red_mushroom() -> Seq<BlockType> {
    seq![BlockType::RedMushroom { }]
}

fn states_red_mushroom() -> (v: Vec<BlockType>)
    ensures
        v@ == spec_states_red_mushroom(),
{
    vec![BlockType::RedMushroom { }]
}

/// The states of `GoldBlock`.
pub open spec fn spec_states_gold_block() -> Seq<BlockType> {
    seq![BlockType::GoldBlock { }]
}

fn states_gold_block() -> (v: Vec<BlockType>)
    ensures
        v@ == spec_states_gold_block(),
{
    vec![BlockType::GoldBlock { }]
}

/// The states of `IronBlock`.
pub open spec fn spec_states_iron_block() -> Seq<BlockType> {
    seq![BlockType::IronBlock { }]
}

fn states_iron_block() -> (v: Vec<BlockType>)
    ensures
        v@ == spec_states_iron_block(),
{
    vec![BlockType::IronBlock { }]
}

/// The states of `Bricks`.
pub open spec fn spec_states_bricks() -> Seq<BlockType> {
    seq![BlockType::Bricks { }]
}

fn states_bricks() -> (v: Vec<BlockType>)
    ensures
        v@ == spec_states_bricks(),
{
    vec![BlockType::Bricks { }]
}

/// The states of `TNT`.
pub open spec fn spec_states_t_n_t() -> Seq<BlockType> {
    seq![BlockType::TNT { unstable: true }, BlockType::TNT { unstable: false }]
}

fn states_t_n_t() -> (v: Vec<BlockType>)
    ensures
        v@ == spec_states_t_n_t(),
{
    vec![BlockType::TNT { unstable: true }, BlockType::TNT { unstable: false }]
}

/// The states of `Bookshelf`.
pub open spec fn spec_states_bookshelf() -> Seq<BlockType> {
    seq![BlockType::Bookshelf { }]
}

fn states_bookshelf() -> (v: Vec<BlockType>)
    ensures
        v@ == spec_states_bookshelf(),
{
    vec![BlockType::Bookshelf { }]
}

/// The states of `MossyCobblestone`.
pub open spec fn spec_states_mossy_cobblestone() -> Seq<BlockType> {
    seq![BlockType::MossyCobblestone { }]
}

fn states_mossy_cobblestone() -> (v: Vec<BlockType>)
    ensures
        v@ == spec_states_mossy_cobblestone(),
{
    vec![BlockType::MossyCobblestone { }]
}

/// The states of `Obsidian`.
pub open spec fn spec_states_obsidian() -> Seq<BlockType> {
    seq![BlockType::Obsidian { }]
}

fn states_obsidian() -> (v: Vec<BlockType>)
    ensures
        v@ == spec_states_obsidian(),
{
    vec![BlockType::Obsidian { }]
}

/// The states of `Torch`.
pub open spec fn spec_states_torch() -> Seq<BlockType> {
    seq![BlockType::Torch { }]
}

fn states_torch() -> (v: Vec<BlockType>)
    ensures
        v@ == spec_states_torch(),
{
    vec![BlockType::Torch { }]
}

/// The states of `WallTorch`.
pub open spec fn spec_states_wall_torch() -> Seq<BlockType> {
    seq![BlockType::WallTorch { facing: Direction::North }, BlockType::WallTorch { facing: Direction::South }, BlockType::WallTorch { facing: Direction::West }, BlockType::WallTorch { facing: Direction::East }]
}

fn states_wall_torch() -> (v: Vec<BlockType>)
    ensures
        v@ == spec_states_wall_torch(),
{
    vec![BlockType::WallTorch { facing: Direction::North }, BlockType::WallTorch { facing: Direction::South }, BlockType::WallTorch { facing: Direction::West }, BlockType::WallTorch { facing: Direction::East }]
}

/// The `i`-th state of `Fire`.
pub open spec fn state_fire(i: int) -> BlockType {
    BlockType::Fire { age: ((i / 32) % 16) as u8, east: true_first((i / 16) % 2), north: true_first((i / 8) % 2), south: true_first((i / 4) % 2), up: true_first((i / 2) % 2), west: true_first(i % 2) }
}

/// The states of `Fire`.
pub open spec fn spec_states_fire() -> Seq<BlockType> {
    Seq::new(512, |i: int| state_fire(i))
}

fn states_fire() -> (v: Vec<BlockType>)
    ensures
        v@ == spec_states_fire(),
{
    let mut v: Vec<BlockType> = Vec::new();
    let mut i: usize = 0;
    while i < 512
        invariant
            i <= 512,
            v@ =~= spec_states_fire().take(i as int),
        decreases 512 - i,
    {
        v.push(BlockType::Fire { age: ((i / 32) % 16) as u8, east: (i / 16) % 2 == 0, north: (i / 8) % 2 == 0, south: (i / 4) % 2 == 0, up: (i / 2) % 2 == 0, west: i % 2 == 0 });
        assert(spec_states_fire().take(i + 1) =~= spec_states_fire().take(i as int).push(state_fire(i as int)));
        i = i + 1;
    }
    assert(spec_states_fire().take(512) =~= spec_states_fire());
    v
}

/// The states of `Spawner`.
pub open spec fn spec_states_spawner() -> Seq<BlockType> {
    seq![BlockType::Spawner { }]
}

fn states_spawner() -> (v: Vec<BlockType>)
    ensures
        v@ == spec_states_spawner(),
{
    vec![BlockType::Spawner { }]
}

/// The `i`-th state of `OakStairs`.
pub open spec fn state_oak_stairs(i: int) -> BlockType {
    BlockType::OakStairs { facing: direction_nswe((i / 20) % 4), top: true_first((i / 10) % 2), shape: stair_shape_of((i / 2) % 5), waterlogged: true_first(i % 2) }
}

/// The states of `OakStairs`.
pub open spec fn spec_states_oak_stairs() -> Seq<BlockType> {
    Seq::new(80, |i: int| state_oak_stairs(i))
}

fn states_oak_stairs() -> (v: Vec<BlockType>)
    ensures
        v@ == spec_states_oak_stairs(),
{
    let mut v: Vec<BlockType> = Vec::new();
    let mut i: usize = 0;
    while i < 80
        invariant
            i <= 80,
            v@ =~= spec_states_oak_stairs().take(i as int),
        decreases 80 - i,
    {
        v.push(BlockType::OakStairs { facing: exec_direction_nswe((i / 20) % 4), top: (i / 10) % 2 == 0, shape: exec_stair_shape_of((i / 2) % 5), waterlogged: i % 2 == 0 });
        assert(spec_states_oak_stairs().take(i + 1) =~= spec_states_oak_stairs().take(i as int).push(state_oak_stairs(i as int)));
        i = i + 1;
    }
    assert(spec_states_oak_stairs().take(80) =~= spec_states_oak_stairs());
    v
}

/// The `i`-th state of `Chest`.
pub open spec fn state_chest(i: int) -> BlockType {
    BlockType::Chest { facing: direction_nesw((i / 6) % 4), chest_type: chest_type_of((i / 2) % 3), waterlogged: false_first(i % 2) }
}

/// The states of `Chest`.
pub open spec fn spec_states_chest() -> Seq<BlockType> {
    Seq::new(24, |i: int| state_chest(i))
}

fn states_chest() -> (v: Vec<BlockType>)
    ensures
        v@ == spec_states_chest(),
{
    let mut v: Vec<BlockType> = Vec::new();
    let mut i: usize = 0;
    while i < 24
        invariant
            i <= 24,
            v@ =~= spec_states_chest().take(i as int),
        decreases 24 - i,
    {
        v.push(BlockType::Chest { facing: exec_direction_nesw((i / 6) % 4), chest_type: exec_chest_type_of((i / 2) % 3), waterlogged: i % 2 == 1 });
        assert(spec_states_chest().take(i + 1) =~= spec_states_chest().take(i as int).push(state_chest(i as int)));
        i = i + 1;
    }
    assert(spec_states_chest().take(24) =~= spec_states_chest());
    v
}

/// The `i`-th state of `RedstoneWire`.
pub open spec fn state_redstone_wire(i: int) -> BlockType {
    BlockType::RedstoneWire { east: wire_direction_of((i / 432) % 3), north: wire_direction_of((i / 144) % 3), power: ((i / 9) % 16) as u8, south: wire_direction_of((i / 3) % 3), west: wire_direction_of(i % 3) }
}

/// The states of `RedstoneWire`.
pub open spec fn spec_states_redstone_wire() -> Seq<BlockType> {
    Seq::new(1296, |i: int| state_redstone_wire(i))
}

fn states_redstone_wire() -> (v: Vec<BlockType>)
    ensures
        v@ == spec_states_redstone_wire(),
{
    let mut v: Vec<BlockType> = Vec::new();
    let mut i: usize = 0;
    while i < 1296
        invariant
            i <= 1296,
            v@ =~= spec_states_redstone_wire().take(i as int),
        decreases 1296 - i,
    {
        v.push(BlockType::RedstoneWire { east: exec_wire_direction_of((i / 432) % 3), north: exec_wire_direction_of((i / 144) % 3), power: ((i / 9) % 16) as u8, south: exec_wire_direction_of((i / 3) % 3), west: exec_wire_direction_of(i % 3) });
        assert(spec_states_redstone_wire().take(i + 1) =~= spec_states_redstone_wire().take(i as int).push(state_redstone_wire(i as int)));
        i = i + 1;
    }
    assert(spec_states_redstone_wire().take(1296) =~= spec_states_redstone_wire());
    v
}

/// The states of `DiamondOre`.
pub open spec fn spec_states_diamond_ore() -> Seq<BlockType> {
    seq![BlockType::DiamondOre { }]
}

fn states_diamond_ore() -> (v: Vec<BlockType>)
    ensures
        v@ == spec_states_diamond_ore(),
{
    vec![BlockType::DiamondOre { }]
}

/// The states of `DiamondBlock`.
pub open spec fn spec_states_diamond_block() -> Seq<BlockType> {
    seq![BlockType::DiamondBlock { }]
}

fn states_diamond_block() -> (v: Vec<BlockType>)
    ensures
        v@ == spec_states_diamond_block(),
{
    vec![BlockType::DiamondBlock { }]
}

/// The states of `CraftingTable`.
pub open spec fn spec_states_crafting_table() -> Seq<BlockType> {
    seq![BlockType::CraftingTable { }]
}

fn states_crafting_table() -> (v: Vec<BlockType>)
    ensures
        v@ == spec_states_crafting_table(),
{
    vec![BlockType::CraftingTable { }]
}

/// The states of `Wheat`.
pub open spec fn spec_states_wheat() -> Seq<BlockType> {
    seq![BlockType::Wheat { age: 0 }, BlockType::Wheat { age: 1 }, BlockType::Wheat { age: 2 }, BlockType::Wheat { age: 3 }, BlockType::Wheat { age: 4 }, BlockType::Wheat { age: 5 }, BlockType::Wheat { age: 6 }, BlockType::Wheat { age: 7 }]
}

fn states_wheat() -> (v: Vec<BlockType>)
    ensures
        v@ == spec_states_wheat(),
{
    vec![BlockType::Wheat { age: 0 }, BlockType::Wheat { age: 1 }, BlockType::Wheat { age: 2 }, BlockType::Wheat { age: 3 }, BlockType::Wheat { age: 4 }, BlockType::Wheat { age: 5 }, BlockType::Wheat { age: 6 }, BlockType::Wheat { age: 7 }]
}

/// The states of the `k`-th kind of block, in registry order.
pub open spec fn state_group(k: int) -> Seq<BlockType> {
    if k == 0 {
        spec_states_air()
    } else if k == 1 {
        spec_states_stone()
    } else if k == 2 {
        spec_states_granite()
    } else if k == 3 {
        spec_states_smooth_granite()
    } else if k == 4 {
        spec_states_diorite()
    } else if k == 5 {
        spec_states_smooth_diorite()
    } else if k == 6 {
        spec_states_andesite()
    } else if k == 7 {
        spec_states_smooth_andesite()
    } else if k == 8 {
        spec_states_grass_block()
    } else if k == 9 {
        spec_states_dirt()
    } else if k == 10 {
        spec_states_coarse_dirt()
    } else if k == 11 {
        spec_states_podzol()
    } else if k == 12 {
        spec_states_cobblestone()
    } else if k == 13 {
        spec_states_planks()
    } else if k == 14 {
        spec_states_oak_sapling()
    } else if k == 15 {
        spec_states_spruce_sapling()
    } else if k == 16 {
        spec_states_birch_sapling()
    } else if k == 17 {
        spec_states_jungle_sapling()
    } else if k == 18 {
        spec_states_acacia_sapling()
    } else if k == 19 {
        spec_states_dark_oak_sapling()
    } else if k == 20 {
        spec_states_bedrock()
    } else if k == 21 {
        spec_states_water()
    } else if k == 22 {
        spec_states_lava()
    } else if k == 23 {
        spec_states_sand()
    } else if k == 24 {
        spec_states_red_sand()
    } else if k == 25 {
        spec_states_gravel()
    } else if k == 26 {
        spec_states_gold_ore()
    } else if k == 27 {
        spec_states_iron_ore()
    } else if k == 28 {
        spec_states_coal_ore()
    } else if k == 29 {
        spec_states_oak_log()
    } else if k == 30 {
        spec_states_spruce_log()
    } else if k == 31 {
        spec_states_birch_log()
    } else if k == 32 {
        spec_states_jungle_log()
    } else if k == 33 {
        spec_states_acacia_log()
    } else if k == 34 {
        spec_states_dark_oak_log()
    } else if k == 35 {
        spec_states_stripped_spruce_log()
    } else if k == 36 {
        spec_states_stripped_birch_log()
    } else if k == 37 {
        spec_states_stripped_jungle_log()
    } else if k == 38 {
        spec_states_stripped_acacia_log()
    } else if k == 39 {
        spec_states_stripped_dark_oak_log()
    } else if k == 40 {
        spec_states_stripped_oak_log()
    } else if k == 41 {
        spec_states_oak_wood()
    } else if k == 42 {
        spec_states_spruce_wood()
    } else if k == 43 {
        spec_states_birch_wood()
    } else if k == 44 {
        spec_states_jungle_wood()
    } else if k == 45 {
        spec_states_acacia_wood()
    } else if k == 46 {
        spec_states_dark_oak_wood()
    } else if k == 47 {
        spec_states_stripped_oak_wood()
    } else if k == 48 {
        spec_states_stripped_spruce_wood()
    } else if k == 49 {
        spec_states_stripped_birch_wood()
    } else if k == 50 {
        spec_states_stripped_jungle_wood()
    } else if k == 51 {
        spec_states_stripped_acacia_wood()
    } else if k == 52 {
        spec_states_stripped_dark_oak_wood()
    } else if k == 53 {
        spec_states_oak_leaves()
    } else if k == 54 {
        spec_states_spruce_leaves()
    } else if k == 55 {
        spec_states_birch_leaves()
    } else if k == 56 {
        spec_states_jungle_leaves()
    } else if k == 57 {
        spec_states_acacia_leaves()
    } else if k == 58 {
        spec_states_dark_oak_leaves()
    } else if k == 59 {
        spec_states_sponge()
    } else if k == 60 {
        spec_states_wet_sponge()
    } else if k == 61 {
        spec_states_glass()
    } else if k == 62 {
        spec_states_lapis_ore()
    } else if k == 63 {
        spec_states_lapis_block()
    } else if k == 64 {
        spec_states_dispenser()
    } else if k == 65 {
        spec_states_sandstone()
    } else if k == 66 {
        spec_states_chiseled_sandstone()
    } else if k == 67 {
        spec_states_cut_sandstone()
    } else if k == 68 {
        spec_states_note_block()
    } else if k == 69 {
        spec_states_white_bed()
    } else if k == 70 {
        spec_states_orange_bed()
    } else if k == 71 {
        spec_states_magenta_bed()
    } else if k == 72 {
        spec_states_light_blue_bed()
    } else if k == 73 {
        spec_states_yellow_bed()
    } else if k == 74 {
        spec_states_lime_bed()
    } else if k == 75 {
        spec_states_pink_bed()
    } else if k == 76 {
        spec_states_gray_bed()
    } else if k == 77 {
        spec_states_light_gray_bed()
    } else if k == 78 {
        spec_states_cyan_bed()
    } else if k == 79 {
        spec_states_purple_bed()
    } else if k == 80 {
        spec_states_blue_bed()
    } else if k == 81 {
        spec_states_brown_bed()
    } else if k == 82 {
        spec_states_green_bed()
    } else if k == 83 {
        spec_states_red_bed()
    } else if k == 84 {
        spec_states_black_bed()
    } else if k == 85 {
        spec_states_powered_rail()
    } else if k == 86 {
        spec_states_detector_rail()
    } else if k == 87 {
        spec_states_sticky_piston()
    } else if k == 88 {
        spec_states_cobweb()
    } else if k == 89 {
        spec_states_grass()
    } else if k == 90 {
        spec_states_fern()
    } else if k == 91 {
        spec_states_dead_bush()
    } else if k == 92 {
        spec_states_seagrass()
    } else if k == 93 {
        spec_states_tall_seagrass()
    } else if k == 94 {
        spec_states_piston()
    } else if k == 95 {
        spec_states_piston_head()
    } else if k == 96 {
        spec_states_white_wool()
    } else if k == 97 {
        spec_states_orange_wool()
    } else if k == 98 {
        spec_states_magenta_wool()
    } else if k == 99 {
        spec_states_light_blue_wool()
    } else if k == 100 {
        spec_states_yellow_wool()
    } else if k == 101 {
        spec_states_lime_wool()
    } else if k == 102 {
        spec_states_pink_wool()
    } else if k == 103 {
        spec_states_gray_wool()
    } else if k == 104 {
        spec_states_light_gray_wool()
    } else if k == 105 {
        spec_states_cyan_wool()
    } else if k == 106 {
        spec_states_purple_wool()
    } else if k == 107 {
        spec_states_blue_wool()
    } else if k == 108 {
        spec_states_brown_wool()
    } else if k == 109 {
        spec_states_green_wool()
    } else if k == 110 {
        spec_states_red_wool()
    } else if k == 111 {
        spec_states_black_wool()
    } else if k == 112 {
        spec_states_moving_piston()
    } else if k == 113 {
        spec_states_dandelion()
    } else if k == 114 {
        spec_states_poppy()
    } else if k == 115 {
        spec_states_blue_orchid()
    } else if k == 116 {
        spec_states_allium()
    } else if k == 117 {
        spec_states_azure_bluet()
    } else if k == 118 {
        spec_states_red_tulip()
    } else if k == 119 {
        spec_states_orange_tulip()
    } else if k == 120 {
        spec_states_white_tulip()
    } else if k == 121 {
        spec_states_pink_tulip()
    } else if k == 122 {
        spec_states_oxeye_daisy()
    } else if k == 123 {
        spec_states_cornflower()
    } else if k == 124 {
        spec_states_wither_rose()
    } else if k == 125 {
        spec_states_lily_of_the_valley()
    } else if k == 126 {
        spec_states_brown_mushroom()
    } else if k == 127 {
        spec_states_red_mushroom()
    } else if k == 128 {
        spec_states_gold_block()
    } else if k == 129 {
        spec_states_iron_block()
    } else if k == 130 {
        spec_states_bricks()
    } else if k == 131 {
        spec_states_t_n_t()
    } else if k == 132 {
        spec_states_bookshelf()
    } else if k == 133 {
        spec_states_mossy_cobblestone()
    } else if k == 134 {
        spec_states_obsidian()
    } else if k == 135 {
        spec_states_torch()
    } else if k == 136 {
        spec_states_wall_torch()
    } else if k == 137 {
        spec_states_fire()
    } else if k == 138 {
        spec_states_spawner()
    } else if k == 139 {
        spec_states_oak_stairs()
    } else if k == 140 {
        spec_states_chest()
    } else if k == 141 {
        spec_states_redstone_wire()
    } else if k == 142 {
        spec_states_diamond_ore()
    } else if k == 143 {
        spec_states_diamond_block()
    } else if k == 144 {
        spec_states_crafting_table()
    } else if k == 145 {
        spec_states_wheat()
    } else {
        Seq::empty()
    }
}

/// The states of the `k`-th kind of block, in registry order.
pub fn states_of(k: usize) -> (v: Vec<BlockType>)
    ensures
        v@ == state_group(k as int),
{
    match k {
        0 => states_air(),
        1 => states_stone(),
        2 => states_granite(),
        3 => states_smooth_granite(),
        4 => states_diorite(),
        5 => states_smooth_diorite(),
        6 => states_andesite(),
        7 => states_smooth_andesite(),
        8 => states_grass_block(),
        9 => states_dirt(),
        10 => states_coarse_dirt(),
        11 => states_podzol(),
        12 => states_cobblestone(),
        13 => states_planks(),
        14 => states_oak_sapling(),
        15 => states_spruce_sapling(),
        16 => states_birch_sapling(),
        17 => states_jungle_sapling(),
        18 => states_acacia_sapling(),
        19 => states_dark_oak_sapling(),
        20 => states_bedrock(),
        21 => states_water(),
        22 => states_lava(),
        23 => states_sand(),
        24 => states_red_sand(),
        25 => states_gravel(),
        26 => states_gold_ore(),
        27 => states_iron_ore(),
        28 => states_coal_ore(),
        29 => states_oak_log(),
        30 => states_spruce_log(),
        31 => states_birch_log(),
        32 => states_jungle_log(),
        33 => states_acacia_log(),
        34 => states_dark_oak_log(),
        35 => states_stripped_spruce_log(),
        36 => states_stripped_birch_log(),
        37 => states_stripped_jungle_log(),
        38 => states_stripped_acacia_log(),
        39 => states_stripped_dark_oak_log(),
        40 => states_stripped_oak_log(),
        41 => states_oak_wood(),
        42 => states_spruce_wood(),
        43 => states_birch_wood(),
        44 => states_jungle_wood(),
        45 => states_acacia_wood(),
        46 => states_dark_oak_wood(),
        47 => states_stripped_oak_wood(),
        48 => states_stripped_spruce_wood(),
        49 => states_stripped_birch_wood(),
        50 => states_stripped_jungle_wood(),
        51 => states_stripped_acacia_wood(),
        52 => states_stripped_dark_oak_wood(),
        53 => states_oak_leaves(),
        54 => states_spruce_leaves(),
        55 => states_birch_leaves(),
        56 => states_jungle_leaves(),
        57 => states_acacia_leaves(),
        58 => states_dark_oak_leaves(),
        59 => states_sponge(),
        60 => states_wet_sponge(),
        61 => states_glass(),
        62 => states_lapis_ore(),
        63 => states_lapis_block(),
        64 => states_dispenser(),
        65 => states_sandstone(),
        66 => states_chiseled_sandstone(),
        67 => states_cut_sandstone(),
        68 => states_note_block(),
        69 => states_white_bed(),
        70 => states_orange_bed(),
        71 => states_magenta_bed(),
        72 => states_light_blue_bed(),
        73 => states_yellow_bed(),
        74 => states_lime_bed(),
        75 => states_pink_bed(),
        76 => states_gray_bed(),
        77 => states_light_gray_bed(),
        78 => states_cyan_bed(),
        79 => states_purple_bed(),
        80 => states_blue_bed(),
        81 => states_brown_bed(),
        82 => states_green_bed(),
        83 => states_red_bed(),
        84 => states_black_bed(),
        85 => states_powered_rail(),
        86 => states_detector_rail(),
        87 => states_sticky_piston(),
        88 => states_cobweb(),
        89 => states_grass(),
        90 => states_fern(),
        91 => states_dead_bush(),
        92 => states_seagrass(),
        93 => states_tall_seagrass(),
        94 => states_piston(),
        95 => states_piston_head(),
        96 => states_white_wool(),
        97 => states_orange_wool(),
        98 => states_magenta_wool(),
        99 => states_light_blue_wool(),
        100 => states_yellow_wool(),
        101 => states_lime_wool(),
        102 => states_pink_wool(),
        103 => states_gray_wool(),
        104 => states_light_gray_wool(),
        105 => states_cyan_wool(),
        106 => states_purple_wool(),
        107 => states_blue_wool(),
        108 => states_brown_wool(),
        109 => states_green_wool(),
        110 => states_red_wool(),
        111 => states_black_wool(),
        112 => states_moving_piston(),
        113 => states_dandelion(),
        114 => states_poppy(),
        115 => states_blue_orchid(),
        116 => states_allium(),
        117 => states_azure_bluet(),
        118 => states_red_tulip(),
        119 => states_orange_tulip(),
        120 => states_white_tulip(),
        121 => states_pink_tulip(),
        122 => states_oxeye_daisy(),
        123 => states_cornflower(),
        124 => states_wither_rose(),
        125 => states_lily_of_the_valley(),
        126 => states_brown_mushroom(),
        127 => states_red_mushroom(),
        128 => states_gold_block(),
        129 => states_iron_block(),
        130 => states_bricks(),
        131 => states_t_n_t(),
        132 => states_bookshelf(),
        133 => states_mossy_cobblestone(),
        134 => states_obsidian(),
        135 => states_torch(),
        136 => states_wall_torch(),
        137 => states_fire(),
        138 => states_spawner(),
        139 => states_oak_stairs(),
        140 => states_chest(),
        141 => states_redstone_wire(),
        142 => states_diamond_ore(),
        143 => states_diamond_block(),
        144 => states_crafting_table(),
        145 => states_wheat(),
        _ => Vec::new(),
    }
}

} // verus!
