//! The block registry: every kind of block, its states, and the state ids that
//! the world and the network use to name them.

use vstd::prelude::*;
use crate::text::{decimal, decimal_string};

pub mod block_type;
pub mod states;
pub mod state_order;
pub mod kind_properties;

use block_type::{get_blocks, spec_blocks, spec_identifier, BlockType, BLOCK_COUNT};
use states::{state_group, states_of};

verus! {

#[derive(Debug, Clone, Copy, PartialEq, Eq, Structural, Hash)]
pub enum TreeVariant {
    Oak,
    Spruce,
    Birch,
    Jungle,
    Acacia,
    DarkOak,
}

#[derive(Debug, Clone, Copy, PartialEq, Eq, Structural, Hash)]
pub enum Axis {
    X,
    Y,
    Z,
}

#[derive(Debug, Clone, Copy, PartialEq, Eq, Structural, Hash)]
pub enum Direction {
    North,
    East,
    South,
    West,
    Up,
    Down,
}

#[derive(Debug, Clone, Copy, PartialEq, Eq, Structural, Hash)]
pub enum Instrument {
    Harp,
    Basedrum,
    Snare,
    Hat,
    Bass,
    Flute,
    Bell,
    Guitar,
    Chime,
    Xylophone,
    IronXylophone,
    CowBell,
    Didgeridoo,
    Bit,
    Banjo,
    Pling,
}

#[derive(Debug, Clone, Copy, PartialEq, Eq, Structural, Hash)]
pub enum RailShape {
    NorthSouth,
    EastWest,
    AscendingEast,
    AscendingWest,
    AscendingNorth,
    AscendingSouth,
}

#[derive(Debug, Clone, Copy, PartialEq, Eq, Structural, Hash)]
pub enum StairShape {
    Straight,
    InnerLeft,
    InnerRight,
    OuterLeft,
    OuterRight,
}

#[derive(Debug, Clone, Copy, PartialEq, Eq, Structural, Hash)]
pub enum ChestType {
    Single,
    Left,
    Right,
}

#[derive(Debug, Clone, Copy, PartialEq, Eq, Structural, Hash)]
pub enum RedstoneWireDirection {
    Up,
    Side,
    Unconnected,
}

impl Default for TreeVariant {
    fn default() -> (r: Self)
        ensures
            r == TreeVariant::Oak,
    {
        TreeVariant::Oak
    }
}

impl Default for Axis {
    fn default() -> (r: Self)
        ensures
            r == Axis::X,
    {
        Axis::X
    }
}

impl Default for Direction {
    fn default() -> (r: Self)
        ensures
            r == Direction::Up,
    {
        Direction::Up
    }
}

impl Default for Instrument {
    fn default() -> (r: Self)
        ensures
            r == Instrument::Banjo,
    {
        Instrument::Banjo
    }
}

impl Default for RailShape {
    fn default() -> (r: Self)
        ensures
            r == RailShape::AscendingEast,
    {
        RailShape::AscendingEast
    }
}

impl Default for StairShape {
    fn default() -> (r: Self)
        ensures
            r == StairShape::Straight,
    {
        StairShape::Straight
    }
}

impl Default for ChestType {
    fn default() -> (r: Self)
        ensures
            r == ChestType::Single,
    {
        ChestType::Single
    }
}

impl Default for RedstoneWireDirection {
    fn default() -> (r: Self)
        ensures
            r == RedstoneWireDirection::Unconnected,
    {
        RedstoneWireDirection::Unconnected
    }
}

/// The tool that mines a block fastest.
#[derive(Clone)]
pub enum ToolType {
    NoTool,
    Pickaxe,
    Shovel,
    Sword,
    Hoe,
    Axe,
}

/// A direction on a block. Useful for things like furnaces that have a different
/// front face, face culling and hoppers that move items down or sideways.
#[derive(Copy, Clone, PartialEq, Eq, Structural)]
pub enum BlockDirection {
    Top,
    Front,
    Back,
    Left,
    Right,
    Bottom,
}

/// A block of the registry: its kind and properties, and the id of its state.
#[derive(Clone, Debug)]
pub struct Block<'a> {
    pub block_type: &'a BlockType,
    pub block_state_index: usize,
}

/// One state of the registry: the number of its kind of block and its properties.
#[derive(Debug)]
pub struct BlockStateEntry {
    block_number: usize,
    properties: BlockType,
}

impl BlockStateEntry {
    pub closed spec fn number(&self) -> usize {
        self.block_number
    }

    pub closed spec fn props(&self) -> BlockType {
        self.properties
    }

    /// The number of the kind of block this state belongs to.
    pub fn block_number(&self) -> (n: usize)
        ensures
            n == self.number(),
    {
        self.block_number
    }

    /// The properties of this state.
    pub fn properties(&self) -> (p: &BlockType)
        ensures
            *p == self.props(),
    {
        &self.properties
    }
}

/// The entries of the states of kinds `0 .. k`, in order: every state of kind `j`
/// carries the number `j`.
pub closed spec fn entries_of(k: int) -> Seq<BlockStateEntry>
    decreases k,
{
    if k <= 0 {
        Seq::empty()
    } else {
        entries_of(k - 1) + state_group(k - 1).map_values(
            |t: BlockType| BlockStateEntry { block_number: (k - 1) as usize, properties: t },
        )
    }
}

/// Every state of every kind of block, in registry order: the position of a state
/// in this list is its id.
pub fn get_states() -> (states: Vec<BlockStateEntry>)
    ensures
        states@ == entries_of(BLOCK_COUNT as int),
{
    let mut states: Vec<BlockStateEntry> = Vec::new();
    let mut k: usize = 0;
    while k < BLOCK_COUNT
        invariant
            k <= BLOCK_COUNT,
            states@ == entries_of(k as int),
        decreases BLOCK_COUNT - k,
    {
        let group = states_of(k);
        let ghost before = states@;
        let mut i: usize = 0;
        while i < group.len()
            invariant
                k < BLOCK_COUNT,
                group@ == state_group(k as int),
                i <= group.len(),
                states@ =~= before + group@.take(i as int).map_values(
                    |t: BlockType| BlockStateEntry { block_number: k, properties: t },
                ),
            decreases group.len() - i,
        {
            let t = group[i];
            states.push(BlockStateEntry { block_number: k, properties: t });
            assert(group@.take(i + 1) =~= group@.take(i as int).push(group@[i as int]));
            i = i + 1;
        }
        assert(group@.take(group.len() as int) =~= group@);
        k = k + 1;
    }
    states
}

/// The block registry: all states in id order, and one block of each kind.
pub struct BlockStates {
    pub states: Vec<BlockStateEntry>,
    pub blocks: Vec<BlockType>,
}

/// The debug listing of the first `n` states: one line per state, its id, a colon
/// and the identifier of its kind of block.
pub open spec fn debug_lines(states: Seq<BlockStateEntry>, blocks: Seq<BlockType>, n: int) -> Seq<char>
    decreases n,
{
    if n <= 0 {
        Seq::empty()
    } else {
        debug_lines(states, blocks, n - 1) + decimal((n - 1) as nat) + ": "@ + spec_identifier(
            blocks[states[n - 1].number() as int],
        ) + "\n"@
    }
}

impl BlockStates {
    /// Builds the registry: every state of every kind of block, in id order, and
    /// one block of each kind.
    pub fn generate() -> (r: BlockStates)
        ensures
            r.states@ == entries_of(BLOCK_COUNT as int),
            r.blocks@ == spec_blocks(),
            r.blocks.len() == BLOCK_COUNT,
            forall|i: int| 0 <= i < r.states.len() ==> #[trigger] r.states@[i].number() < r.blocks.len(),
    {
        let r = BlockStates { states: get_states(), blocks: get_blocks() };
        assert forall|i: int| 0 <= i < r.states.len() implies #[trigger] r.states@[i].number() < r.blocks.len() by {
            law_state_ids_grouped_by_kind(BLOCK_COUNT as int, i, i);
        }
        r
    }

    /// The block with state id `id`, or `None` where there is no such state.
    pub fn get_block(&self, id: usize) -> (r: Option<Block>)
        ensures
            id < self.states.len() ==> r is Some && *r->0.block_type == self.states@[id as int].props()
                && r->0.block_state_index == id,
            id >= self.states.len() ==> r is None,
    {
        if id < self.states.len() {
            Some(Block { block_type: &self.states[id].properties, block_state_index: id })
        } else {
            None
        }
    }

    /// Does nothing.
    pub fn get_id() {
    }

    /// The debug listing of the registry: for every state, in id order, a line
    /// with its id, a colon and the identifier of its kind of block.
    pub fn debug_states_text(&self) -> (text: String)
        requires
            forall|i: int| 0 <= i < self.states.len() ==> #[trigger] self.states@[i].number() < self.blocks.len(),
        ensures
            text@ == debug_lines(self.states@, self.blocks@, self.states.len() as int),
    {
        let mut text = String::new();
        let mut i: usize = 0;
        while i < self.states.len()
            invariant
                i <= self.states.len(),
                forall|j: int| 0 <= j < self.states.len() ==> #[trigger] self.states@[j].number() < self.blocks.len(),
                text@ == debug_lines(self.states@, self.blocks@, i as int),
            decreases self.states.len() - i,
        {
            let n = self.states[i].block_number();
            let ident = self.blocks[n].get_identifier();
            let ghost before = text@;
            let number = decimal_string(i as u64);
            text.append(number.as_str());
            text.append(": ");
            text.append(ident);
            text.append("\n");
            assert(text@ =~= debug_lines(self.states@, self.blocks@, i + 1));
            i = i + 1;
        }
        text
    }
}

/// Law: the states of one kind of block have consecutive ids: along the state ids
/// the numbers of the kinds never decrease, and stay below the number of kinds.
pub proof fn law_state_ids_grouped_by_kind(k: int, i: int, j: int)
    requires
        0 <= i <= j < entries_of(k).len(),
    ensures
        entries_of(k)[i].number() <= entries_of(k)[j].number(),
        entries_of(k)[j].number() < k,
    decreases k,
{
    if k > 0 {
        let prev = entries_of(k - 1);
        let tail = state_group(k - 1).map_values(
            |t: BlockType| BlockStateEntry { block_number: (k - 1) as usize, properties: t },
        );
        assert(entries_of(k) == prev + tail);
        if j < prev.len() {
            law_state_ids_grouped_by_kind(k - 1, i, j);
        } else {
            assert(entries_of(k)[j] == tail[j - prev.len()]);
            if i < prev.len() {
                law_state_ids_grouped_by_kind(k - 1, i, i);
            } else {
                assert(entries_of(k)[i] == tail[i - prev.len()]);
            }
        }
    }
}

/// The id of the first state of kind `k`: the number of states of the kinds before it.
pub open spec fn first_state_id(k: int) -> int
    decreases k,
{
    if k <= 0 {
        0
    } else {
        first_state_id(k - 1) + state_group(k - 1).len()
    }
}

/// Law: the registry holds `first_state_id(BLOCK_COUNT)` states, and the states of
/// kind `k` have the ids from `first_state_id(k)` on, in the order of the kind's
/// state list: the state with id `first_state_id(k) + j` belongs to kind `k` and
/// has the properties `state_group(k)[j]`.
pub proof fn law_state_at_id(k: int, j: int)
    requires
        0 <= k < BLOCK_COUNT,
        0 <= j < state_group(k).len(),
    ensures
        entries_of(BLOCK_COUNT as int).len() == first_state_id(BLOCK_COUNT as int),
        first_state_id(k) + j < first_state_id(BLOCK_COUNT as int),
        entries_of(BLOCK_COUNT as int)[first_state_id(k) + j].number() == k,
        entries_of(BLOCK_COUNT as int)[first_state_id(k) + j].props() == state_group(k)[j],
{
    lemma_entries_len(BLOCK_COUNT as int);
    lemma_entry_at(BLOCK_COUNT as int, k, j);
}

proof fn lemma_entries_len(m: int)
    requires
        m >= 0,
    ensures
        entries_of(m).len() == first_state_id(m),
    decreases m,
{
    if m > 0 {
        lemma_entries_len(m - 1);
    }
}

proof fn lemma_entry_at(m: int, k: int, j: int)
    requires
        0 <= k < m <= BLOCK_COUNT,
        0 <= j < state_group(k).len(),
    ensures
        first_state_id(k) + j < entries_of(m).len(),
        entries_of(m)[first_state_id(k) + j] == (BlockStateEntry { block_number: k as usize, properties: state_group(k)[j] }),
    decreases m,
{
    lemma_entries_len(m - 1);
    lemma_entries_len(k);
    let prev = entries_of(m - 1);
    let tail = state_group(m - 1).map_values(
        |t: BlockType| BlockStateEntry { block_number: (m - 1) as usize, properties: t },
    );
    assert(entries_of(m) == prev + tail);
    if k < m - 1 {
        lemma_entry_at(m - 1, k, j);
    } else {
        assert(entries_of(m)[first_state_id(k) + j] == tail[j]);
    }
}

/// The number of states that property value lists of the given sizes make, as
/// they are folded: the first non-empty count starts the product, and a count
/// of zero starts it over at the next size.
pub open spec fn folded_state_count(sizes: Seq<usize>) -> int
    decreases sizes.len(),
{
    if sizes.len() == 0 {
        0
    } else {
        let before = folded_state_count(sizes.drop_last());
        if before == 0 {
            sizes.last() as int
        } else {
            before * sizes.last()
        }
    }
}

/// The number of states of a block from the description of its properties:
/// `None` where the block has no properties (one state), otherwise the sizes of
/// the value lists of its properties.
pub open spec fn spec_states_len(properties: Option<Seq<usize>>) -> int {
    match properties {
        None => 1,
        Some(sizes) => folded_state_count(sizes),
    }
}

/// The running count stays within `usize` at every step.
pub open spec fn state_count_fits(sizes: Seq<usize>) -> bool {
    forall|k: int| 0 <= k <= sizes.len() ==> #[trigger] folded_state_count(sizes.take(k)) <= usize::MAX
}

/// The number of states of a block, from the sizes of the value lists of its
/// properties (`None` where it has none).
pub fn calculate_states_len(properties: &Option<Vec<usize>>) -> (n: usize)
    requires
        properties matches Some(v) ==> state_count_fits(v@),
    ensures
        n == spec_states_len(
            match properties {
                Some(v) => Some(v@),
                None => None,
            },
        ),
{
    match properties {
        None => 1,
        Some(sizes) => {
            let mut ids: usize = 0;
            let mut i: usize = 0;
            while i < sizes.len()
                invariant
                    i <= sizes.len(),
                    state_count_fits(sizes@),
                    ids == folded_state_count(sizes@.take(i as int)),
                decreases sizes.len() - i,
            {
                let size = sizes[i];
                assert(sizes@.take(i + 1).drop_last() =~= sizes@.take(i as int));
                assert(folded_state_count(sizes@.take(i + 1)) <= usize::MAX);
                if ids == 0 {
                    ids = size;
                } else {
                    ids = ids * size;
                }
                i = i + 1;
            }
            assert(sizes@.take(sizes.len() as int) =~= sizes@);
            ids
        },
    }
}

/// The product of the sizes.
pub open spec fn product(sizes: Seq<usize>) -> int
    decreases sizes.len(),
{
    if sizes.len() == 0 {
        1
    } else {
        product(sizes.drop_last()) * sizes.last()
    }
}

/// Law: where every property has at least one value, the number of states is the
/// product of the numbers of values.
pub proof fn law_states_len_is_product(sizes: Seq<usize>)
    requires
        sizes.len() > 0,
        forall|i: int| 0 <= i < sizes.len() ==> sizes[i] >= 1,
    ensures
        folded_state_count(sizes) == product(sizes),
    decreases sizes.len(),
{
    let front = sizes.drop_last();
    assert forall|i: int| 0 <= i < front.len() implies front[i] >= 1 by {
        assert(front[i] == sizes[i]);
    }
    if sizes.len() == 1 {
        assert(folded_state_count(front) == 0);
        assert(product(front) == 1);
    } else {
        law_states_len_is_product(front);
        lemma_product_positive(front);
    }
}

proof fn lemma_product_positive(sizes: Seq<usize>)
    requires
        forall|i: int| 0 <= i < sizes.len() ==> sizes[i] >= 1,
    ensures
        product(sizes) >= 1,
    decreases sizes.len(),
{
    if sizes.len() > 0 {
        let front = sizes.drop_last();
        assert forall|i: int| 0 <= i < front.len() implies front[i] >= 1 by {
            assert(front[i] == sizes[i]);
        }
        lemma_product_positive(front);
        let p = product(sizes.drop_last());
        let x = sizes.last() as int;
        assert(p * x >= 1) by (nonlinear_arith)
            requires
                p >= 1,
                x >= 1,
        ;
    }
}

} // verus!
