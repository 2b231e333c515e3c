//! What the block behaviours read of a world: the block state at each
//! position and the range of heights that can hold blocks.

use vstd::prelude::*;
use crate::registry::{BlockPos, BlockStateId};
use crate::vanilla_blocks::{air, spec_air};

verus! {

/// The map that a list of writes leaves behind: a later write to a
/// position replaces an earlier one.
pub open spec fn map_of(writes: Seq<(BlockPos, BlockStateId)>) -> Map<BlockPos, BlockStateId>
    decreases writes.len(),
{
    if writes.len() == 0 {
        Map::empty()
    } else {
        map_of(writes.drop_last()).insert(writes.last().0, writes.last().1)
    }
}

/// A view of a world: the blocks that were placed in it, air everywhere
/// else, and its build height range `min_y .. min_y + height`.
pub struct Level {
    writes: Vec<(BlockPos, BlockStateId)>,
    min_y: i32,
    height: i32,
}

impl View for Level {
    type V = Map<BlockPos, BlockStateId>;

    closed spec fn view(&self) -> Map<BlockPos, BlockStateId> {
        map_of(self.writes@)
    }
}

impl Level {
    /// The lowest height that can hold blocks.
    pub closed spec fn spec_min_y(&self) -> int {
        self.min_y as int
    }

    /// The number of heights that can hold blocks.
    pub closed spec fn spec_height(&self) -> int {
        self.height as int
    }

    /// The block state that the level holds at `pos`.
    pub open spec fn spec_block_state(&self, pos: BlockPos) -> BlockStateId {
        if self@.dom().contains(pos) {
            self@[pos]
        } else {
            spec_air().spec_default_state()
        }
    }

    pub open spec fn spec_is_outside_build_height(&self, y: int) -> bool {
        y < self.spec_min_y() || y >= self.spec_min_y() + self.spec_height()
    }

    /// A level of air, with the given build height range.
    pub fn new(min_y: i32, height: i32) -> (r: Level)
        ensures
            r@ == Map::<BlockPos, BlockStateId>::empty(),
            r.spec_min_y() == min_y,
            r.spec_height() == height,
    {
        Level { writes: Vec::new(), min_y, height }
    }

    /// The same level with `state` placed at `pos`.
    pub fn with_block(self, pos: BlockPos, state: BlockStateId) -> (r: Level)
        ensures
            r@ == self@.insert(pos, state),
            r.spec_min_y() == self.spec_min_y(),
            r.spec_height() == self.spec_height(),
    {
        let mut writes = self.writes;
        let ghost before = writes@;
        writes.push((pos, state));
        proof {
            assert(writes@.drop_last() == before);
        }
        Level { writes, min_y: self.min_y, height: self.height }
    }

    /// The block state at `pos`: the last one placed there, air where
    /// none was.
    pub fn get_block_state(&self, pos: BlockPos) -> (r: BlockStateId)
        ensures
            r == self.spec_block_state(pos),
    {
        let mut i = self.writes.len();
        proof {
            assert(self.writes@.take(i as int) == self.writes@);
        }
        while i > 0
            invariant
                i <= self.writes.len(),
                map_of(self.writes@.take(i as int)).dom().contains(pos) == self@.dom().contains(
                    pos,
                ),
                map_of(self.writes@.take(i as int)).dom().contains(pos) ==> map_of(
                    self.writes@.take(i as int),
                )[pos] == self@[pos],
            decreases i,
        {
            let write = self.writes[i - 1];
            proof {
                assert(self.writes@.take(i as int).drop_last() == self.writes@.take(i - 1));
                assert(self.writes@.take(i as int).last() == write);
            }
            if write.0 == pos {
                return write.1;
            }
            i -= 1;
        }
        air().default_state()
    }

    /// Whether height `y` lies outside the range that can hold blocks.
    pub fn is_outside_build_height(&self, y: i32) -> (r: bool)
        ensures
            r == self.spec_is_outside_build_height(y as int),
    {
        let y: i64 = y as i64;
        y < self.min_y as i64 || y >= self.min_y as i64 + self.height as i64
    }
}

impl Default for Level {
    /// A level of air with the overworld's build height range.
    fn default() -> (r: Level)
        ensures
            r@ == Map::<BlockPos, BlockStateId>::empty(),
            r.spec_min_y() == -64,
            r.spec_height() == 384,
    {
        Level::new(-64, 384)
    }
}

/// What a block placement knows: the level, the position that the block
/// goes to, and whether that position holds a water source.
pub struct BlockPlaceContext<'a> {
    pub world: &'a Level,
    pub relative_pos: BlockPos,
    pub replacing_water_source: bool,
}

impl<'a> BlockPlaceContext<'a> {
    /// Whether the position that the block goes to holds a water source.
    pub fn is_water_source(&self) -> (r: bool)
        ensures
            r == self.replacing_water_source,
    {
        self.replacing_water_source
    }
}

/// Reading a position gives back the state last placed there, and placing
/// a state leaves every other position as it was.
pub proof fn lemma_read_after_write(
    before: Level,
    after: Level,
    pos: BlockPos,
    state: BlockStateId,
    other: BlockPos,
)
    requires
        after@ == before@.insert(pos, state),
    ensures
        after.spec_block_state(pos) == state,
        other != pos ==> after.spec_block_state(other) == before.spec_block_state(other),
{
}

/// A level that nothing was placed in holds air everywhere.
pub proof fn lemma_empty_level_is_air(level: Level, pos: BlockPos)
    requires
        level@ == Map::<BlockPos, BlockStateId>::empty(),
    ensures
        level.spec_block_state(pos) == spec_air().spec_default_state(),
{
}

} // verus!
