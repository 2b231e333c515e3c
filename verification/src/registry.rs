//! Registry data that the block behaviours read: blocks, their tags,
//! block states with the properties in use, positions, and the small
//! enumerations (directions, sounds, effects, results) that behaviours
//! hand back.

use vstd::prelude::*;

verus! {

/// A block of the registry, by name. Blocks that no behaviour here names
/// are told apart by their registry number.
#[derive(Clone, Copy, Debug, PartialEq, Eq, Structural)]
pub enum Block {
    Air,
    Dirt,
    FlowerPot,
    OpenEyeblossom,
    ClosedEyeblossom,
    PottedOpenEyeblossom,
    PottedClosedEyeblossom,
    BigDripleaf,
    BigDripleafStem,
    CrimsonFungus,
    WarpedFungus,
    CrimsonNylium,
    WarpedNylium,
    Other(u32),
}

/// A block tag of the registry.
#[derive(Clone, Copy, Debug, PartialEq, Eq, Structural)]
pub enum BlockTag {
    SupportsVegetation,
    SupportsBigDripleaf,
    SupportsCrimsonFungus,
    SupportsWarpedFungus,
}

/// The tags that a block belongs to.
#[derive(Clone, Copy, Debug, PartialEq, Eq, Structural)]
pub struct TagSet {
    pub supports_vegetation: bool,
    pub supports_big_dripleaf: bool,
    pub supports_crimson_fungus: bool,
    pub supports_warped_fungus: bool,
}

impl TagSet {
    /// The set of no tag.
    pub fn none() -> (r: TagSet)
        ensures
            !r.supports_vegetation,
            !r.supports_big_dripleaf,
            !r.supports_crimson_fungus,
            !r.supports_warped_fungus,
    {
        TagSet {
            supports_vegetation: false,
            supports_big_dripleaf: false,
            supports_crimson_fungus: false,
            supports_warped_fungus: false,
        }
    }

    pub open spec fn spec_contains(self, tag: BlockTag) -> bool {
        match tag {
            BlockTag::SupportsVegetation => self.supports_vegetation,
            BlockTag::SupportsBigDripleaf => self.supports_big_dripleaf,
            BlockTag::SupportsCrimsonFungus => self.supports_crimson_fungus,
            BlockTag::SupportsWarpedFungus => self.supports_warped_fungus,
        }
    }

    /// Whether `tag` is one of the tags.
    pub fn contains(&self, tag: BlockTag) -> (r: bool)
        ensures
            r == self.spec_contains(tag),
    {
        match tag {
            BlockTag::SupportsVegetation => self.supports_vegetation,
            BlockTag::SupportsBigDripleaf => self.supports_big_dripleaf,
            BlockTag::SupportsCrimsonFungus => self.supports_crimson_fungus,
            BlockTag::SupportsWarpedFungus => self.supports_warped_fungus,
        }
    }
}

/// A registered block: which block it is, whether it receives random
/// ticks, and the tags it belongs to.
#[derive(Clone, Copy, Debug, PartialEq, Eq, Structural)]
pub struct BlockRef {
    pub block: Block,
    pub randomly_ticking: bool,
    pub tags: TagSet,
}

impl BlockRef {
    pub open spec fn spec_has_tag(self, tag: BlockTag) -> bool {
        self.tags.spec_contains(tag)
    }

    /// Whether the block belongs to `tag`.
    pub fn has_tag(&self, tag: BlockTag) -> (r: bool)
        ensures
            r == self.spec_has_tag(tag),
    {
        self.tags.contains(tag)
    }

    pub open spec fn spec_default_state(self) -> BlockStateId {
        BlockStateId { block: self, tilt: Tilt::NoTilt, waterlogged: false }
    }

    /// The block's default state: every property at its default value.
    pub fn default_state(&self) -> (r: BlockStateId)
        ensures
            r == self.spec_default_state(),
    {
        BlockStateId { block: *self, tilt: Tilt::NoTilt, waterlogged: false }
    }
}

/// The tilt of a big dripleaf.
#[derive(Clone, Copy, Debug, PartialEq, Eq, Structural)]
pub enum Tilt {
    NoTilt,
    Unstable,
    Partial,
    Full,
}

/// A block state: the block and the values of the properties that the
/// behaviours here read or write. A block that lacks a property holds
/// its default value (`Tilt::NoTilt`, not waterlogged).
#[derive(Clone, Copy, Debug, PartialEq, Eq, Structural)]
pub struct BlockStateId {
    pub block: BlockRef,
    pub tilt: Tilt,
    pub waterlogged: bool,
}

impl BlockStateId {
    /// The block of the state.
    pub fn get_block(&self) -> (r: BlockRef)
        ensures
            r == self.block,
    {
        self.block
    }

    /// The value of the tilt property.
    pub fn get_tilt(&self) -> (r: Tilt)
        ensures
            r == self.tilt,
    {
        self.tilt
    }

    /// The same state with the tilt property set to `tilt`.
    pub fn set_tilt(&self, tilt: Tilt) -> (r: BlockStateId)
        ensures
            r == (BlockStateId { tilt, ..*self }),
    {
        BlockStateId { block: self.block, tilt, waterlogged: self.waterlogged }
    }

    /// The same state with the waterlogged property set to `waterlogged`.
    pub fn set_waterlogged(&self, waterlogged: bool) -> (r: BlockStateId)
        ensures
            r == (BlockStateId { waterlogged, ..*self }),
    {
        BlockStateId { block: self.block, tilt: self.tilt, waterlogged }
    }
}

/// A block position.
#[derive(Clone, Copy, Debug, PartialEq, Eq, Structural)]
pub struct BlockPos {
    pub x: i32,
    pub y: i32,
    pub z: i32,
}

impl BlockPos {
    pub fn new(x: i32, y: i32, z: i32) -> (r: BlockPos)
        ensures
            r == (BlockPos { x, y, z }),
    {
        BlockPos { x, y, z }
    }

    /// The position one block lower.
    pub fn below(&self) -> (r: BlockPos)
        requires
            self.y > i32::MIN,
        ensures
            r == (BlockPos { y: (self.y - 1) as i32, ..*self }),
    {
        BlockPos { x: self.x, y: self.y - 1, z: self.z }
    }

    /// The position one block higher.
    pub fn above(&self) -> (r: BlockPos)
        requires
            self.y < i32::MAX,
        ensures
            r == (BlockPos { y: (self.y + 1) as i32, ..*self }),
    {
        BlockPos { x: self.x, y: self.y + 1, z: self.z }
    }

    /// The position moved by the given offsets.
    pub fn offset(&self, dx: i32, dy: i32, dz: i32) -> (r: BlockPos)
        requires
            i32::MIN <= self.x + dx <= i32::MAX,
            i32::MIN <= self.y + dy <= i32::MAX,
            i32::MIN <= self.z + dz <= i32::MAX,
        ensures
            r.x == self.x + dx,
            r.y == self.y + dy,
            r.z == self.z + dz,
    {
        BlockPos { x: self.x + dx, y: self.y + dy, z: self.z + dz }
    }

    pub open spec fn spec_dist_sqr(self, other: BlockPos) -> int {
        (self.x - other.x) * (self.x - other.x) + (self.y - other.y) * (self.y - other.y) + (
        self.z - other.z) * (self.z - other.z)
    }

    /// The square of the distance between the two positions.
    pub fn dist_sqr(&self, other: &BlockPos) -> (r: i128)
        ensures
            r == self.spec_dist_sqr(*other),
    {
        let dx: i128 = self.x as i128 - other.x as i128;
        let dy: i128 = self.y as i128 - other.y as i128;
        let dz: i128 = self.z as i128 - other.z as i128;
        assert(dx * dx <= 0x1_0000_0000_0000_0000) by (nonlinear_arith)
            requires
                -0x1_0000_0000 <= dx <= 0x1_0000_0000,
        ;
        assert(dy * dy <= 0x1_0000_0000_0000_0000) by (nonlinear_arith)
            requires
                -0x1_0000_0000 <= dy <= 0x1_0000_0000,
        ;
        assert(dz * dz <= 0x1_0000_0000_0000_0000) by (nonlinear_arith)
            requires
                -0x1_0000_0000 <= dz <= 0x1_0000_0000,
        ;
        assert(dx * dx >= 0 && dy * dy >= 0 && dz * dz >= 0) by (nonlinear_arith);
        dx * dx + dy * dy + dz * dz
    }
}

/// One of the six directions.
#[derive(Clone, Copy, Debug, PartialEq, Eq, Structural)]
pub enum Direction {
    Down,
    Up,
    North,
    South,
    West,
    East,
}

/// A sound event.
#[derive(Clone, Copy, Debug, PartialEq, Eq, Structural)]
pub enum SoundEvent {
    BigDripleafTiltDown,
    BigDripleafTiltUp,
    EyeblossomOpenLong,
    EyeblossomCloseLong,
    EyeblossomOpen,
    EyeblossomClose,
}

/// A mob effect.
#[derive(Clone, Copy, Debug, PartialEq, Eq, Structural)]
pub enum MobEffect {
    Blindness,
    Nausea,
}

/// A game event that the world is told of.
#[derive(Clone, Copy, Debug, PartialEq, Eq, Structural)]
pub enum GameEvent {
    BlockChange,
}

/// The answer of a block to an interaction.
#[derive(Clone, Copy, Debug, PartialEq, Eq, Structural)]
pub enum InteractionResult {
    Success,
    Consume,
    Pass,
}

/// A stack of items, each the item of `block`.
#[derive(Clone, Copy, Debug, PartialEq, Eq, Structural)]
pub struct ItemStack {
    pub block: BlockRef,
    pub count: u32,
}

impl ItemStack {
    /// A stack of one item of the given block.
    pub fn of_block(block: BlockRef) -> (r: ItemStack)
        ensures
            r == (ItemStack { block, count: 1 }),
    {
        ItemStack { block, count: 1 }
    }
}

/// The order in which ticks scheduled for the same game tick run.
#[derive(Clone, Copy, Debug, PartialEq, Eq, Structural)]
pub enum TickPriority {
    ExtremelyHigh,
    VeryHigh,
    High,
    Normal,
    Low,
    VeryLow,
    ExtremelyLow,
}

/// A tick that the world is asked to schedule: `block` at `pos`, after
/// `delay` game ticks, with `priority`.
#[derive(Clone, Copy, Debug, PartialEq, Eq, Structural)]
pub struct ScheduledTick {
    pub pos: BlockPos,
    pub block: BlockRef,
    pub delay: i32,
    pub priority: TickPriority,
}

/// The kind of path that a path search looks for.
#[derive(Clone, Copy, Debug, PartialEq, Eq, Structural)]
pub enum PathComputationType {
    Land,
    Water,
    Air,
}

/// A three-valued setting: on, off, or the caller's default.
#[derive(Clone, Copy, Debug, PartialEq, Eq, Structural)]
pub enum TriState {
    True,
    False,
    Default,
}

impl TriState {
    pub open spec fn spec_to_boolean(self, default: bool) -> bool {
        match self {
            TriState::True => true,
            TriState::False => false,
            TriState::Default => default,
        }
    }

    /// The setting as a boolean, `default` where it is left to the caller.
    pub fn to_boolean(&self, default: bool) -> (r: bool)
        ensures
            r == self.spec_to_boolean(default),
    {
        match self {
            TriState::True => true,
            TriState::False => false,
            TriState::Default => default,
        }
    }
}

} // verus!
