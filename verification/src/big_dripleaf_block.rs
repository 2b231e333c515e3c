//! Big dripleaves: leaves that tilt down under an entity standing on
//! them, step by step, and spring back up.

use vstd::prelude::*;
use crate::level::{BlockPlaceContext, Level};
use crate::registry::{
    BlockPos, BlockRef, BlockStateId, BlockTag, ScheduledTick, SoundEvent, Tilt, TickPriority,
};
use crate::vanilla_blocks::{big_dripleaf_stem, spec_big_dripleaf_stem};

verus! {

/// What a big dripleaf does when its tilt changes: the state it takes,
/// the sound it plays, and the tick it schedules for itself.
#[derive(Clone, Copy, Debug, PartialEq, Eq, Structural)]
pub struct TiltChange {
    pub new_state: BlockStateId,
    pub sound: Option<SoundEvent>,
    pub tick: Option<ScheduledTick>,
}

/// The number of game ticks that a leaf stays at `tilt` before it moves
/// on; a leaf without tilt stays.
pub open spec fn spec_tick_delay(tilt: Tilt) -> Option<i32> {
    match tilt {
        Tilt::NoTilt => None,
        Tilt::Unstable | Tilt::Partial => Some(10i32),
        Tilt::Full => Some(100i32),
    }
}

/// The number of game ticks that a leaf stays at `tilt` before it moves
/// on, `None` for a leaf without tilt.
pub fn tick_delay(tilt: Tilt) -> (r: Option<i32>)
    ensures
        r == spec_tick_delay(tilt),
{
    match tilt {
        Tilt::NoTilt => None,
        Tilt::Unstable | Tilt::Partial => Some(10),
        Tilt::Full => Some(100),
    }
}

/// The behaviour of a big dripleaf block.
pub struct BigDripleafBlock {
    pub block: BlockRef,
}

impl BigDripleafBlock {
    /// Creates a new big dripleaf block behaviour.
    pub fn new(block: BlockRef) -> (r: Self)
        ensures
            r.block == block,
    {
        BigDripleafBlock { block }
    }

    pub open spec fn spec_set_tilt_and_schedule_tick(
        &self,
        state: BlockStateId,
        pos: BlockPos,
        tilt: Tilt,
        sound: Option<SoundEvent>,
    ) -> TiltChange {
        TiltChange {
            new_state: BlockStateId { tilt, ..state },
            sound,
            tick: match spec_tick_delay(tilt) {
                Some(delay) => Some(ScheduledTick { pos, block: self.block, delay, priority: TickPriority::Normal }),
                None => None,
            },
        }
    }

    pub open spec fn spec_reset_tilt(state: BlockStateId) -> TiltChange {
        TiltChange {
            new_state: BlockStateId { tilt: Tilt::NoTilt, ..state },
            sound: if state.tilt != Tilt::NoTilt {
                Some(SoundEvent::BigDripleafTiltUp)
            } else {
                None
            },
            tick: None,
        }
    }

    pub open spec fn spec_tick(&self, state: BlockStateId, pos: BlockPos) -> Option<TiltChange> {
        match state.tilt {
            Tilt::Unstable => Some(
                self.spec_set_tilt_and_schedule_tick(
                    state,
                    pos,
                    Tilt::Partial,
                    Some(SoundEvent::BigDripleafTiltDown),
                ),
            ),
            Tilt::Partial => Some(
                self.spec_set_tilt_and_schedule_tick(
                    state,
                    pos,
                    Tilt::Full,
                    Some(SoundEvent::BigDripleafTiltDown),
                ),
            ),
            Tilt::Full => Some(Self::spec_reset_tilt(state)),
            Tilt::NoTilt => None,
        }
    }

    pub open spec fn spec_entity_inside(
        &self,
        state: BlockStateId,
        pos: BlockPos,
        entity_can_tilt: bool,
    ) -> Option<TiltChange> {
        if state.tilt == Tilt::NoTilt && entity_can_tilt {
            Some(self.spec_set_tilt_and_schedule_tick(state, pos, Tilt::Unstable, None))
        } else {
            None
        }
    }

    pub open spec fn spec_can_survive(&self, level: Level, pos: BlockPos) -> bool {
        let below = level.spec_block_state(BlockPos { y: (pos.y - 1) as i32, ..pos }).block;
        ||| below == self.block
        ||| below == spec_big_dripleaf_stem()
        ||| below.spec_has_tag(BlockTag::SupportsBigDripleaf)
    }

    /// Sets the leaf to `tilt`, plays `sound` where there is one, and
    /// schedules the next step of a tilted leaf.
    pub fn set_tilt_and_schedule_tick(
        &self,
        state: BlockStateId,
        pos: &BlockPos,
        tilt: Tilt,
        sound: Option<SoundEvent>,
    ) -> (r: TiltChange)
        ensures
            r == self.spec_set_tilt_and_schedule_tick(state, *pos, tilt, sound),
    {
        let new_state = Self::set_tilt(state, tilt);
        let tick = match tick_delay(tilt) {
            Some(delay) => Some(ScheduledTick { pos: *pos, block: self.block, delay, priority: TickPriority::Normal }),
            None => None,
        };
        TiltChange { new_state, sound, tick }
    }

    /// The state with its tilt set to `new_tilt`.
    pub fn set_tilt(state: BlockStateId, new_tilt: Tilt) -> (r: BlockStateId)
        ensures
            r == (BlockStateId { tilt: new_tilt, ..state }),
    {
        state.set_tilt(new_tilt)
    }

    /// Sets the leaf back to no tilt, with the tilt-up sound where it was
    /// tilted.
    pub fn reset_tilt(state: BlockStateId) -> (r: TiltChange)
        ensures
            r == Self::spec_reset_tilt(state),
    {
        let new_state = Self::set_tilt(state, Tilt::NoTilt);
        let tilt = state.get_tilt();
        let sound = if tilt != Tilt::NoTilt {
            Some(SoundEvent::BigDripleafTiltUp)
        } else {
            None
        };
        TiltChange { new_state, sound, tick: None }
    }

    /// A big dripleaf survives on a big dripleaf of its kind, on a big
    /// dripleaf stem, or on a block that supports big dripleaves.
    pub fn can_survive(&self, state: BlockStateId, world: &Level, pos: BlockPos) -> (r: bool)
        requires
            pos.y > i32::MIN,
        ensures
            r == self.spec_can_survive(*world, pos),
    {
        let below = world.get_block_state(pos.below());
        let below_block = below.get_block();
        below_block == self.block || below_block == big_dripleaf_stem() || below_block.has_tag(
            BlockTag::SupportsBigDripleaf,
        )
    }

    /// The state placed: the default state, waterlogged where it replaces
    /// a water source, if the leaf survives there; nothing otherwise.
    pub fn get_state_for_placement(&self, context: &BlockPlaceContext) -> (r: Option<
        BlockStateId,
    >)
        requires
            context.relative_pos.y > i32::MIN,
        ensures
            r == (if self.spec_can_survive(*context.world, context.relative_pos) {
                Some(
                    BlockStateId {
                        waterlogged: context.replacing_water_source,
                        ..self.block.spec_default_state()
                    },
                )
            } else {
                None::<BlockStateId>
            }),
    {
        let state = self.block.default_state();
        if self.can_survive(state, context.world, context.relative_pos) {
            Some(state.set_waterlogged(context.is_water_source()))
        } else {
            None
        }
    }

    /// An entity inside a leaf without tilt starts to tilt it, where the
    /// entity can (`entity_can_tilt`: it stands on the ground, above the
    /// leaf's surface).
    pub fn entity_inside(&self, state: BlockStateId, pos: BlockPos, entity_can_tilt: bool) -> (r:
        Option<TiltChange>)
        ensures
            r == self.spec_entity_inside(state, pos, entity_can_tilt),
    {
        let tilt = state.get_tilt();
        if tilt == Tilt::NoTilt && entity_can_tilt {
            Some(self.set_tilt_and_schedule_tick(state, &pos, Tilt::Unstable, None))
        } else {
            None
        }
    }

    /// A scheduled tick moves a tilted leaf one step on: unstable to
    /// partial and partial to full, with the tilt-down sound, and full back
    /// to no tilt with the tilt-up sound. A leaf without tilt stays.
    pub fn tick(&self, state: BlockStateId, pos: BlockPos) -> (r: Option<TiltChange>)
        ensures
            r == self.spec_tick(state, pos),
    {
        let tilt = state.get_tilt();
        if tilt == Tilt::Unstable {
            Some(
                self.set_tilt_and_schedule_tick(
                    state,
                    &pos,
                    Tilt::Partial,
                    Some(SoundEvent::BigDripleafTiltDown),
                ),
            )
        } else if tilt == Tilt::Partial {
            Some(
                self.set_tilt_and_schedule_tick(
                    state,
                    &pos,
                    Tilt::Full,
                    Some(SoundEvent::BigDripleafTiltDown),
                ),
            )
        } else if tilt == Tilt::Full {
            Some(Self::reset_tilt(state))
        } else {
            None
        }
    }
}

/// A leaf that starts to tilt goes, one scheduled tick at a time, from
/// unstable to partial (after 10 ticks) to full (after 10 more) and back to
/// no tilt (after 100 more), playing the tilt-down sound twice and the
/// tilt-up sound once; then it rests until something tilts it again.
pub proof fn lemma_tilt_cycle(leaf: BigDripleafBlock, state: BlockStateId, pos: BlockPos)
    requires
        state.tilt == Tilt::Unstable,
    ensures
        ({
            let first = leaf.spec_tick(state, pos).unwrap();
            let second = leaf.spec_tick(first.new_state, pos).unwrap();
            let third = leaf.spec_tick(second.new_state, pos).unwrap();
            &&& leaf.spec_tick(state, pos) is Some
            &&& first.new_state == BlockStateId { tilt: Tilt::Partial, ..state }
            &&& first.sound == Some(SoundEvent::BigDripleafTiltDown)
            &&& first.tick == Some(ScheduledTick { pos, block: leaf.block, delay: 10, priority: TickPriority::Normal })
            &&& leaf.spec_tick(first.new_state, pos) is Some
            &&& second.new_state == BlockStateId { tilt: Tilt::Full, ..state }
            &&& second.sound == Some(SoundEvent::BigDripleafTiltDown)
            &&& second.tick == Some(ScheduledTick { pos, block: leaf.block, delay: 100, priority: TickPriority::Normal })
            &&& leaf.spec_tick(second.new_state, pos) is Some
            &&& third.new_state == BlockStateId { tilt: Tilt::NoTilt, ..state }
            &&& third.sound == Some(SoundEvent::BigDripleafTiltUp)
            &&& third.tick is None
            &&& leaf.spec_tick(third.new_state, pos) is None
        }),
{
}

/// A tick or an entity changes nothing of a leaf but its tilt, and a
/// leaf schedules a tick exactly when it is left tilted, for itself at its
/// own position.
pub proof fn lemma_changes_touch_only_tilt(
    leaf: BigDripleafBlock,
    state: BlockStateId,
    pos: BlockPos,
    entity_can_tilt: bool,
)
    ensures
        leaf.spec_tick(state, pos) matches Some(change) ==> {
            &&& change.new_state == BlockStateId { tilt: change.new_state.tilt, ..state }
            &&& (change.tick is Some <==> change.new_state.tilt != Tilt::NoTilt)
            &&& change.tick matches Some(t) ==> t.pos == pos && t.block == leaf.block
        },
        leaf.spec_entity_inside(state, pos, entity_can_tilt) matches Some(change) ==> {
            &&& state.tilt == Tilt::NoTilt
            &&& change.new_state == BlockStateId { tilt: Tilt::Unstable, ..state }
            &&& change.sound is None
            &&& change.tick == Some(ScheduledTick { pos, block: leaf.block, delay: 10, priority: TickPriority::Normal })
        },
{
}

/// A big dripleaf survives exactly on a big dripleaf of its own kind, on a
/// big dripleaf stem, or on a block in the tag of blocks that support big
/// dripleaves.
pub proof fn lemma_leaf_survival(leaf: BigDripleafBlock, level: Level, pos: BlockPos)
    ensures
        ({
            let below = level.spec_block_state(BlockPos { y: (pos.y - 1) as i32, ..pos }).block;
            leaf.spec_can_survive(level, pos) == (below == leaf.block || below == spec_big_dripleaf_stem()
                || below.tags.supports_big_dripleaf)
        }),
{
}

} // verus!
