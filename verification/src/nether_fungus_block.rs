//! Nether fungi: survive on their supporting blocks, and grow into a huge
//! fungus when bone meal is used on them on the right nylium.

use vstd::prelude::*;
use rand::rngs::StdRng;
use crate::level::{BlockPlaceContext, Level};
use crate::random::random_u64;
use crate::registry::{BlockPos, BlockRef, BlockStateId, BlockTag, Direction};
use crate::vanilla_blocks::{air, spec_air};

verus! {

/// The settings of a huge fungus feature.
#[derive(Clone, Copy, Debug, PartialEq, Eq, Structural)]
pub struct HugeFungusConfig {
    pub valid_base_block: BlockRef,
    pub stem_state: BlockStateId,
    pub hat_state: BlockStateId,
    pub decor_state: BlockStateId,
    pub planted: bool,
}

/// The kind of a configured world generation feature.
#[derive(Clone, Copy, Debug, PartialEq, Eq, Structural)]
pub enum ConfiguredFeatureKind {
    HugeFungus(HugeFungusConfig),
    Other(u32),
}

/// A world generation feature with its settings.
#[derive(Clone, Copy, Debug, PartialEq, Eq, Structural)]
pub struct ConfiguredFeature {
    pub kind: ConfiguredFeatureKind,
}

/// A huge fungus to place: the seed of the world generation random
/// source that places it, its settings, and the position it grows from.
#[derive(Clone, Copy, Debug, PartialEq, Eq, Structural)]
pub struct HugeFungusPlacement {
    pub seed: u64,
    pub config: HugeFungusConfig,
    pub pos: BlockPos,
}

/// The behaviour of a nether fungus block: the huge fungus `feature` it
/// grows into, the block it must stand on to grow (`required_block`), and
/// the tag of the blocks it survives on (`support_blocks`).
pub struct NetherFungusBlock {
    pub block: BlockRef,
    pub feature: ConfiguredFeature,
    pub required_block: BlockRef,
    pub support_blocks: BlockTag,
}

impl NetherFungusBlock {
    /// Creates a new nether fungus block behaviour.
    pub fn new(
        block: BlockRef,
        feature: ConfiguredFeature,
        required_block: BlockRef,
        support_blocks: BlockTag,
    ) -> (r: Self)
        ensures
            r.block == block,
            r.feature == feature,
            r.required_block == required_block,
            r.support_blocks == support_blocks,
    {
        NetherFungusBlock { block, feature, required_block, support_blocks }
    }

    pub open spec fn spec_below(level: Level, pos: BlockPos) -> BlockStateId {
        level.spec_block_state(BlockPos { y: (pos.y - 1) as i32, ..pos })
    }

    pub open spec fn spec_can_survive(&self, level: Level, pos: BlockPos) -> bool {
        Self::spec_below(level, pos).block.spec_has_tag(self.support_blocks)
    }

    /// A fungus survives on a block of its support tag.
    pub fn can_survive(&self, state: BlockStateId, world: &Level, pos: BlockPos) -> (r: bool)
        requires
            pos.y > i32::MIN,
        ensures
            r == self.spec_can_survive(*world, pos),
    {
        world.get_block_state(pos.below()).get_block().has_tag(self.support_blocks)
    }

    /// After a neighbour changes, a fungus that no longer survives turns to
    /// air; otherwise it stays.
    pub fn update_shape(
        &self,
        state: BlockStateId,
        world: &Level,
        pos: BlockPos,
        direction: Direction,
    ) -> (r: BlockStateId)
        requires
            pos.y > i32::MIN,
        ensures
            r == (if self.spec_can_survive(*world, pos) {
                state
            } else {
                spec_air().spec_default_state()
            }),
    {
        if !self.can_survive(state, world, pos) {
            return air().default_state();
        }
        state
    }

    /// The state placed: the block's default state where it survives,
    /// nothing where it does not.
    pub fn get_state_for_placement(&self, context: &BlockPlaceContext) -> (r: Option<
        BlockStateId,
    >)
        requires
            context.relative_pos.y > i32::MIN,
        ensures
            r == (if self.spec_can_survive(*context.world, context.relative_pos) {
                Some(self.block.spec_default_state())
            } else {
                None::<BlockStateId>
            }),
    {
        let state = self.block.default_state();
        if self.can_survive(state, context.world, context.relative_pos) {
            Some(state)
        } else {
            None
        }
    }

    /// A fungus takes bone meal.
    pub fn as_bonemealable(&self) -> (r: Option<&Self>)
        ensures
            r == Some(self),
    {
        Some(self)
    }

    pub open spec fn spec_is_valid_bonemeal_target(&self, level: Level, pos: BlockPos) -> bool {
        &&& Self::spec_below(level, pos).block == self.required_block
        &&& !level.spec_is_outside_build_height(pos.y + 1)
    }

    /// Bone meal can grow a fungus that stands on its required block and
    /// whose position above lies within the build height.
    pub fn is_valid_bonemeal_target(&self, state: BlockStateId, world: &Level, pos: BlockPos) -> (r:
        bool)
        requires
            i32::MIN < pos.y < i32::MAX,
        ensures
            r == self.spec_is_valid_bonemeal_target(*world, pos),
    {
        let below_state = world.get_block_state(pos.below());
        below_state.get_block() == self.required_block && !world.is_outside_build_height(
            pos.above().y,
        )
    }

    pub open spec fn spec_bonemeal_placement(&self, seed: u64, pos: BlockPos) -> Option<
        HugeFungusPlacement,
    > {
        match self.feature.kind {
            ConfiguredFeatureKind::HugeFungus(config) => Some(
                HugeFungusPlacement { seed, config, pos },
            ),
            ConfiguredFeatureKind::Other(_) => None,
        }
    }

    /// What bone meal grows at `pos` from the world generation seed
    /// `seed`: the huge fungus of the fungus's feature, nothing for a
    /// feature of another kind.
    pub fn bonemeal_placement(&self, seed: u64, pos: BlockPos) -> (r: Option<HugeFungusPlacement>)
        ensures
            r == self.spec_bonemeal_placement(seed, pos),
            self.feature.kind matches ConfiguredFeatureKind::HugeFungus(config) ==> r == Some(
                HugeFungusPlacement { seed, config, pos },
            ),
            self.feature.kind is Other ==> r is None,
    {
        match self.feature.kind {
            ConfiguredFeatureKind::HugeFungus(config) => Some(
                HugeFungusPlacement { seed, config, pos },
            ),
            ConfiguredFeatureKind::Other(_) => None,
        }
    }

    /// Bone meal draws a seed from `rng` for a world generation random
    /// source, and grows what `bonemeal_placement` says for that seed. The
    /// seed is drawn whatever the feature is.
    pub fn perform_bonemeal(&self, rng: &mut StdRng, pos: BlockPos) -> (r: Option<
        HugeFungusPlacement,
    >)
        ensures
            r is Some <==> self.feature.kind is HugeFungus,
            r matches Some(placement) ==> r == self.spec_bonemeal_placement(placement.seed, pos),
            self.feature.kind matches ConfiguredFeatureKind::HugeFungus(config) ==> r matches Some(
                placement,
            ) && placement.config == config && placement.pos == pos,
    {
        let seed = random_u64(rng);
        self.bonemeal_placement(seed, pos)
    }
}

/// Bone meal grows the configured huge fungus exactly as configured, at
/// the fungus's position, from the seed drawn; a feature of another kind
/// grows nothing.
pub proof fn lemma_bonemeal_grows_configured_fungus(
    fungus: NetherFungusBlock,
    seed: u64,
    pos: BlockPos,
)
    ensures
        fungus.feature.kind matches ConfiguredFeatureKind::HugeFungus(config)
            ==> fungus.spec_bonemeal_placement(seed, pos) == Some(
            HugeFungusPlacement { seed, config, pos },
        ),
        fungus.feature.kind is Other ==> fungus.spec_bonemeal_placement(seed, pos) is None,
{
}

/// A fungus survives exactly where the block below it carries its
/// support tag, whatever that block is.
pub proof fn lemma_fungus_survives_on_support_tag(
    fungus: NetherFungusBlock,
    level: Level,
    pos: BlockPos,
)
    ensures
        fungus.spec_can_survive(level, pos) == level.spec_block_state(
            BlockPos { y: (pos.y - 1) as i32, ..pos },
        ).block.tags.spec_contains(fungus.support_blocks),
{
}

} // verus!
