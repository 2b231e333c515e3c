//! Flower pots: a pot that holds a plant, gives the plant back when used
//! with an empty hand, and, holding an eyeblossom, turns it on random
//! ticks.

use vstd::prelude::*;
use crate::registry::{
    Block, BlockRef, BlockStateId, Direction, GameEvent, InteractionResult, ItemStack,
    PathComputationType,
};
use crate::vanilla_blocks::{
    air, flower_pot, open_eyeblossom, potted_closed_eyeblossom, potted_open_eyeblossom, spec_air,
    spec_flower_pot, spec_open_eyeblossom, spec_potted_closed_eyeblossom,
    spec_potted_open_eyeblossom,
};

verus! {

/// What emptying a pot does: the plant goes to the player (or is dropped
/// where the inventory has no room, as `FlowerPotBlock::plant_to_drop`
/// says), the pot becomes an empty flower pot, and the world is told of the
/// change.
#[derive(Clone, Copy, Debug, PartialEq, Eq, Structural)]
pub struct PotEmptied {
    pub plant: ItemStack,
    pub new_state: BlockStateId,
    pub event: GameEvent,
}

/// The behaviour of a flower pot block, empty or holding `potted`.
pub struct FlowerPotBlock {
    pub block: BlockRef,
    pub potted: BlockRef,
}

/// The state that a potted eyeblossom turns into: the other potted
/// eyeblossom; any other state stays.
pub open spec fn spec_opposite(state: BlockStateId) -> BlockStateId {
    if state.block == spec_potted_open_eyeblossom() {
        spec_potted_closed_eyeblossom().spec_default_state()
    } else if state.block == spec_potted_closed_eyeblossom() {
        spec_potted_open_eyeblossom().spec_default_state()
    } else {
        state
    }
}

impl FlowerPotBlock {
    /// Creates a new flower pot behaviour.
    pub fn new(block: BlockRef, potted: BlockRef) -> (r: Self)
        ensures
            r.block == block,
            r.potted == potted,
    {
        FlowerPotBlock { block, potted }
    }

    pub open spec fn spec_is_empty(&self) -> bool {
        self.potted == spec_air()
    }

    /// Whether the pot holds nothing.
    pub fn is_empty(&self) -> (r: bool)
        ensures
            r == self.spec_is_empty(),
            r == (self.potted == spec_air()),
    {
        self.potted == air()
    }

    /// The state that a potted eyeblossom turns into.
    pub fn opposite(state: BlockStateId) -> (r: BlockStateId)
        ensures
            r == spec_opposite(state),
    {
        if state.get_block() == potted_open_eyeblossom() {
            return potted_closed_eyeblossom().default_state();
        }
        if state.get_block() == potted_closed_eyeblossom() {
            return potted_open_eyeblossom().default_state();
        }
        state
    }

    /// Used with an empty hand, an empty pot consumes the interaction and
    /// changes nothing; a filled pot gives its plant back and becomes an
    /// empty flower pot.
    pub fn use_without_item(&self) -> (r: (InteractionResult, Option<PotEmptied>))
        ensures
            self.spec_is_empty() ==> r == (InteractionResult::Consume, None::<PotEmptied>),
            !self.spec_is_empty() ==> r == (
                InteractionResult::Success,
                Some(
                    PotEmptied {
                        plant: ItemStack { block: self.potted, count: 1 },
                        new_state: spec_flower_pot().spec_default_state(),
                        event: GameEvent::BlockChange,
                    },
                ),
            ),
    {
        if self.is_empty() {
            return (InteractionResult::Consume, None);
        }
        let plant = ItemStack::of_block(self.potted);
        let new_state = flower_pot().default_state();
        (
            InteractionResult::Success,
            Some(PotEmptied { plant, new_state, event: GameEvent::BlockChange }),
        )
    }

    /// What becomes of the plant handed back by `use_without_item` once it
    /// was offered to the player's inventory: `plant_left` is the stack as
    /// the inventory left it, and `added` whether the inventory took it. A
    /// plant that was taken is not dropped; one that was not is dropped, as
    /// it was left, so it is never both kept and dropped, nor lost.
    pub fn plant_to_drop(plant_left: ItemStack, added: bool) -> (r: Option<ItemStack>)
        ensures
            added ==> r == None::<ItemStack>,
            !added ==> r == Some(plant_left),
    {
        if !added {
            Some(plant_left)
        } else {
            None
        }
    }

    /// The item that picking the block gives: the pot (`block`) when
    /// empty, the plant otherwise.
    pub fn get_clone_item_stack(
        &self,
        block: BlockRef,
        state: BlockStateId,
        include_data: bool,
    ) -> (r: Option<ItemStack>)
        ensures
            r == Some(
                ItemStack {
                    block: if self.spec_is_empty() {
                        block
                    } else {
                        self.potted
                    },
                    count: 1,
                },
            ),
    {
        if self.is_empty() {
            return Some(ItemStack::of_block(block));
        }
        Some(ItemStack::of_block(self.potted))
    }

    /// After a neighbour changes in `direction`: a pot whose support below
    /// is gone (`survives` false) turns to air; otherwise it stays.
    pub fn update_shape(&self, state: BlockStateId, direction: Direction, survives: bool) -> (r:
        BlockStateId)
        ensures
            r == (if direction == Direction::Down && !survives {
                spec_air().spec_default_state()
            } else {
                state
            }),
    {
        if direction == Direction::Down && !survives {
            return air().default_state();
        }
        state
    }

    /// Mobs never path through a flower pot.
    pub fn is_pathfindable(&self, state: BlockStateId, computation_type: PathComputationType) -> (r:
        bool)
        ensures
            !r,
    {
        false
    }

    /// On a random tick, a randomly ticking pot that holds an open
    /// eyeblossom turns into its opposite; every other pot stays. The
    /// eyeblossom is taken to be in its open season, so a pot holding a
    /// closed eyeblossom never turns.
    pub fn random_tick(&self, state: BlockStateId) -> (r: Option<BlockStateId>)
        ensures
            r == (if self.block.randomly_ticking && self.potted == spec_open_eyeblossom() {
                Some(spec_opposite(state))
            } else {
                None::<BlockStateId>
            }),
    {
        if self.block.randomly_ticking {
            let is_open = self.potted == open_eyeblossom();
            let should_be_open = true;
            if !is_open != should_be_open {
                return Some(Self::opposite(state));
            }
        }
        None
    }
}

/// A potted eyeblossom in its default state turns back into itself after
/// two turns; every other state is left as it is.
pub proof fn lemma_opposite_is_involution(state: BlockStateId)
    ensures
        (state.block == spec_potted_open_eyeblossom() || state.block
            == spec_potted_closed_eyeblossom()) && state == state.block.spec_default_state()
            ==> spec_opposite(spec_opposite(state)) == state,
        !(state.block == spec_potted_open_eyeblossom() || state.block
            == spec_potted_closed_eyeblossom()) ==> spec_opposite(state) == state,
{
}

/// A pot is empty exactly when it holds air: a pot holding any other
/// block gives that block back when used with an empty hand, and picking
/// it gives that block.
pub proof fn lemma_pot_empty_exactly_when_holding_air(pot: FlowerPotBlock)
    ensures
        pot.spec_is_empty() <==> pot.potted == spec_air(),
        pot.potted.block != Block::Air ==> !pot.spec_is_empty(),
{
}

} // verus!
