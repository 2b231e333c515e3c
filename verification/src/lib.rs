//! Behaviour of a few vanilla blocks: flower pots, big dripleaves,
//! eyeblossoms and nether fungi.
//!
//! Each behaviour is written as a function from what the world shows to
//! what the block does: a new block state, a sound, an item, a tick to
//! schedule.  Block registry data and the parts of a world that the
//! behaviours read are modelled in `registry`, `vanilla_blocks` and
//! `level`.

pub mod registry;
pub mod vanilla_blocks;
pub mod level;
mod random;
pub mod eyeblossom_block;
pub mod big_dripleaf_block;
pub mod flower_pot_block;
pub mod nether_fungus_block;
