//! The vanilla blocks that the behaviours name, with their registry data.

use vstd::prelude::*;
use crate::registry::{Block, BlockRef, TagSet};

verus! {

pub open spec fn spec_block(block: Block, randomly_ticking: bool, tags: TagSet) -> BlockRef {
    BlockRef { block, randomly_ticking, tags }
}

pub open spec fn no_tags() -> TagSet {
    TagSet {
        supports_vegetation: false,
        supports_big_dripleaf: false,
        supports_crimson_fungus: false,
        supports_warped_fungus: false,
    }
}

pub open spec fn spec_air() -> BlockRef {
    spec_block(Block::Air, false, no_tags())
}

pub open spec fn spec_dirt() -> BlockRef {
    spec_block(
        Block::Dirt,
        false,
        TagSet {
            supports_vegetation: true,
            supports_big_dripleaf: true,
            supports_crimson_fungus: true,
            supports_warped_fungus: true,
        },
    )
}

pub open spec fn spec_flower_pot() -> BlockRef {
    spec_block(Block::FlowerPot, false, no_tags())
}

pub open spec fn spec_open_eyeblossom() -> BlockRef {
    spec_block(Block::OpenEyeblossom, true, no_tags())
}

pub open spec fn spec_closed_eyeblossom() -> BlockRef {
    spec_block(Block::ClosedEyeblossom, true, no_tags())
}

pub open spec fn spec_potted_open_eyeblossom() -> BlockRef {
    spec_block(Block::PottedOpenEyeblossom, true, no_tags())
}

pub open spec fn spec_potted_closed_eyeblossom() -> BlockRef {
    spec_block(Block::PottedClosedEyeblossom, true, no_tags())
}

pub open spec fn spec_big_dripleaf() -> BlockRef {
    spec_block(Block::BigDripleaf, false, no_tags())
}

pub open spec fn spec_big_dripleaf_stem() -> BlockRef {
    spec_block(Block::BigDripleafStem, false, no_tags())
}

pub open spec fn spec_crimson_fungus() -> BlockRef {
    spec_block(Block::CrimsonFungus, false, no_tags())
}

pub open spec fn spec_warped_fungus() -> BlockRef {
    spec_block(Block::WarpedFungus, false, no_tags())
}

pub open spec fn spec_crimson_nylium() -> BlockRef {
    spec_block(
        Block::CrimsonNylium,
        true,
        TagSet {
            supports_vegetation: false,
            supports_big_dripleaf: false,
            supports_crimson_fungus: true,
            supports_warped_fungus: true,
        },
    )
}

pub open spec fn spec_warped_nylium() -> BlockRef {
    spec_block(
        Block::WarpedNylium,
        true,
        TagSet {
            supports_vegetation: false,
            supports_big_dripleaf: false,
            supports_crimson_fungus: true,
            supports_warped_fungus: true,
        },
    )
}

fn registered(block: Block, randomly_ticking: bool, tags: TagSet) -> (r: BlockRef)
    ensures
        r == spec_block(block, randomly_ticking, tags),
{
    BlockRef { block, randomly_ticking, tags }
}

pub fn air() -> (r: BlockRef)
    ensures
        r == spec_air(),
{
    registered(Block::Air, false, TagSet::none())
}

pub fn dirt() -> (r: BlockRef)
    ensures
        r == spec_dirt(),
{
    registered(
        Block::Dirt,
        false,
        TagSet {
            supports_vegetation: true,
            supports_big_dripleaf: true,
            supports_crimson_fungus: true,
            supports_warped_fungus: true,
        },
    )
}

pub fn flower_pot() -> (r: BlockRef)
    ensures
        r == spec_flower_pot(),
{
    registered(Block::FlowerPot, false, TagSet::none())
}

pub fn open_eyeblossom() -> (r: BlockRef)
    ensures
        r == spec_open_eyeblossom(),
{
    registered(Block::OpenEyeblossom, true, TagSet::none())
}

pub fn closed_eyeblossom() -> (r: BlockRef)
    ensures
        r == spec_closed_eyeblossom(),
{
    registered(Block::ClosedEyeblossom, true, TagSet::none())
}

pub fn potted_open_eyeblossom() -> (r: BlockRef)
    ensures
        r == spec_potted_open_eyeblossom(),
{
    registered(Block::PottedOpenEyeblossom, true, TagSet::none())
}

pub fn potted_closed_eyeblossom() -> (r: BlockRef)
    ensures
        r == spec_potted_closed_eyeblossom(),
{
    registered(Block::PottedClosedEyeblossom, true, TagSet::none())
}

pub fn big_dripleaf() -> (r: BlockRef)
    ensures
        r == spec_big_dripleaf(),
{
    registered(Block::BigDripleaf, false, TagSet::none())
}

pub fn big_dripleaf_stem() -> (r: BlockRef)
    ensures
        r == spec_big_dripleaf_stem(),
{
    registered(Block::BigDripleafStem, false, TagSet::none())
}

pub fn crimson_fungus() -> (r: BlockRef)
    ensures
        r == spec_crimson_fungus(),
{
    registered(Block::CrimsonFungus, false, TagSet::none())
}

pub fn warped_fungus() -> (r: BlockRef)
    ensures
        r == spec_warped_fungus(),
{
    registered(Block::WarpedFungus, false, TagSet::none())
}

pub fn crimson_nylium() -> (r: BlockRef)
    ensures
        r == spec_crimson_nylium(),
{
    registered(
        Block::CrimsonNylium,
        true,
        TagSet {
            supports_vegetation: false,
            supports_big_dripleaf: false,
            supports_crimson_fungus: true,
            supports_warped_fungus: true,
        },
    )
}

pub fn warped_nylium() -> (r: BlockRef)
    ensures
        r == spec_warped_nylium(),
{
    registered(
        Block::WarpedNylium,
        true,
        TagSet {
            supports_vegetation: false,
            supports_big_dripleaf: false,
            supports_crimson_fungus: true,
            supports_warped_fungus: true,
        },
    )
}

} // verus!
