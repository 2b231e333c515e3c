use steel_core::level::Level;
use steel_core::registry::{BlockPos, TagSet, TriState, BlockTag};
use steel_core::vanilla_blocks;

#[test]
fn reads_give_back_the_last_write() {
    let a = BlockPos::new(1, 2, 3);
    let b = BlockPos::new(-1, 2, 3);
    let dirt = vanilla_blocks::dirt().default_state();
    let pot = vanilla_blocks::flower_pot().default_state();
    let level = Level::default().with_block(a, dirt);
    assert_eq!(level.get_block_state(a), dirt);
    assert_eq!(level.get_block_state(b), vanilla_blocks::air().default_state());
    let level = level.with_block(a, pot).with_block(b, dirt);
    assert_eq!(level.get_block_state(a), pot);
    assert_eq!(level.get_block_state(b), dirt);
}

#[test]
fn build_height() {
    let level = Level::default();
    assert!(level.is_outside_build_height(-65));
    assert!(!level.is_outside_build_height(-64));
    assert!(!level.is_outside_build_height(319));
    assert!(level.is_outside_build_height(320));
    let huge = Level::new(i32::MAX - 1, i32::MAX);
    assert!(!huge.is_outside_build_height(i32::MAX));
}

#[test]
fn positions_and_tags() {
    let p = BlockPos::new(0, 0, 0);
    assert_eq!(p.below(), BlockPos::new(0, -1, 0));
    assert_eq!(p.above(), BlockPos::new(0, 1, 0));
    assert_eq!(p.offset(-3, -2, -3), BlockPos::new(-3, -2, -3));
    assert_eq!(p.dist_sqr(&BlockPos::new(3, 2, 3)), 22);
    assert_eq!(
        BlockPos::new(i32::MIN, 0, 0).dist_sqr(&BlockPos::new(i32::MAX, 0, 0)),
        (u32::MAX as i128) * (u32::MAX as i128)
    );
    assert!(vanilla_blocks::dirt().has_tag(BlockTag::SupportsVegetation));
    assert!(!vanilla_blocks::air().has_tag(BlockTag::SupportsVegetation));
    assert!(!TagSet::none().contains(BlockTag::SupportsBigDripleaf));
    assert!(TriState::True.to_boolean(false));
    assert!(!TriState::False.to_boolean(true));
    assert!(TriState::Default.to_boolean(true));
    assert!(!TriState::Default.to_boolean(false));
}
