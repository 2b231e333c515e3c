use rand::rngs::StdRng;
use rand::SeedableRng;
use steel_core::level::{BlockPlaceContext, Level};
use steel_core::nether_fungus_block::{
    ConfiguredFeature, ConfiguredFeatureKind, HugeFungusConfig, HugeFungusPlacement, NetherFungusBlock,
};
use steel_core::registry::{BlockPos, BlockTag, Direction};
use steel_core::vanilla_blocks;

fn config() -> HugeFungusConfig {
    HugeFungusConfig {
        valid_base_block: vanilla_blocks::crimson_nylium(),
        stem_state: vanilla_blocks::dirt().default_state(),
        hat_state: vanilla_blocks::dirt().default_state(),
        decor_state: vanilla_blocks::air().default_state(),
        planted: true,
    }
}

fn crimson() -> NetherFungusBlock {
    NetherFungusBlock::new(
        vanilla_blocks::crimson_fungus(),
        ConfiguredFeature { kind: ConfiguredFeatureKind::HugeFungus(config()) },
        vanilla_blocks::crimson_nylium(),
        BlockTag::SupportsCrimsonFungus,
    )
}

#[test]
fn fungus_survival_and_shape() {
    let fungus = crimson();
    let pos = BlockPos::new(0, 40, 0);
    let state = vanilla_blocks::crimson_fungus().default_state();
    let on_nylium = Level::default().with_block(BlockPos::new(0, 39, 0), vanilla_blocks::warped_nylium().default_state());
    let on_air = Level::default();
    assert!(fungus.can_survive(state, &on_nylium, pos));
    assert!(!fungus.can_survive(state, &on_air, pos));
    assert_eq!(fungus.update_shape(state, &on_nylium, pos, Direction::Down), state);
    assert_eq!(fungus.update_shape(state, &on_air, pos, Direction::Down), vanilla_blocks::air().default_state());
    let context = BlockPlaceContext { world: &on_nylium, relative_pos: pos, replacing_water_source: false };
    assert_eq!(fungus.get_state_for_placement(&context), Some(state));
    let context = BlockPlaceContext { world: &on_air, relative_pos: pos, replacing_water_source: false };
    assert_eq!(fungus.get_state_for_placement(&context), None);
}

#[test]
fn bonemeal_target_needs_required_block_and_room() {
    let fungus = crimson();
    let state = vanilla_blocks::crimson_fungus().default_state();
    let world = Level::new(0, 64)
        .with_block(BlockPos::new(0, 9, 0), vanilla_blocks::crimson_nylium().default_state())
        .with_block(BlockPos::new(0, 62, 0), vanilla_blocks::crimson_nylium().default_state())
        .with_block(BlockPos::new(5, 9, 0), vanilla_blocks::warped_nylium().default_state());
    assert!(fungus.is_valid_bonemeal_target(state, &world, BlockPos::new(0, 10, 0)));
    // The block above the fungus lies at the top of the build range.
    assert!(!fungus.is_valid_bonemeal_target(state, &world, BlockPos::new(0, 63, 0)));
    assert!(!fungus.is_valid_bonemeal_target(state, &world, BlockPos::new(5, 10, 0)));
    assert!(fungus.as_bonemealable().is_some());
}

#[test]
fn bonemeal_grows_the_huge_fungus() {
    let fungus = crimson();
    let pos = BlockPos::new(0, 10, 0);
    let mut rng = StdRng::seed_from_u64(9);
    let first = fungus.perform_bonemeal(&mut rng, pos).unwrap();
    assert_eq!(first.config, config());
    assert_eq!(first.pos, pos);
    let second = fungus.perform_bonemeal(&mut rng, pos).unwrap();
    assert_ne!(first.seed, second.seed);
    assert_eq!(
        fungus.bonemeal_placement(77, pos),
        Some(HugeFungusPlacement { seed: 77, config: config(), pos })
    );
}

#[test]
fn bonemeal_with_another_feature_places_nothing() {
    let fungus = NetherFungusBlock::new(
        vanilla_blocks::warped_fungus(),
        ConfiguredFeature { kind: ConfiguredFeatureKind::Other(3) },
        vanilla_blocks::warped_nylium(),
        BlockTag::SupportsWarpedFungus,
    );
    let mut rng = StdRng::seed_from_u64(9);
    assert_eq!(fungus.perform_bonemeal(&mut rng, BlockPos::new(0, 0, 0)), None);
    assert_eq!(fungus.bonemeal_placement(1, BlockPos::new(0, 0, 0)), None);
}
