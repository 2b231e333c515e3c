use rand::rngs::StdRng;
use rand::SeedableRng;
use steel_core::eyeblossom_block::{transform_delay_bounds, wake_targets, EyeblossomBlock, EyeblossomType};
use steel_core::level::{BlockPlaceContext, Level};
use steel_core::registry::{BlockPos, BlockRef, GameEvent, MobEffect, SoundEvent, TriState};
use steel_core::vanilla_blocks;

fn level_with_support(support: BlockRef) -> Level {
    Level::default().with_block(BlockPos::new(0, 63, 0), support.default_state())
}

#[test]
fn eyeblossom_requires_vegetation_support() {
    let behavior =
        EyeblossomBlock::new(vanilla_blocks::closed_eyeblossom(), EyeblossomType::Closed);
    let pos = BlockPos::new(0, 64, 0);
    let state = vanilla_blocks::closed_eyeblossom().default_state();

    assert!(behavior.can_survive(state, &level_with_support(vanilla_blocks::dirt()), pos));
    assert!(!behavior.can_survive(state, &level_with_support(vanilla_blocks::air()), pos));
}

#[test]
fn eyeblossom_type_properties() {
    assert!(EyeblossomType::Open.open());
    assert!(!EyeblossomType::Closed.open());
    assert_eq!(EyeblossomType::OPEN, EyeblossomType::Open);
    assert_eq!(EyeblossomType::CLOSED, EyeblossomType::Closed);
    assert_eq!(EyeblossomType::Open.effect(), MobEffect::Blindness);
    assert_eq!(EyeblossomType::Closed.effect(), MobEffect::Nausea);
    assert_eq!(EyeblossomType::Open.long_switch_sound(), SoundEvent::EyeblossomOpenLong);
    assert_eq!(EyeblossomType::Closed.long_switch_sound(), SoundEvent::EyeblossomCloseLong);
    assert_eq!(EyeblossomType::Open.short_switch_sound(), SoundEvent::EyeblossomOpen);
    assert_eq!(EyeblossomType::Closed.short_switch_sound(), SoundEvent::EyeblossomClose);
    assert_eq!(EyeblossomType::Open.particle_color(), 16_545_810);
    assert_eq!(EyeblossomType::Closed.particle_color(), 6_250_335);
    assert_eq!(EyeblossomType::Open.block(), vanilla_blocks::open_eyeblossom());
    assert_eq!(EyeblossomType::Closed.block(), vanilla_blocks::closed_eyeblossom());
    assert_eq!(
        EyeblossomType::Closed.state(),
        vanilla_blocks::closed_eyeblossom().default_state()
    );
    assert_eq!(EyeblossomType::Open.transform(), EyeblossomType::Closed);
    assert_eq!(EyeblossomType::Closed.transform(), EyeblossomType::Open);
    assert!(EyeblossomType::Open.emit_sounds());
    assert!(!EyeblossomType::Closed.emit_sounds());
    assert_eq!(EyeblossomType::from_boolean(true), EyeblossomType::Open);
    assert_eq!(EyeblossomType::from_boolean(false), EyeblossomType::Closed);
}

#[test]
fn transform_is_an_involution_on_both_types() {
    for kind in [EyeblossomType::Open, EyeblossomType::Closed] {
        assert_eq!(kind.transform().transform(), kind);
        assert_ne!(kind.transform().open(), kind.open());
        assert_eq!(EyeblossomType::from_boolean(kind.open()), kind);
    }
}

#[test]
fn eyeblossom_placement_needs_support() {
    let behavior = EyeblossomBlock::new(vanilla_blocks::open_eyeblossom(), EyeblossomType::Open);
    let on_dirt = level_with_support(vanilla_blocks::dirt());
    let context = BlockPlaceContext {
        world: &on_dirt,
        relative_pos: BlockPos::new(0, 64, 0),
        replacing_water_source: false,
    };
    assert_eq!(
        behavior.get_state_for_placement(&context),
        Some(vanilla_blocks::open_eyeblossom().default_state())
    );
    let on_air = Level::default();
    let context = BlockPlaceContext {
        world: &on_air,
        relative_pos: BlockPos::new(0, 64, 0),
        replacing_water_source: false,
    };
    assert_eq!(behavior.get_state_for_placement(&context), None);
}

#[test]
fn delay_bounds_are_the_rounded_down_multiples_of_the_distance() {
    for dist_sqr in 0u32..=22 {
        let distance = (dist_sqr as f64).sqrt();
        let (low, high) = transform_delay_bounds(dist_sqr);
        assert_eq!(low, (distance * 5.0) as i32, "low bound at {}", dist_sqr);
        assert_eq!(high, (distance * 10.0) as i32, "high bound at {}", dist_sqr);
    }
    assert_eq!(transform_delay_bounds(1), (5, 10));
    assert_eq!(transform_delay_bounds(2), (7, 14));
    assert_eq!(transform_delay_bounds(22), (23, 46));
    assert_eq!(transform_delay_bounds(0), (0, 0));
}

#[test]
fn environment_default_never_turns() {
    let behavior = EyeblossomBlock::new(vanilla_blocks::open_eyeblossom(), EyeblossomType::Open);
    let state = vanilla_blocks::open_eyeblossom().default_state();
    let mut rng = StdRng::seed_from_u64(7);
    let world = Level::default();
    let pos = BlockPos::new(0, 64, 0);
    assert!(behavior.try_changing_state(&state, &world, &pos, TriState::Default, &mut rng).is_none());
    assert!(behavior.try_changing_state(&state, &world, &pos, TriState::True, &mut rng).is_none());
    assert!(behavior.random_tick(state, &world, pos, TriState::Default, &mut rng).is_none());
}

fn field_of_open_eyeblossoms(pos: BlockPos) -> Level {
    let open = vanilla_blocks::open_eyeblossom().default_state();
    Level::default()
        .with_block(pos, open)
        .with_block(BlockPos::new(pos.x + 1, pos.y, pos.z), open)
        .with_block(BlockPos::new(pos.x - 3, pos.y + 2, pos.z + 3), open)
        .with_block(BlockPos::new(pos.x + 4, pos.y, pos.z), open)
        .with_block(BlockPos::new(pos.x, pos.y - 1, pos.z), vanilla_blocks::dirt().default_state())
}

#[test]
fn wake_targets_scan_the_cube_in_order() {
    let pos = BlockPos::new(10, 64, -5);
    let world = field_of_open_eyeblossoms(pos);
    let old = vanilla_blocks::open_eyeblossom().default_state();
    let new = EyeblossomType::Closed.state();
    let targets = wake_targets(&old, &world, &pos, new);
    // The flower itself has turned; the one four blocks away is outside the cube.
    assert_eq!(targets.len(), 2);
    assert_eq!(targets[0].pos, BlockPos::new(11, 64, -5));
    assert_eq!((targets[0].min_delay, targets[0].max_delay), (5, 10));
    assert_eq!(targets[1].pos, BlockPos::new(7, 66, -2));
    // distance squared 9 + 4 + 9 = 22
    assert_eq!((targets[1].min_delay, targets[1].max_delay), (23, 46));
}

#[test]
fn turning_eyeblossom_wakes_neighbours() {
    let pos = BlockPos::new(10, 64, -5);
    let world = field_of_open_eyeblossoms(pos);
    let behavior = EyeblossomBlock::new(vanilla_blocks::open_eyeblossom(), EyeblossomType::Open);
    let state = vanilla_blocks::open_eyeblossom().default_state();
    let mut rng = StdRng::seed_from_u64(42);
    let (change, sound) = behavior
        .random_tick(state, &world, pos, TriState::False, &mut rng)
        .expect("a day-time open eyeblossom closes");
    assert_eq!(sound, SoundEvent::EyeblossomCloseLong);
    assert_eq!(change.new_type, EyeblossomType::Closed);
    assert_eq!(change.new_state, vanilla_blocks::closed_eyeblossom().default_state());
    assert_eq!(change.event, GameEvent::BlockChange);
    assert_eq!(change.ticks.len(), 2);
    assert_eq!(change.ticks[0].pos, BlockPos::new(11, 64, -5));
    assert_eq!(change.ticks[0].block, vanilla_blocks::open_eyeblossom());
    assert!((5..=10).contains(&change.ticks[0].delay));
    assert_eq!(change.ticks[1].pos, BlockPos::new(7, 66, -2));
    assert!((23..=46).contains(&change.ticks[1].delay));
}

#[test]
fn closed_eyeblossom_opens_at_night() {
    let pos = BlockPos::new(0, 64, 0);
    let world = Level::default();
    let behavior =
        EyeblossomBlock::new(vanilla_blocks::closed_eyeblossom(), EyeblossomType::Closed);
    let state = vanilla_blocks::closed_eyeblossom().default_state();
    let mut rng = StdRng::seed_from_u64(1);
    let change = behavior
        .try_changing_state(&state, &world, &pos, TriState::True, &mut rng)
        .expect("a night-time closed eyeblossom opens");
    assert_eq!(change.new_type, EyeblossomType::Open);
    assert_eq!(change.new_state, vanilla_blocks::open_eyeblossom().default_state());
    assert!(change.ticks.is_empty());
}

#[test]
fn wake_delays_are_drawn_at_random() {
    let pos = BlockPos::new(0, 64, 0);
    let world = Level::default()
        .with_block(BlockPos::new(1, 64, 0), vanilla_blocks::open_eyeblossom().default_state());
    let behavior = EyeblossomBlock::new(vanilla_blocks::open_eyeblossom(), EyeblossomType::Open);
    let state = vanilla_blocks::open_eyeblossom().default_state();
    let mut rng = StdRng::seed_from_u64(2024);
    let mut delays = Vec::new();
    for _ in 0..64 {
        let change = behavior
            .try_changing_state(&state, &world, &pos, TriState::False, &mut rng)
            .unwrap();
        assert_eq!(change.ticks.len(), 1);
        delays.push(change.ticks[0].delay);
    }
    assert!(delays.iter().all(|d| (5..=10).contains(d)));
    assert!(delays.iter().any(|d| *d != 5));
    assert!(delays.iter().any(|d| *d != delays[0]));
}

#[test]
fn no_turn_draws_nothing() {
    let behavior = EyeblossomBlock::new(vanilla_blocks::open_eyeblossom(), EyeblossomType::Open);
    let state = vanilla_blocks::open_eyeblossom().default_state();
    let world = Level::default();
    let pos = BlockPos::new(0, 64, 0);
    let mut rng = StdRng::seed_from_u64(5);
    let untouched = StdRng::seed_from_u64(5);
    assert!(behavior.try_changing_state(&state, &world, &pos, TriState::True, &mut rng).is_none());
    assert!(behavior.random_tick(state, &world, pos, TriState::Default, &mut rng).is_none());
    assert_eq!(rng, untouched);
}
