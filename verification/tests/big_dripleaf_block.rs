use steel_core::big_dripleaf_block::{tick_delay, BigDripleafBlock, TiltChange};
use steel_core::level::{BlockPlaceContext, Level};
use steel_core::registry::{BlockPos, ScheduledTick, SoundEvent, Tilt, TickPriority};
use steel_core::vanilla_blocks;

fn leaf() -> BigDripleafBlock {
    BigDripleafBlock::new(vanilla_blocks::big_dripleaf())
}

#[test]
fn tick_delays_by_tilt() {
    assert_eq!(tick_delay(Tilt::NoTilt), None);
    assert_eq!(tick_delay(Tilt::Unstable), Some(10));
    assert_eq!(tick_delay(Tilt::Partial), Some(10));
    assert_eq!(tick_delay(Tilt::Full), Some(100));
}

#[test]
fn tilt_goes_down_step_by_step_and_springs_back() {
    let leaf = leaf();
    let pos = BlockPos::new(3, 70, 3);
    let rest = vanilla_blocks::big_dripleaf().default_state().set_waterlogged(true);
    assert_eq!(leaf.tick(rest, pos), None);

    let started = leaf.entity_inside(rest, pos, true).unwrap();
    assert_eq!(
        started,
        TiltChange {
            new_state: rest.set_tilt(Tilt::Unstable),
            sound: None,
            tick: Some(ScheduledTick { pos, block: leaf.block, delay: 10, priority: TickPriority::Normal }),
        }
    );
    let partial = leaf.tick(started.new_state, pos).unwrap();
    assert_eq!(partial.new_state, rest.set_tilt(Tilt::Partial));
    assert_eq!(partial.sound, Some(SoundEvent::BigDripleafTiltDown));
    assert_eq!(partial.tick, Some(ScheduledTick { pos, block: leaf.block, delay: 10, priority: TickPriority::Normal }));
    let full = leaf.tick(partial.new_state, pos).unwrap();
    assert_eq!(full.new_state, rest.set_tilt(Tilt::Full));
    assert_eq!(full.sound, Some(SoundEvent::BigDripleafTiltDown));
    assert_eq!(full.tick, Some(ScheduledTick { pos, block: leaf.block, delay: 100, priority: TickPriority::Normal }));
    let back = leaf.tick(full.new_state, pos).unwrap();
    assert_eq!(back.new_state, rest);
    assert_eq!(back.sound, Some(SoundEvent::BigDripleafTiltUp));
    assert_eq!(back.tick, None);
}

#[test]
fn entity_tilts_only_a_resting_leaf() {
    let leaf = leaf();
    let pos = BlockPos::new(0, 0, 0);
    let rest = vanilla_blocks::big_dripleaf().default_state();
    assert_eq!(leaf.entity_inside(rest, pos, false), None);
    assert_eq!(leaf.entity_inside(rest.set_tilt(Tilt::Partial), pos, true), None);
    assert!(leaf.entity_inside(rest, pos, true).is_some());
}

#[test]
fn reset_tilt_sounds_only_when_tilted() {
    let rest = vanilla_blocks::big_dripleaf().default_state();
    let reset = BigDripleafBlock::reset_tilt(rest);
    assert_eq!(reset.new_state, rest);
    assert_eq!(reset.sound, None);
    let reset = BigDripleafBlock::reset_tilt(rest.set_tilt(Tilt::Unstable));
    assert_eq!(reset.new_state, rest);
    assert_eq!(reset.sound, Some(SoundEvent::BigDripleafTiltUp));
    assert_eq!(reset.tick, None);
}

#[test]
fn set_tilt_and_schedule_tick_schedules_only_tilted_leaves() {
    let leaf = leaf();
    let pos = BlockPos::new(1, 2, 3);
    let rest = vanilla_blocks::big_dripleaf().default_state();
    let change = leaf.set_tilt_and_schedule_tick(rest, &pos, Tilt::NoTilt, None);
    assert_eq!(change.tick, None);
    let change =
        leaf.set_tilt_and_schedule_tick(rest, &pos, Tilt::Full, Some(SoundEvent::BigDripleafTiltDown));
    assert_eq!(change.new_state.tilt, Tilt::Full);
    assert_eq!(change.tick.unwrap().delay, 100);
    assert_eq!(BigDripleafBlock::set_tilt(rest, Tilt::Partial).tilt, Tilt::Partial);
}

#[test]
fn big_dripleaf_survival() {
    let leaf = leaf();
    let pos = BlockPos::new(0, 10, 0);
    let below = BlockPos::new(0, 9, 0);
    let on = |b: steel_core::registry::BlockRef| Level::default().with_block(below, b.default_state());
    let state = vanilla_blocks::big_dripleaf().default_state();
    assert!(leaf.can_survive(state, &on(vanilla_blocks::big_dripleaf()), pos));
    assert!(leaf.can_survive(state, &on(vanilla_blocks::big_dripleaf_stem()), pos));
    assert!(leaf.can_survive(state, &on(vanilla_blocks::dirt()), pos));
    assert!(!leaf.can_survive(state, &on(vanilla_blocks::air()), pos));
    assert!(!leaf.can_survive(state, &on(vanilla_blocks::crimson_nylium()), pos));
}

#[test]
fn big_dripleaf_placement_takes_water() {
    let leaf = leaf();
    let world = Level::default().with_block(BlockPos::new(0, 9, 0), vanilla_blocks::dirt().default_state());
    let context = BlockPlaceContext { world: &world, relative_pos: BlockPos::new(0, 10, 0), replacing_water_source: true };
    assert_eq!(
        leaf.get_state_for_placement(&context),
        Some(vanilla_blocks::big_dripleaf().default_state().set_waterlogged(true))
    );
    let context = BlockPlaceContext { world: &world, relative_pos: BlockPos::new(0, 20, 0), replacing_water_source: true };
    assert_eq!(leaf.get_state_for_placement(&context), None);
}
