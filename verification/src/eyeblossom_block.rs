//! Eyeblossoms: flowers that open at night and close by day, and wake the
//! eyeblossoms of the same kind around them when they turn.

use vstd::prelude::*;
use rand::rngs::StdRng;
use crate::level::{BlockPlaceContext, Level};
use vstd::arithmetic::div_mod::lemma_fundamental_div_mod_converse;
use crate::random::random_between_inclusive;
use crate::registry::{
    BlockPos, BlockRef, BlockStateId, BlockTag, GameEvent, MobEffect, ScheduledTick, SoundEvent,
    TickPriority, TriState,
};
use crate::vanilla_blocks::{
    closed_eyeblossom, open_eyeblossom, spec_closed_eyeblossom, spec_open_eyeblossom,
};

verus! {

/// Whether an eyeblossom is open or closed.
#[derive(Clone, Copy, Debug, PartialEq, Eq, Structural)]
pub enum EyeblossomType {
    /// Emits open-eyeblossom effects and transforms closed at daytime.
    Open,
    /// Emits closed-eyeblossom effects and transforms open at nighttime.
    Closed,
}

impl EyeblossomType {
    pub const OPEN: EyeblossomType = EyeblossomType::Open;

    pub const CLOSED: EyeblossomType = EyeblossomType::Closed;

    pub open spec fn is_open(self) -> bool {
        self == EyeblossomType::Open
    }

    pub open spec fn spec_transform(self) -> EyeblossomType {
        match self {
            EyeblossomType::Open => EyeblossomType::Closed,
            EyeblossomType::Closed => EyeblossomType::Open,
        }
    }

    pub open spec fn spec_from_boolean(open: bool) -> EyeblossomType {
        if open {
            EyeblossomType::Open
        } else {
            EyeblossomType::Closed
        }
    }

    pub open spec fn spec_block(self) -> BlockRef {
        match self {
            EyeblossomType::Open => spec_open_eyeblossom(),
            EyeblossomType::Closed => spec_closed_eyeblossom(),
        }
    }

    pub open spec fn spec_state(self) -> BlockStateId {
        self.spec_block().spec_default_state()
    }

    pub open spec fn spec_long_switch_sound(self) -> SoundEvent {
        match self {
            EyeblossomType::Open => SoundEvent::EyeblossomOpenLong,
            EyeblossomType::Closed => SoundEvent::EyeblossomCloseLong,
        }
    }

    /// Whether the eyeblossom is open.
    pub fn open(self) -> (r: bool)
        ensures
            r == self.is_open(),
    {
        match self {
            EyeblossomType::Open => true,
            EyeblossomType::Closed => false,
        }
    }

    /// The effect that the eyeblossom gives.
    pub fn effect(self) -> (r: MobEffect)
        ensures
            r == (match self {
                EyeblossomType::Open => MobEffect::Blindness,
                EyeblossomType::Closed => MobEffect::Nausea,
            }),
    {
        match self {
            EyeblossomType::Open => MobEffect::Blindness,
            EyeblossomType::Closed => MobEffect::Nausea,
        }
    }

    /// The sound of a change into this type, when it wakes its neighbours.
    pub fn long_switch_sound(self) -> (r: SoundEvent)
        ensures
            r == self.spec_long_switch_sound(),
    {
        match self {
            EyeblossomType::Open => SoundEvent::EyeblossomOpenLong,
            EyeblossomType::Closed => SoundEvent::EyeblossomCloseLong,
        }
    }

    /// The sound of a change into this type, when woken by a neighbour.
    pub fn short_switch_sound(self) -> (r: SoundEvent)
        ensures
            r == (match self {
                EyeblossomType::Open => SoundEvent::EyeblossomOpen,
                EyeblossomType::Closed => SoundEvent::EyeblossomClose,
            }),
    {
        match self {
            EyeblossomType::Open => SoundEvent::EyeblossomOpen,
            EyeblossomType::Closed => SoundEvent::EyeblossomClose,
        }
    }

    /// The colour of the trail particle of a change into this type.
    pub fn particle_color(self) -> (r: i32)
        ensures
            r == (match self {
                EyeblossomType::Open => 16_545_810i32,
                EyeblossomType::Closed => 6_250_335i32,
            }),
    {
        match self {
            EyeblossomType::Open => 16_545_810,
            EyeblossomType::Closed => 6_250_335,
        }
    }

    /// The block of this type.
    pub fn block(self) -> (r: BlockRef)
        ensures
            r == self.spec_block(),
    {
        match self {
            EyeblossomType::Open => open_eyeblossom(),
            EyeblossomType::Closed => closed_eyeblossom(),
        }
    }

    /// The default state of the block of this type.
    pub fn state(self) -> (r: BlockStateId)
        ensures
            r == self.spec_state(),
    {
        self.block().default_state()
    }

    /// The other type.
    pub fn transform(self) -> (r: EyeblossomType)
        ensures
            r == self.spec_transform(),
    {
        match self {
            EyeblossomType::Open => EyeblossomType::Closed,
            EyeblossomType::Closed => EyeblossomType::Open,
        }
    }

    /// Whether the eyeblossom makes ambient sounds: only open ones do.
    pub fn emit_sounds(self) -> (r: bool)
        ensures
            r == self.is_open(),
    {
        matches!(self, EyeblossomType::Open)
    }

    /// The open type for `true`, the closed one for `false`.
    pub fn from_boolean(open: bool) -> (r: EyeblossomType)
        ensures
            r == Self::spec_from_boolean(open),
    {
        if open {
            EyeblossomType::Open
        } else {
            EyeblossomType::Closed
        }
    }
}

/// `r` is the whole part of the square root of `n`.
pub open spec fn is_whole_root(r: int, n: int) -> bool {
    0 <= r && r * r <= n < (r + 1) * (r + 1)
}

/// The whole part of the square root of `n`.
fn whole_root(n: u64) -> (r: u64)
    requires
        n < 0x1_0000_0000_0000,
    ensures
        is_whole_root(r as int, n as int),
{
    let mut r: u64 = 0;
    let mut next_square: u64 = 1;
    while next_square <= n
        invariant
            n < 0x1_0000_0000_0000,
            r < 0x100_0000,
            r * r <= n,
            next_square == (r + 1) * (r + 1),
        decreases n - r,
    {
        r = r + 1;
        assert(r < 0x100_0000 && r <= n) by (nonlinear_arith)
            requires
                r * r <= n,
                n < 0x1_0000_0000_0000,
                r >= 1,
        ;
        assert((r + 1) * (r + 1) == r * r + 2 * r + 1) by (nonlinear_arith);
        next_square = next_square + 2 * r + 1;
    }
    r
}

/// A delay of `delay` ticks lies between five and ten times the distance
/// whose square is `dist_sqr`, each bound rounded down to a whole number.
pub open spec fn is_transform_delay(delay: int, dist_sqr: int) -> bool {
    &&& 0 <= delay
    &&& delay * delay <= 100 * dist_sqr
    &&& 25 * dist_sqr < (delay + 1) * (delay + 1)
}

/// The bounds of the delay after which an eyeblossom at squared distance
/// `dist_sqr` follows a turning one: five and ten times the distance,
/// each rounded down.
pub fn transform_delay_bounds(dist_sqr: u32) -> (r: (i32, i32))
    ensures
        is_whole_root(r.0 as int, 25 * dist_sqr),
        is_whole_root(r.1 as int, 100 * dist_sqr),
        r.0 <= r.1,
{
    let low = whole_root(25 * dist_sqr as u64);
    let high = whole_root(100 * dist_sqr as u64);
    assert(high < 0x10_0000) by (nonlinear_arith)
        requires
            high * high <= 100 * dist_sqr,
            dist_sqr <= 0xffff_ffff,
    ;
    assert(low <= high) by (nonlinear_arith)
        requires
            low * low <= 25 * dist_sqr,
            100 * dist_sqr < (high + 1) * (high + 1),
            0 <= low,
            0 <= high,
    ;
    (low as i32, high as i32)
}

/// A value between the bounds of `transform_delay_bounds` is a transform
/// delay.
pub proof fn lemma_between_bounds_is_transform_delay(low: int, high: int, delay: int, dist_sqr: int)
    requires
        is_whole_root(low, 25 * dist_sqr),
        is_whole_root(high, 100 * dist_sqr),
        low <= delay <= high,
    ensures
        is_transform_delay(delay, dist_sqr),
{
    assert(delay * delay <= high * high) by (nonlinear_arith)
        requires
            0 <= low <= delay <= high,
    ;
    assert((low + 1) * (low + 1) <= (delay + 1) * (delay + 1)) by (nonlinear_arith)
        requires
            0 <= low <= delay,
    ;
}

/// The cube around `pos` that a turning eyeblossom wakes stays within the
/// range of positions.
pub open spec fn cube_fits(pos: BlockPos) -> bool {
    &&& i32::MIN + 3 <= pos.x <= i32::MAX - 3
    &&& i32::MIN + 2 <= pos.y <= i32::MAX - 2
    &&& i32::MIN + 3 <= pos.z <= i32::MAX - 3
}

/// The number of positions in the cube around a turning eyeblossom.
pub open spec fn cube_size() -> int {
    245
}

/// The `i`th position of the cube from `pos` offset by (-3, -2, -3) to
/// `pos` offset by (3, 2, 3), x changing fastest, then y, then z.
pub open spec fn cube_position(pos: BlockPos, i: int) -> BlockPos {
    BlockPos {
        x: (pos.x - 3 + i % 7) as i32,
        y: (pos.y - 2 + (i / 7) % 5) as i32,
        z: (pos.z - 3 + i / 35) as i32,
    }
}

/// The `i`th position of the cube around `pos`.
fn nearby_position(pos: &BlockPos, i: usize) -> (r: BlockPos)
    requires
        i < cube_size(),
        cube_fits(*pos),
    ensures
        r == cube_position(*pos, i as int),
        -3 <= r.x - pos.x <= 3,
        -2 <= r.y - pos.y <= 2,
        -3 <= r.z - pos.z <= 3,
{
    let dx: i32 = (i % 7) as i32 - 3;
    let dy: i32 = ((i / 7) % 5) as i32 - 2;
    let dz: i32 = (i / 35) as i32 - 3;
    pos.offset(dx, dy, dz)
}

/// The state at `p` once `new_state` stands at `pos`.
pub open spec fn state_after_change(
    level: Level,
    pos: BlockPos,
    new_state: BlockStateId,
    p: BlockPos,
) -> BlockStateId {
    if p == pos {
        new_state
    } else {
        level.spec_block_state(p)
    }
}

/// The first `n` positions of the cube around `pos`, in scan order, that
/// hold `old_state` once `new_state` stands at `pos`.
pub open spec fn positions_to_wake(
    level: Level,
    pos: BlockPos,
    old_state: BlockStateId,
    new_state: BlockStateId,
    n: nat,
) -> Seq<BlockPos>
    decreases n,
{
    if n == 0 {
        Seq::empty()
    } else {
        let before = positions_to_wake(level, pos, old_state, new_state, (n - 1) as nat);
        let p = cube_position(pos, n - 1);
        if state_after_change(level, pos, new_state, p) == old_state {
            before.push(p)
        } else {
            before
        }
    }
}

/// `ticks` wake, in scan order, each position of the cube around `pos`
/// that holds `old_state` once `new_state` stands at `pos`: the block of
/// `old_state` there, at normal priority, after a transform delay for its
/// distance to `pos`.
pub open spec fn wakes_neighbours(
    ticks: Seq<ScheduledTick>,
    level: Level,
    pos: BlockPos,
    old_state: BlockStateId,
    new_state: BlockStateId,
) -> bool {
    let targets = positions_to_wake(level, pos, old_state, new_state, cube_size() as nat);
    &&& ticks.len() == targets.len()
    &&& forall|k: int|
        0 <= k < ticks.len() ==> {
            &&& #[trigger] ticks[k].pos == targets[k]
            &&& ticks[k].block == old_state.block
            &&& ticks[k].priority == TickPriority::Normal
            &&& is_transform_delay(ticks[k].delay as int, pos.spec_dist_sqr(targets[k]))
        }
}

/// What an eyeblossom does when it turns: the state it becomes, the game
/// event it reports, and the ticks that wake its neighbours.
pub struct StateChange {
    pub new_type: EyeblossomType,
    pub new_state: BlockStateId,
    pub event: GameEvent,
    pub ticks: Vec<ScheduledTick>,
}

/// The eyeblossom of `kind` at `pos` in `state`, told `eyeblossom_open`
/// by the environment, turns into `change`.
pub open spec fn is_state_change(
    kind: EyeblossomType,
    change: StateChange,
    state: BlockStateId,
    level: Level,
    pos: BlockPos,
) -> bool {
    &&& change.new_type == kind.spec_transform()
    &&& change.new_state == change.new_type.spec_state()
    &&& change.event == GameEvent::BlockChange
    &&& wakes_neighbours(change.ticks@, level, pos, state, change.new_state)
}

/// The eyeblossom's type disagrees with what the environment says.
pub open spec fn should_change(kind: EyeblossomType, eyeblossom_open: TriState) -> bool {
    eyeblossom_open.spec_to_boolean(kind.is_open()) != kind.is_open()
}

/// A position that a turning eyeblossom wakes, with the bounds of the
/// delay after which it is woken.
#[derive(Clone, Copy, Debug, PartialEq, Eq, Structural)]
pub struct WakeTarget {
    pub pos: BlockPos,
    pub min_delay: i32,
    pub max_delay: i32,
}

/// `targets` are, in scan order, the positions of the cube around `pos`
/// that hold `old_state` once `new_state` stands at `pos`, each with the
/// bounds of its delay: five and ten times its distance to `pos`, each
/// rounded down.
pub open spec fn are_wake_targets(
    targets: Seq<WakeTarget>,
    level: Level,
    pos: BlockPos,
    old_state: BlockStateId,
    new_state: BlockStateId,
    n: nat,
) -> bool {
    let expected = positions_to_wake(level, pos, old_state, new_state, n);
    &&& targets.len() == expected.len()
    &&& forall|k: int|
        0 <= k < targets.len() ==> {
            &&& #[trigger] targets[k].pos == expected[k]
            &&& is_whole_root(targets[k].min_delay as int, 25 * pos.spec_dist_sqr(expected[k]))
            &&& is_whole_root(targets[k].max_delay as int, 100 * pos.spec_dist_sqr(expected[k]))
            &&& targets[k].min_delay <= targets[k].max_delay
        }
}

/// The eyeblossoms that one at `pos` wakes when it turns from `old_state`
/// into `new_state`: those in `old_state` in the cube from `pos` offset by
/// (-3, -2, -3) to `pos` offset by (3, 2, 3), scanned x first, then y,
/// then z. `world` is read as it stands once `new_state` is in place: at
/// `pos` itself `new_state` counts.
pub fn wake_targets(
    old_state: &BlockStateId,
    world: &Level,
    pos: &BlockPos,
    new_state: BlockStateId,
) -> (r: Vec<WakeTarget>)
    requires
        cube_fits(*pos),
    ensures
        are_wake_targets(r@, *world, *pos, *old_state, new_state, cube_size() as nat),
{
    let mut targets: Vec<WakeTarget> = Vec::new();
    let mut i: usize = 0;
    while i < 245
        invariant
            0 <= i <= cube_size(),
            cube_fits(*pos),
            are_wake_targets(targets@, *world, *pos, *old_state, new_state, i as nat),
        decreases cube_size() - i,
    {
        let nearby = nearby_position(pos, i);
        let nearby_state = if nearby == *pos {
            new_state
        } else {
            world.get_block_state(nearby)
        };
        let ghost before = targets@;
        let ghost prev = positions_to_wake(*world, *pos, *old_state, new_state, i as nat);
        proof {
            assert(state_after_change(*world, *pos, new_state, nearby) == nearby_state);
            assert(positions_to_wake(*world, *pos, *old_state, new_state, (i + 1) as nat) == (
            if nearby_state == *old_state {
                prev.push(nearby)
            } else {
                prev
            }));
        }
        if nearby_state == *old_state {
            let dist_sqr = pos.dist_sqr(&nearby);
            assert(0 <= dist_sqr <= 22) by (nonlinear_arith)
                requires
                    dist_sqr == (pos.x - nearby.x) * (pos.x - nearby.x) + (pos.y - nearby.y) * (
                    pos.y - nearby.y) + (pos.z - nearby.z) * (pos.z - nearby.z),
                    -3 <= nearby.x - pos.x <= 3,
                    -2 <= nearby.y - pos.y <= 2,
                    -3 <= nearby.z - pos.z <= 3,
            ;
            let bounds = transform_delay_bounds(dist_sqr as u32);
            targets.push(WakeTarget { pos: nearby, min_delay: bounds.0, max_delay: bounds.1 });
        }
        proof {
            let next = positions_to_wake(*world, *pos, *old_state, new_state, (i + 1) as nat);
            assert forall|k: int| 0 <= k < targets@.len() implies #[trigger] targets@[k].pos
                == next[k] by {
                if k < before.len() {
                    assert(targets@[k] == before[k]);
                }
            }
        }
        i = i + 1;
    }
    targets
}

/// The behaviour of an eyeblossom block of one type.
pub struct EyeblossomBlock {
    pub block: BlockRef,
    pub eyeblossom_type: EyeblossomType,
}

impl EyeblossomBlock {
    /// Creates a new eyeblossom behaviour.
    pub fn new(block: BlockRef, eyeblossom_type: EyeblossomType) -> (r: Self)
        ensures
            r.block == block,
            r.eyeblossom_type == eyeblossom_type,
    {
        EyeblossomBlock { block, eyeblossom_type }
    }

    pub open spec fn spec_can_survive(level: Level, pos: BlockPos) -> bool {
        level.spec_block_state(
            BlockPos { y: (pos.y - 1) as i32, ..pos },
        ).block.spec_has_tag(BlockTag::SupportsVegetation)
    }

    /// An eyeblossom survives on a block that supports vegetation.
    pub fn can_survive(&self, state: BlockStateId, world: &Level, pos: BlockPos) -> (r: bool)
        requires
            pos.y > i32::MIN,
        ensures
            r == Self::spec_can_survive(*world, pos),
    {
        world.get_block_state(pos.below()).get_block().has_tag(BlockTag::SupportsVegetation)
    }

    /// The state placed: the block's default state where it survives,
    /// nothing where it does not.
    pub fn get_state_for_placement(&self, context: &BlockPlaceContext) -> (r: Option<
        BlockStateId,
    >)
        requires
            context.relative_pos.y > i32::MIN,
        ensures
            r == (if Self::spec_can_survive(*context.world, context.relative_pos) {
                Some(self.block.spec_default_state())
            } else {
                None::<BlockStateId>
            }),
    {
        let state = self.block.default_state();
        if self.can_survive(state, context.world, context.relative_pos) {
            Some(state)
        } else {
            None
        }
    }

    /// Turns the eyeblossom where the environment's `eyeblossom_open`
    /// disagrees with its type, and wakes the eyeblossoms in `state` in the
    /// cube around `pos`. `world` is read as it stands once the turned
    /// eyeblossom is in place: at `pos` itself the new state counts.
    /// Each woken eyeblossom gets a random delay between five and ten
    /// times its distance, rounded down.
    pub fn try_changing_state(
        &self,
        state: &BlockStateId,
        world: &Level,
        pos: &BlockPos,
        eyeblossom_open: TriState,
        random: &mut StdRng,
    ) -> (r: Option<StateChange>)
        requires
            cube_fits(*pos),
        ensures
            r is None <==> !should_change(self.eyeblossom_type, eyeblossom_open),
            r is None ==> *final(random) == *old(random),
            r matches Some(change) ==> is_state_change(
                self.eyeblossom_type,
                change,
                *state,
                *world,
                *pos,
            ),
    {
        let should_be_open = eyeblossom_open.to_boolean(self.eyeblossom_type.open());
        if should_be_open == self.eyeblossom_type.open() {
            return None;
        }
        let new_type = self.eyeblossom_type.transform();
        let new_state = new_type.state();
        let targets = wake_targets(state, world, pos, new_state);
        let mut ticks: Vec<ScheduledTick> = Vec::new();
        let mut k: usize = 0;
        while k < targets.len()
            invariant
                0 <= k <= targets@.len(),
                ticks@.len() == k,
                are_wake_targets(targets@, *world, *pos, *state, new_state, cube_size() as nat),
                forall|j: int|
                    #![trigger ticks@[j]]
                    0 <= j < k ==> {
                        &&& ticks@[j].pos == targets@[j].pos
                        &&& ticks@[j].block == state.block
                        &&& ticks@[j].priority == TickPriority::Normal
                        &&& targets@[j].min_delay <= ticks@[j].delay <= targets@[j].max_delay
                    },
            decreases targets@.len() - k,
        {
            let target = targets[k];
            let delay = random_between_inclusive(random, target.min_delay, target.max_delay);
            ticks.push(
                ScheduledTick {
                    pos: target.pos,
                    block: state.block,
                    delay,
                    priority: TickPriority::Normal,
                },
            );
            k = k + 1;
        }
        proof {
            let expected = positions_to_wake(
                *world,
                *pos,
                *state,
                new_state,
                cube_size() as nat,
            );
            assert forall|j: int| 0 <= j < ticks@.len() implies {
                &&& #[trigger] ticks@[j].pos == expected[j]
                &&& ticks@[j].block == state.block
                &&& ticks@[j].priority == TickPriority::Normal
                &&& is_transform_delay(ticks@[j].delay as int, pos.spec_dist_sqr(expected[j]))
            } by {
                assert(targets@[j].pos == expected[j]);
                assert(ticks@[j].pos == targets@[j].pos);
                lemma_between_bounds_is_transform_delay(
                    targets@[j].min_delay as int,
                    targets@[j].max_delay as int,
                    ticks@[j].delay as int,
                    pos.spec_dist_sqr(expected[j]),
                );
            }
            assert(wakes_neighbours(ticks@, *world, *pos, *state, new_state));
        }
        Some(StateChange { new_type, new_state, event: GameEvent::BlockChange, ticks })
    }

    /// A random tick turns the eyeblossom where the environment says so,
    /// as `try_changing_state` does, and plays the long switch sound of
    /// the type it turns into.
    pub fn random_tick(
        &self,
        state: BlockStateId,
        world: &Level,
        pos: BlockPos,
        eyeblossom_open: TriState,
        random: &mut StdRng,
    ) -> (r: Option<(StateChange, SoundEvent)>)
        requires
            cube_fits(pos),
        ensures
            r is None <==> !should_change(self.eyeblossom_type, eyeblossom_open),
            r is None ==> *final(random) == *old(random),
            r matches Some((change, sound)) ==> {
                &&& is_state_change(self.eyeblossom_type, change, state, *world, pos)
                &&& sound == self.eyeblossom_type.spec_transform().spec_long_switch_sound()
            },
    {
        let sound = self.eyeblossom_type.transform().long_switch_sound();
        match self.try_changing_state(&state, world, &pos, eyeblossom_open, random) {
            Some(change) => Some((change, sound)),
            None => None,
        }
    }
}

/// Turning twice gives back the type one started from, and turning
/// always changes whether the eyeblossom is open.
pub proof fn lemma_transform_is_involution(kind: EyeblossomType)
    ensures
        kind.spec_transform().spec_transform() == kind,
        kind.spec_transform().is_open() != kind.is_open(),
{
}

/// `from_boolean` and `open` undo each other.
pub proof fn lemma_from_boolean_round_trip(kind: EyeblossomType, open: bool)
    ensures
        EyeblossomType::spec_from_boolean(kind.is_open()) == kind,
        EyeblossomType::spec_from_boolean(open).is_open() == open,
{
}

/// An eyeblossom that turns becomes what the environment asks for, so
/// under the same environment it does not turn again.
pub proof fn lemma_turned_eyeblossom_stays(kind: EyeblossomType, eyeblossom_open: TriState)
    requires
        should_change(kind, eyeblossom_open),
    ensures
        kind.spec_transform().is_open() == eyeblossom_open.spec_to_boolean(kind.is_open()),
        !should_change(kind.spec_transform(), eyeblossom_open),
{
}

/// Where the environment leaves the choice to the eyeblossom, it never
/// turns.
pub proof fn lemma_default_environment_keeps_eyeblossom(kind: EyeblossomType)
    ensures
        !should_change(kind, TriState::Default),
{
}

/// Every position that a turning eyeblossom wakes lies in the cube around
/// it, is not its own position, and holds the state it turned from.
pub proof fn lemma_woken_positions_hold_old_state(
    level: Level,
    pos: BlockPos,
    old_state: BlockStateId,
    new_state: BlockStateId,
    n: nat,
)
    requires
        cube_fits(pos),
        n <= cube_size(),
        old_state != new_state,
    ensures
        forall|k: int|
            0 <= k < positions_to_wake(level, pos, old_state, new_state, n).len() ==> {
                let p = #[trigger] positions_to_wake(level, pos, old_state, new_state, n)[k];
                &&& p != pos
                &&& -3 <= p.x - pos.x <= 3
                &&& -2 <= p.y - pos.y <= 2
                &&& -3 <= p.z - pos.z <= 3
                &&& level.spec_block_state(p) == old_state
            },
    decreases n,
{
    if n > 0 {
        lemma_woken_positions_hold_old_state(level, pos, old_state, new_state, (n - 1) as nat);
        let i = n - 1;
        assert(0 <= i % 7 < 7 && 0 <= (i / 7) % 5 < 5 && 0 <= i / 35 < 7) by (nonlinear_arith)
            requires
                0 <= i < 245,
        ;
    }
}

/// A woken eyeblossom next to the turning one waits at least 5 ticks, and
/// one at the far corner of the cube at most 46.
pub proof fn lemma_wake_delay_range(delay: int, dist_sqr: int)
    requires
        1 <= dist_sqr <= 22,
        is_transform_delay(delay, dist_sqr),
    ensures
        5 <= delay <= 46,
{
    assert(delay <= 46) by (nonlinear_arith)
        requires
            0 <= delay,
            delay * delay <= 2200,
    ;
    assert(delay >= 5) by (nonlinear_arith)
        requires
            0 <= delay,
            25 < (delay + 1) * (delay + 1),
    ;
}

/// An eyeblossom that turns wakes only eyeblossoms of the state it turned
/// from, in the cube around it but not itself, each after 5 to 46 ticks.
pub proof fn lemma_turning_wakes_nearby_eyeblossoms(
    kind: EyeblossomType,
    change: StateChange,
    state: BlockStateId,
    level: Level,
    pos: BlockPos,
)
    requires
        cube_fits(pos),
        is_state_change(kind, change, state, level, pos),
        state != change.new_state,
    ensures
        forall|k: int|
            0 <= k < change.ticks@.len() ==> {
                let t = #[trigger] change.ticks@[k];
                &&& t.pos != pos
                &&& -3 <= t.pos.x - pos.x <= 3
                &&& -2 <= t.pos.y - pos.y <= 2
                &&& -3 <= t.pos.z - pos.z <= 3
                &&& level.spec_block_state(t.pos) == state
                &&& t.block == state.block
                &&& 5 <= t.delay <= 46
            },
{
    let targets = positions_to_wake(level, pos, state, change.new_state, cube_size() as nat);
    lemma_woken_positions_hold_old_state(level, pos, state, change.new_state, cube_size() as nat);
    assert forall|k: int| 0 <= k < change.ticks@.len() implies {
        let t = #[trigger] change.ticks@[k];
        &&& t.pos != pos
        &&& -3 <= t.pos.x - pos.x <= 3
        &&& -2 <= t.pos.y - pos.y <= 2
        &&& -3 <= t.pos.z - pos.z <= 3
        &&& level.spec_block_state(t.pos) == state
        &&& t.block == state.block
        &&& 5 <= t.delay <= 46
    } by {
        let t = change.ticks@[k];
        assert(t.pos == targets[k]);
        let d = pos.spec_dist_sqr(t.pos);
        let dx = pos.x - t.pos.x;
        let dy = pos.y - t.pos.y;
        let dz = pos.z - t.pos.z;
        assert(1 <= d <= 22) by (nonlinear_arith)
            requires
                d == dx * dx + dy * dy + dz * dz,
                -3 <= dx <= 3,
                -2 <= dy <= 2,
                -3 <= dz <= 3,
                dx != 0 || dy != 0 || dz != 0,
        ;
        lemma_wake_delay_range(t.delay as int, d);
    }
}

/// Whether an eyeblossom survives depends only on the block below it:
/// it survives exactly where that block supports vegetation, whatever the
/// eyeblossom's block, type or state.
pub proof fn lemma_eyeblossom_survival_depends_only_on_support(level: Level, pos: BlockPos)
    ensures
        EyeblossomBlock::spec_can_survive(level, pos) == level.spec_block_state(
            BlockPos { y: (pos.y - 1) as i32, ..pos },
        ).block.spec_has_tag(BlockTag::SupportsVegetation),
{
}

/// The scan index of the position of the cube at offsets (`dx`, `dy`,
/// `dz`) from its centre.
pub open spec fn cube_index(dx: int, dy: int, dz: int) -> int {
    35 * (dz + 3) + 7 * (dy + 2) + (dx + 3)
}

/// Scanning the cube reaches the position at each offset of the cube, at
/// its scan index.
pub proof fn lemma_cube_scan_reaches_offset(pos: BlockPos, p: BlockPos)
    requires
        cube_fits(pos),
        -3 <= p.x - pos.x <= 3,
        -2 <= p.y - pos.y <= 2,
        -3 <= p.z - pos.z <= 3,
    ensures
        0 <= cube_index(p.x - pos.x, p.y - pos.y, p.z - pos.z) < cube_size(),
        cube_position(pos, cube_index(p.x - pos.x, p.y - pos.y, p.z - pos.z)) == p,
{
    let a = p.z - pos.z + 3;
    let b = p.y - pos.y + 2;
    let c = p.x - pos.x + 3;
    let i = cube_index(p.x - pos.x, p.y - pos.y, p.z - pos.z);
    lemma_fundamental_div_mod_converse(i, 7, 5 * a + b, c);
    lemma_fundamental_div_mod_converse(5 * a + b, 5, a, b);
    lemma_fundamental_div_mod_converse(i, 35, a, 7 * b + c);
}

/// Two scan indices of the cube give the same position only if they are
/// the same index.
pub proof fn lemma_cube_scan_is_injective(pos: BlockPos, i: int, j: int)
    requires
        cube_fits(pos),
        0 <= i < cube_size(),
        0 <= j < cube_size(),
        cube_position(pos, i) == cube_position(pos, j),
    ensures
        i == j,
{
    assert(0 <= i % 7 < 7 && 0 <= (i / 7) % 5 < 5 && 0 <= i / 35 < 7) by (nonlinear_arith)
        requires
            0 <= i < 245,
    ;
    assert(0 <= j % 7 < 7 && 0 <= (j / 7) % 5 < 5 && 0 <= j / 35 < 7) by (nonlinear_arith)
        requires
            0 <= j < 245,
    ;
    assert(i == 35 * (i / 35) + 7 * ((i / 7) % 5) + i % 7) by (nonlinear_arith)
        requires
            0 <= i,
    ;
    assert(j == 35 * (j / 35) + 7 * ((j / 7) % 5) + j % 7) by (nonlinear_arith)
        requires
            0 <= j,
    ;
}

/// Every scan position below `n` that holds `old_state` once `new_state`
/// stands at `pos` is among the positions to wake.
pub proof fn lemma_positions_to_wake_include(
    level: Level,
    pos: BlockPos,
    old_state: BlockStateId,
    new_state: BlockStateId,
    n: nat,
    i: int,
)
    requires
        0 <= i < n,
        state_after_change(level, pos, new_state, cube_position(pos, i)) == old_state,
    ensures
        positions_to_wake(level, pos, old_state, new_state, n).contains(cube_position(pos, i)),
    decreases n,
{
    let before = positions_to_wake(level, pos, old_state, new_state, (n - 1) as nat);
    let p = cube_position(pos, n - 1);
    if i == n - 1 {
        assert(before.push(p)[before.len() as int] == p);
    } else {
        lemma_positions_to_wake_include(level, pos, old_state, new_state, (n - 1) as nat, i);
        let k = choose|k: int| 0 <= k < before.len() && before[k] == cube_position(pos, i);
        if state_after_change(level, pos, new_state, p) == old_state {
            assert(before.push(p)[k] == cube_position(pos, i));
        }
    }
}

/// Every position to wake below `n` is the scan position of an index
/// below `n`, and no position comes twice.
pub proof fn lemma_positions_to_wake_are_distinct(
    level: Level,
    pos: BlockPos,
    old_state: BlockStateId,
    new_state: BlockStateId,
    n: nat,
)
    requires
        cube_fits(pos),
        n <= cube_size(),
    ensures
        forall|k: int|
            #![trigger positions_to_wake(level, pos, old_state, new_state, n)[k]]
            0 <= k < positions_to_wake(level, pos, old_state, new_state, n).len() ==> exists|
                i: int,
            |
                0 <= i < n && #[trigger] cube_position(pos, i) == positions_to_wake(
                    level,
                    pos,
                    old_state,
                    new_state,
                    n,
                )[k],
        positions_to_wake(level, pos, old_state, new_state, n).no_duplicates(),
    decreases n,
{
    if n > 0 {
        lemma_positions_to_wake_are_distinct(level, pos, old_state, new_state, (n - 1) as nat);
        let before = positions_to_wake(level, pos, old_state, new_state, (n - 1) as nat);
        let after = positions_to_wake(level, pos, old_state, new_state, n);
        let p = cube_position(pos, n - 1);
        assert forall|k: int| #![trigger after[k]] 0 <= k < after.len() implies exists|i: int|
            0 <= i < n && #[trigger] cube_position(pos, i) == after[k] by {
            if k < before.len() {
                let i = choose|i: int| 0 <= i < n - 1 && #[trigger] cube_position(pos, i) == before[k];
                assert(after[k] == before[k]);
                assert(cube_position(pos, i) == after[k]);
            } else {
                assert(cube_position(pos, n - 1) == after[k]);
            }
        }
        if after.len() > before.len() {
            assert forall|k1: int, k2: int|
                0 <= k1 < after.len() && 0 <= k2 < after.len() && k1 != k2 implies after[k1]
                != after[k2] by {
                if k1 < before.len() && k2 < before.len() {
                    assert(after[k1] == before[k1] && after[k2] == before[k2]);
                } else {
                    let k = if k1 < before.len() {
                        k1
                    } else {
                        k2
                    };
                    let i = choose|i: int| 0 <= i < n - 1 && #[trigger] cube_position(pos, i) == before[k];
                    assert(after[k] == before[k]);
                    if cube_position(pos, i) == p {
                        lemma_cube_scan_is_injective(pos, i, n - 1);
                    }
                }
            }
        }
    }
}

/// An eyeblossom that turns wakes every eyeblossom in the state it turned
/// from in the cube around it (other than itself), each exactly once.
pub proof fn lemma_turning_wakes_every_eyeblossom_in_cube(
    kind: EyeblossomType,
    change: StateChange,
    state: BlockStateId,
    level: Level,
    pos: BlockPos,
    p: BlockPos,
)
    requires
        cube_fits(pos),
        is_state_change(kind, change, state, level, pos),
    ensures
        -3 <= p.x - pos.x <= 3 && -2 <= p.y - pos.y <= 2 && -3 <= p.z - pos.z <= 3 && p != pos
            && level.spec_block_state(p) == state ==> exists|k: int|
            0 <= k < change.ticks@.len() && #[trigger] change.ticks@[k].pos == p,
        forall|k1: int, k2: int|
            0 <= k1 < change.ticks@.len() && 0 <= k2 < change.ticks@.len() && k1 != k2
                ==> #[trigger] change.ticks@[k1].pos != #[trigger] change.ticks@[k2].pos,
{
    let targets = positions_to_wake(level, pos, state, change.new_state, cube_size() as nat);
    lemma_positions_to_wake_are_distinct(level, pos, state, change.new_state, cube_size() as nat);
    assert forall|k1: int, k2: int|
        0 <= k1 < change.ticks@.len() && 0 <= k2 < change.ticks@.len() && k1 != k2 implies #[trigger] change.ticks@[k1].pos
        != #[trigger] change.ticks@[k2].pos by {
        assert(change.ticks@[k1].pos == targets[k1]);
        assert(change.ticks@[k2].pos == targets[k2]);
    }
    if -3 <= p.x - pos.x <= 3 && -2 <= p.y - pos.y <= 2 && -3 <= p.z - pos.z <= 3 && p != pos
        && level.spec_block_state(p) == state {
        lemma_cube_scan_reaches_offset(pos, p);
        let i = cube_index(p.x - pos.x, p.y - pos.y, p.z - pos.z);
        lemma_positions_to_wake_include(
            level,
            pos,
            state,
            change.new_state,
            cube_size() as nat,
            i,
        );
        let k = choose|k: int| 0 <= k < targets.len() && targets[k] == p;
        assert(change.ticks@[k].pos == targets[k]);
    }
}

} // verus!
