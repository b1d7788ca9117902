//! Combat: a state machine of five flags over the player, the enemy, the
//! floors and three timers.
//!
//! Quantities are exact fixed-point numbers. Attack, defense and health are
//! counted in thousandths of a point, the regeneration rate in thousandths
//! of a point per second, and time in milliseconds.

use crate::feature::inventory::{lemma_removed_amount, saturating_sum};
use crate::feature::{
    views, Feature, FeatureEntry, FeatureEntryView, FeatureInfo, FeatureInfoView,
};
use crate::message::{counted_down, MessageManager, MessageView};
use crate::state::{Key, State, StateView};
use crate::util::flag::{drain, run, run_order, Flag, Flags, Variant};
use crate::util::style::{tinted, unstyled, Styled, StyledView, Tint};
use crate::util::text::{decimal, fixed2, push_decimal, push_fixed2};
use vstd::prelude::*;
use vstd::string::StringExecFns;

verus! {

/// Someone who fights: the player, or an enemy. In thousandths of a point.
#[derive(Clone, Copy, Debug, PartialEq, Eq)]
pub struct Living {
    pub attack: u64,
    pub defense: u64,
    pub health: u64,
    pub max_health: u64,
}

impl Living {
    /// Health is within `[0, max_health]`.
    pub open spec fn wf(self) -> bool {
        self.health <= self.max_health
    }
}

/// Everything the combat works on.
#[derive(Clone, Copy, Debug, PartialEq, Eq)]
pub struct FightData {
    pub player: Living,
    /// The enemy, while one is present.
    pub enemy: Option<Living>,
    /// The floor the player is on; floor 0 is safe.
    pub floor: u32,
    /// The highest floor that is unlocked.
    pub max_floor: u32,
    /// Enemies beaten toward unlocking the next floor.
    pub enemy_count: u32,
    /// Enemies to beat to unlock the next floor.
    pub enemy_required: u32,
    /// Milliseconds until an enemy appears.
    pub respawn_timer: u32,
    pub respawn_max: u32,
    /// Milliseconds until the player can attack again.
    pub attack_timer: u32,
    pub attack_max: u32,
    /// Milliseconds until the enemy attacks.
    pub enemy_timer: u32,
    pub enemy_max: u32,
    /// Experience needed for the next level.
    pub xp_to_next_level: u64,
    pub level: u32,
    /// Health regained on floor 0, in thousandths of a point per second.
    pub regen: u64,
}

impl FightData {
    /// Health within `[0, max_health]` for the player and the enemy, and
    /// the floor within `[0, max_floor]`.
    pub open spec fn wf(self) -> bool {
        &&& self.player.wf()
        &&& self.enemy matches Some(enemy) ==> enemy.wf()
        &&& self.floor <= self.max_floor
    }

    /// The combat data with which a game begins.
    pub open spec fn initial() -> FightData {
        FightData {
            player: Living { attack: 1000, defense: 0, health: 10_000, max_health: 10_000 },
            enemy: None,
            floor: 0,
            max_floor: 1,
            enemy_count: 0,
            enemy_required: 10,
            respawn_timer: 0,
            respawn_max: 3000,
            attack_timer: 1500,
            attack_max: 1500,
            enemy_timer: 2000,
            enemy_max: 2000,
            xp_to_next_level: 10,
            level: 1,
            regen: 500,
        }
    }
}

impl Default for FightData {
    /// The combat data with which a game begins.
    fn default() -> (data: Self)
        ensures
            data == FightData::initial(),
            data.wf(),
    {
        FightData {
            player: Living { attack: 1000, defense: 0, health: 10_000, max_health: 10_000 },
            enemy: None,
            floor: 0,
            max_floor: 1,
            enemy_count: 0,
            enemy_required: 10,
            respawn_timer: 0,
            respawn_max: 3000,
            attack_timer: 1500,
            attack_max: 1500,
            enemy_timer: 2000,
            enemy_max: 2000,
            xp_to_next_level: 10,
            level: 1,
            regen: 500,
        }
    }
}

/// The pending transitions of the combat, in the order in which a drain
/// handles them.
#[derive(Clone, Copy, Debug, PartialEq, Eq)]
pub enum FightFlag {
    /// The player strikes the enemy.
    Attack,
    /// The enemy strikes the player.
    EnemyAttack,
    /// An enemy appears.
    Respawn,
    /// The enemy was beaten.
    EnemyDead,
    /// The player was beaten.
    PlayerDead,
}

impl Variant for FightFlag {
    open spec fn count() -> nat {
        5
    }

    open spec fn index(self) -> nat {
        match self {
            FightFlag::Attack => 0,
            FightFlag::EnemyAttack => 1,
            FightFlag::Respawn => 2,
            FightFlag::EnemyDead => 3,
            FightFlag::PlayerDead => 4,
        }
    }

    open spec fn at(i: nat) -> Self {
        if i == 0 {
            FightFlag::Attack
        } else if i == 1 {
            FightFlag::EnemyAttack
        } else if i == 2 {
            FightFlag::Respawn
        } else if i == 3 {
            FightFlag::EnemyDead
        } else {
            FightFlag::PlayerDead
        }
    }

    proof fn lemma_index(self) {
    }

    proof fn lemma_at(i: nat) {
    }

    fn cardinality() -> (n: usize) {
        5
    }

    fn to_index(&self) -> (i: usize) {
        match self {
            FightFlag::Attack => 0,
            FightFlag::EnemyAttack => 1,
            FightFlag::Respawn => 2,
            FightFlag::EnemyDead => 3,
            FightFlag::PlayerDead => 4,
        }
    }
}

/// The damage that an attack does against a defense: their difference, and
/// nothing where the defense is at least the attack.
pub open spec fn damage(attack: u64, defense: u64) -> u64 {
    if attack > defense {
        (attack - defense) as u64
    } else {
        0
    }
}

/// `target` after it was struck with `attack`: its health goes down by the
/// damage, and no further than to zero.
pub open spec fn struck(target: Living, attack: u64) -> Living {
    let lost = damage(attack, target.defense);
    Living {
        health: if target.health > lost {
            (target.health - lost) as u64
        } else {
            0
        },
        ..target
    }
}

/// The enemy of a floor: attack `0.9 + 0.1 * floor`, defense
/// `0.1 * (floor - 5)` from floor 5 on, health `3 + 2 * floor`.
pub open spec fn enemy_of_floor(floor: u32) -> Living {
    Living {
        attack: (900 + 100 * floor) as u64,
        defense: if floor >= 5 {
            (100 * (floor - 5)) as u64
        } else {
            0
        },
        health: (3000 + 2000 * floor) as u64,
        max_health: (3000 + 2000 * floor) as u64,
    }
}

/// Ten points times `1.15` to the power of `level`, in thousandths: each
/// step multiplies by `115 / 100`, rounds down, and stops at `u64::MAX`.
pub open spec fn growth(level: nat) -> nat
    decreases level,
{
    if level == 0 {
        10_000
    } else {
        let next = growth((level - 1) as nat) * 115 / 100;
        if next > u64::MAX {
            u64::MAX as nat
        } else {
            next
        }
    }
}

/// By how much the experience needed for the next level grows when
/// `level` is left behind: `growth(level)` in whole points.
pub open spec fn xp_increase(level: u32) -> u64 {
    (growth(level as nat) / 1000) as u64
}

/// `n + 1`, or `u32::MAX` where `n` is that already.
pub open spec fn saturating_next(n: u32) -> u32 {
    if n < u32::MAX {
        (n + 1) as u32
    } else {
        n
    }
}

/// Levels up as long as the experience `xp` reaches the threshold: each
/// level takes the threshold out of `xp`, raises the threshold by
/// `xp_increase` of the level left behind, and adds one to the level.
/// The result is what is left of `xp`, the threshold and the level. A
/// threshold of zero stands for no further level.
pub open spec fn leveled(xp: u64, threshold: u64, level: u32) -> (u64, u64, u32)
    decreases xp,
{
    if threshold > 0 && xp >= threshold {
        leveled(
            (xp - threshold) as u64,
            saturating_sum(threshold, xp_increase(level)),
            saturating_next(level),
        )
    } else {
        (xp, threshold, level)
    }
}

/// The state after the player struck: the enemy, if one is present, is hit
/// and the attack timer starts again.
pub open spec fn after_attack(s: StateView) -> StateView {
    match s.fight.enemy {
        Some(enemy) => StateView {
            fight: FightData {
                enemy: Some(struck(enemy, s.fight.player.attack)),
                attack_timer: s.fight.attack_max,
                ..s.fight
            },
            ..s
        },
        None => s,
    }
}

/// The state after the enemy struck: the player is hit, if an enemy is
/// present, and the enemy's timer starts again.
pub open spec fn after_enemy_attack(s: StateView) -> StateView {
    match s.fight.enemy {
        Some(enemy) => StateView {
            fight: FightData {
                player: struck(s.fight.player, enemy.attack),
                enemy_timer: s.fight.enemy_max,
                ..s.fight
            },
            ..s
        },
        None => s,
    }
}

/// The state after an enemy appeared: above floor 0 the enemy of the floor
/// is present and its timer starts again.
pub open spec fn after_respawn(s: StateView) -> StateView {
    if s.fight.floor > 0 {
        StateView {
            fight: FightData {
                enemy: Some(enemy_of_floor(s.fight.floor)),
                enemy_timer: s.fight.enemy_max,
                ..s.fight
            },
            ..s
        }
    } else {
        s
    }
}

/// The state after the enemy was beaten. The enemy is gone and its timer
/// starts again. The kill counts toward the next floor, on whatever floor
/// it was made: with the required number reached, the highest floor goes
/// up by one, the count starts at zero and one more kill is required next
/// time. The player gets as much gold and as much experience as the number
/// of the floor, and levels up as often as the experience allows.
pub open spec fn after_enemy_dead(s: StateView) -> StateView {
    let f = s.fight;
    let count = saturating_next(f.enemy_count);
    let unlocked = count >= f.enemy_required;
    let rewarded = s.inventory.added("Gold"@, f.floor as u64).added("XP"@, f.floor as u64);
    let xp = rewarded.amount_of("XP"@);
    let (rest, threshold, level) = leveled(xp, f.xp_to_next_level, f.level);
    StateView {
        fight: FightData {
            enemy: None,
            enemy_timer: f.enemy_max,
            enemy_count: if unlocked {
                0
            } else {
                count
            },
            enemy_required: if unlocked {
                saturating_next(f.enemy_required)
            } else {
                f.enemy_required
            },
            max_floor: if unlocked {
                saturating_next(f.max_floor)
            } else {
                f.max_floor
            },
            xp_to_next_level: threshold,
            level,
            ..f
        },
        inventory: if rest < xp {
            rewarded.removed("XP"@, (xp - rest) as u64)
        } else {
            rewarded
        },
        ..s
    }
}

/// The state after the player was beaten: the player is healed fully and
/// back on floor 0, the enemy is gone, and of the gold half is left,
/// rounded down.
pub open spec fn after_player_dead(s: StateView) -> StateView {
    let gold = s.inventory.amount_of("Gold"@);
    StateView {
        fight: FightData {
            player: Living { health: s.fight.player.max_health, ..s.fight.player },
            enemy: None,
            floor: 0,
            ..s.fight
        },
        inventory: s.inventory.removed("Gold"@, (gold - gold / 2) as u64),
        ..s
    }
}

impl Flag<State> for FightFlag {
    open spec fn inv(ctx: State) -> bool {
        ctx.wf()
    }

    open spec fn handled(self, ctx: StateView) -> StateView {
        match self {
            FightFlag::Attack => after_attack(ctx),
            FightFlag::EnemyAttack => after_enemy_attack(ctx),
            FightFlag::Respawn => after_respawn(ctx),
            FightFlag::EnemyDead => after_enemy_dead(ctx),
            FightFlag::PlayerDead => after_player_dead(ctx),
        }
    }

    /// An attack that leaves the enemy without health raises `EnemyDead`;
    /// an enemy's attack that leaves the player without health raises
    /// `PlayerDead`; nothing else is raised.
    open spec fn raised(self, ctx: StateView) -> Set<FightFlag> {
        match (self, ctx.fight.enemy) {
            (FightFlag::Attack, Some(enemy)) => if struck(enemy, ctx.fight.player.attack).health
                == 0 {
                set![FightFlag::EnemyDead]
            } else {
                Set::empty()
            },
            (FightFlag::EnemyAttack, Some(enemy)) => if struck(ctx.fight.player, enemy.attack).health
                == 0 {
                set![FightFlag::PlayerDead]
            } else {
                Set::empty()
            },
            _ => Set::empty(),
        }
    }

    fn handle(&self, flags: &mut Flags<Self, State>, ctx: &mut State) {
        match self {
            FightFlag::Attack => {
                if let Some(enemy) = ctx.fight.enemy {
                    let hit = strike(enemy, ctx.fight.player.attack);
                    ctx.fight.enemy = Some(hit);
                    ctx.fight.attack_timer = ctx.fight.attack_max;
                    if hit.health == 0 {
                        flags.mark(FightFlag::EnemyDead);
                    }
                }
            },
            FightFlag::EnemyAttack => {
                if let Some(enemy) = ctx.fight.enemy {
                    ctx.fight.player = strike(ctx.fight.player, enemy.attack);
                    ctx.fight.enemy_timer = ctx.fight.enemy_max;
                    if ctx.fight.player.health == 0 {
                        flags.mark(FightFlag::PlayerDead);
                    }
                }
            },
            FightFlag::Respawn => {
                if ctx.fight.floor > 0 {
                    ctx.fight.enemy = Some(get_enemy(ctx.fight.floor));
                    ctx.fight.enemy_timer = ctx.fight.enemy_max;
                }
            },
            FightFlag::EnemyDead => {
                ctx.fight.enemy = None;
                ctx.fight.enemy_timer = ctx.fight.enemy_max;
                let count = ctx.fight.enemy_count.saturating_add(1);
                if count >= ctx.fight.enemy_required {
                    ctx.fight.enemy_count = 0;
                    ctx.fight.enemy_required = ctx.fight.enemy_required.saturating_add(1);
                    ctx.fight.max_floor = ctx.fight.max_floor.saturating_add(1);
                } else {
                    ctx.fight.enemy_count = count;
                }
                ctx.inventory.add("Gold", ctx.fight.floor as u64);
                ctx.inventory.add("XP", ctx.fight.floor as u64);
                let xp = ctx.inventory.get_amount("XP");
                let (rest, threshold, level) = level_up(
                    xp,
                    ctx.fight.xp_to_next_level,
                    ctx.fight.level,
                );
                if rest < xp {
                    ctx.inventory.remove("XP", xp - rest);
                }
                ctx.fight.xp_to_next_level = threshold;
                ctx.fight.level = level;
            },
            FightFlag::PlayerDead => {
                ctx.fight.player.health = ctx.fight.player.max_health;
                ctx.fight.enemy = None;
                ctx.fight.floor = 0;
                let gold = ctx.inventory.get_amount("Gold");
                ctx.inventory.remove("Gold", gold - gold / 2);
            },
        }
        assert(flags@ =~= old(flags)@.union(self.raised(old(ctx)@)));
    }
}

/// Strikes `target` with `attack`.
pub fn strike(target: Living, attack: u64) -> (hit: Living)
    ensures
        hit == struck(target, attack),
{
    let lost = if attack > target.defense {
        attack - target.defense
    } else {
        0
    };
    Living {
        attack: target.attack,
        defense: target.defense,
        health: if target.health > lost {
            target.health - lost
        } else {
            0
        },
        max_health: target.max_health,
    }
}

/// The enemy that appears on `floor`.
pub fn get_enemy(floor: u32) -> (enemy: Living)
    ensures
        enemy == enemy_of_floor(floor),
        enemy.wf(),
{
    let floor = floor as u64;
    Living {
        attack: 900 + floor * 100,
        defense: if floor >= 5 {
            (floor - 5) * 100
        } else {
            0
        },
        health: 3000 + floor * 2000,
        max_health: 3000 + floor * 2000,
    }
}

/// Once the growth has reached `u64::MAX` it stays there.
proof fn lemma_growth_stays(from: nat, to: nat)
    requires
        from <= to,
        growth(from) == u64::MAX,
    ensures
        growth(to) == u64::MAX,
    decreases to,
{
    if from < to {
        lemma_growth_stays(from, (to - 1) as nat);
    }
}

/// By how much the experience needed for the next level grows when
/// `level` is left behind.
pub fn xp_increase_of(level: u32) -> (increase: u64)
    ensures
        increase == xp_increase(level),
{
    let mut value: u64 = 10_000;
    let mut k: u32 = 0;
    while k < level && value < u64::MAX
        invariant
            k <= level,
            value == growth(k as nat),
        decreases level - k,
    {
        let next: u128 = value as u128 * 115 / 100;
        value = if next > u64::MAX as u128 {
            u64::MAX
        } else {
            next as u64
        };
        k += 1;
    }
    proof {
        if k < level {
            lemma_growth_stays(k as nat, level as nat);
        }
    }
    value / 1000
}

/// Levels up as long as the experience `xp` reaches the threshold.
pub fn level_up(xp: u64, threshold: u64, level: u32) -> (r: (u64, u64, u32))
    ensures
        r == leveled(xp, threshold, level),
        r.0 <= xp,
{
    let mut rest = xp;
    let mut next = threshold;
    let mut reached = level;
    while next > 0 && rest >= next
        invariant
            rest <= xp,
            leveled(rest, next, reached) == leveled(xp, threshold, level),
        decreases rest,
    {
        rest -= next;
        next = next.saturating_add(xp_increase_of(reached));
        reached = reached.saturating_add(1);
    }
    (rest, next, reached)
}

/// The data after the player went to `floor`: on a new floor the three
/// timers start again and the enemy is gone; staying changes nothing.
pub open spec fn moved(f: FightData, floor: u32) -> FightData {
    if floor != f.floor {
        FightData {
            floor,
            respawn_timer: f.respawn_max,
            attack_timer: f.attack_max,
            enemy_timer: f.enemy_max,
            enemy: None,
            ..f
        }
    } else {
        f
    }
}

/// Whether `key` is the attack key while the attack timer is ready.
pub open spec fn attacks(key: Key, f: FightData) -> bool {
    key == Key::Char('a') && f.attack_timer == 0
}

/// The data after the input was processed: `Left` and `Right` move one
/// floor down or up within `[0, max_floor]`; the attack key, with the
/// attack timer ready, starts that timer again; any other key does
/// nothing.
pub open spec fn after_input(key: Key, f: FightData) -> FightData {
    match key {
        Key::Left => moved(
            f,
            if f.floor > 0 {
                (f.floor - 1) as u32
            } else {
                0
            },
        ),
        Key::Right => moved(
            f,
            if f.floor < f.max_floor {
                (f.floor + 1) as u32
            } else {
                f.max_floor
            },
        ),
        _ => if attacks(key, f) {
            FightData { attack_timer: f.attack_max, ..f }
        } else {
            f
        },
    }
}

/// What the input raises: `Attack`, for the attack key with the attack
/// timer ready.
pub open spec fn input_raises(key: Key, f: FightData) -> Set<FightFlag> {
    if attacks(key, f) {
        set![FightFlag::Attack]
    } else {
        Set::empty()
    }
}

/// Whether the respawn timer runs: it has time left, no enemy is present
/// and the player is above floor 0.
pub open spec fn respawn_runs(f: FightData) -> bool {
    f.respawn_timer > 0 && f.enemy is None && f.floor > 0
}

/// Whether the enemy's timer runs: it has time left and an enemy is
/// present.
pub open spec fn enemy_runs(f: FightData) -> bool {
    f.enemy_timer > 0 && f.enemy is Some
}

/// The data after `delta` milliseconds passed on the timers. The respawn
/// timer starts again when it reaches zero; the attack timer runs while it
/// has time left and an enemy is present.
pub open spec fn after_timers(delta: u32, f: FightData) -> FightData {
    FightData {
        respawn_timer: if respawn_runs(f) {
            if counted_down(f.respawn_timer, delta) == 0 {
                f.respawn_max
            } else {
                counted_down(f.respawn_timer, delta)
            }
        } else {
            f.respawn_timer
        },
        attack_timer: if f.attack_timer > 0 && f.enemy is Some {
            counted_down(f.attack_timer, delta)
        } else {
            f.attack_timer
        },
        enemy_timer: if enemy_runs(f) {
            counted_down(f.enemy_timer, delta)
        } else {
            f.enemy_timer
        },
        ..f
    }
}

/// What the timers raise after `delta` milliseconds: `Respawn` when the
/// respawn timer reaches zero, `EnemyAttack` when the enemy's does.
pub open spec fn timers_raise(delta: u32, f: FightData) -> Set<FightFlag> {
    let respawn: Set<FightFlag> = if respawn_runs(f) && counted_down(f.respawn_timer, delta) == 0 {
        set![FightFlag::Respawn]
    } else {
        Set::empty()
    };
    let attack: Set<FightFlag> = if enemy_runs(f) && counted_down(f.enemy_timer, delta) == 0 {
        set![FightFlag::EnemyAttack]
    } else {
        Set::empty()
    };
    respawn.union(attack)
}

/// The data after `delta` milliseconds of rest: on floor 0 the player
/// regains `regen` per second, up to `max_health`.
pub open spec fn regenerated(delta: u32, f: FightData) -> FightData {
    if f.floor == 0 && f.player.health <= f.player.max_health {
        let gained = delta * f.regen / 1000;
        FightData {
            player: Living {
                health: if f.player.health + gained > f.player.max_health {
                    f.player.max_health
                } else {
                    (f.player.health + gained) as u64
                },
                ..f.player
            },
            ..f
        }
    } else {
        f
    }
}

/// One tick of the combat: the key of the state is processed, the queue is
/// drained, `delta` milliseconds pass on the timers, and the player rests.
/// The result is the state after the tick and the queue for the next one.
pub open spec fn tick(delta: u32, s: StateView, marked: Set<FightFlag>) -> (
    StateView,
    Set<FightFlag>,
) {
    let struck = StateView { fight: after_input(s.key, s.fight), ..s };
    let (drained, raised) = drain::<State, FightFlag>(
        marked.union(input_raises(s.key, s.fight)),
        struck,
    );
    (
        StateView { fight: regenerated(delta, after_timers(delta, drained.fight)), ..drained },
        raised.union(timers_raise(delta, drained.fight)),
    )
}

/// The combat feature: the player moves between floors, attacks enemies
/// and collects gold and experience.
pub struct FightFeature {
    pub flags: Flags<FightFlag, State>,
}

impl Default for FightFeature {
    /// The feature with nothing pending.
    fn default() -> (feature: FightFeature)
        ensures
            feature.flags.wf(),
            feature.flags@ == Set::<FightFlag>::empty(),
    {
        FightFeature { flags: Flags::new() }
    }
}

/// Processes the input of one tick.
pub fn process_input(flags: &mut FightFeature, key: Key, data: &mut FightData)
    requires
        old(flags).flags.wf(),
    ensures
        final(flags).flags.wf(),
        *final(data) == after_input(key, *old(data)),
        final(flags).flags@ == old(flags).flags@.union(input_raises(key, *old(data))),
{
    match key {
        Key::Left => {
            if data.floor > 0 {
                data.floor = data.floor - 1;
                data.respawn_timer = data.respawn_max;
                data.attack_timer = data.attack_max;
                data.enemy_timer = data.enemy_max;
                data.enemy = None;
            }
        },
        Key::Right => {
            if data.floor != data.max_floor {
                data.floor = if data.floor < data.max_floor {
                    data.floor + 1
                } else {
                    data.max_floor
                };
                data.respawn_timer = data.respawn_max;
                data.attack_timer = data.attack_max;
                data.enemy_timer = data.enemy_max;
                data.enemy = None;
            }
        },
        Key::Char(c) => {
            if c == 'a' && data.attack_timer == 0 {
                data.attack_timer = data.attack_max;
                flags.flags.mark(FightFlag::Attack);
            }
        },
        _ => {},
    }
    assert(flags.flags@ =~= old(flags).flags@.union(input_raises(key, *old(data))));
}

/// Lets `delta` milliseconds pass on the timers, and raises the flags of
/// the timers that are up.
pub fn update_timers(flags: &mut FightFeature, delta: u32, data: &mut FightData)
    requires
        old(flags).flags.wf(),
    ensures
        final(flags).flags.wf(),
        *final(data) == after_timers(delta, *old(data)),
        final(flags).flags@ == old(flags).flags@.union(timers_raise(delta, *old(data))),
{
    if data.respawn_timer > 0 && data.enemy.is_none() && data.floor > 0 {
        data.respawn_timer = data.respawn_timer.saturating_sub(delta);
        if data.respawn_timer == 0 {
            data.respawn_timer = data.respawn_max;
            flags.flags.mark(FightFlag::Respawn);
        }
    }
    if data.attack_timer > 0 && data.enemy.is_some() {
        data.attack_timer = data.attack_timer.saturating_sub(delta);
    }
    if data.enemy_timer > 0 && data.enemy.is_some() {
        data.enemy_timer = data.enemy_timer.saturating_sub(delta);
        if data.enemy_timer == 0 {
            flags.flags.mark(FightFlag::EnemyAttack);
        }
    }
    assert(flags.flags@ =~= old(flags).flags@.union(timers_raise(delta, *old(data))));
}

/// Lets the player rest for `delta` milliseconds.
pub fn regenerate(delta: u32, data: &mut FightData)
    ensures
        *final(data) == regenerated(delta, *old(data)),
{
    if data.floor == 0 && data.player.health <= data.player.max_health {
        assert(delta * data.regen <= 0xffff_ffff * 0xffff_ffff_ffff_ffff) by (nonlinear_arith)
            requires
                0 <= delta <= 0xffff_ffff,
                0 <= data.regen <= 0xffff_ffff_ffff_ffff,
        ;
        let gained: u128 = delta as u128 * data.regen as u128 / 1000;
        if data.player.health as u128 + gained > data.player.max_health as u128 {
            data.player.health = data.player.max_health;
        } else {
            data.player.health = (data.player.health as u128 + gained) as u64;
        }
    }
}

/// The first line of the combat: floor, gold, level and experience.
pub open spec fn status_text(s: StateView) -> Seq<char> {
    "Floor: "@ + decimal(s.fight.floor as nat) + " | Gold: "@ + decimal(
        s.inventory.amount_of("Gold"@) as nat,
    ) + " | Level: "@ + decimal(s.fight.level as nat) + " | XP: "@ + decimal(
        s.inventory.amount_of("XP"@) as nat,
    ) + "/"@ + decimal(s.fight.xp_to_next_level as nat)
}

/// The line of an enemy: the progress on the floor, the defense where the
/// enemy has one, its health, and the time until it attacks.
pub open spec fn enemy_text(f: FightData, enemy: Living) -> Seq<char> {
    "Enemy goal: "@ + decimal(f.enemy_count as nat) + "/"@ + decimal(f.enemy_required as nat)
        + " |"@ + (if enemy.defense > 0 {
        " Enemy defense: "@ + fixed2(enemy.defense as nat) + " |"@
    } else {
        Seq::empty()
    }) + " Enemy HP: "@ + fixed2(enemy.health as nat) + " | Enemy attack: "@ + fixed2(
        f.enemy_timer as nat,
    )
}

/// The second line of the combat: the time until an enemy appears while
/// the respawn timer runs, else the enemy, or that there is none.
pub open spec fn encounter_text(f: FightData) -> Seq<char> {
    if f.respawn_timer != f.respawn_max {
        "Respawn in "@ + fixed2(f.respawn_timer as nat)
    } else {
        match f.enemy {
            Some(enemy) => enemy_text(f, enemy),
            None => "No enemy"@,
        }
    }
}

/// The third line of the combat: the player's health and attack, and the
/// time until the next attack.
pub open spec fn player_text(f: FightData) -> Seq<char> {
    "Player HP: "@ + fixed2(f.player.health as nat) + "/"@ + fixed2(f.player.max_health as nat)
        + " | Damage: "@ + fixed2(f.player.attack as nat) + " | Attack: "@ + fixed2(
        f.attack_timer as nat,
    )
}

impl Feature for FightFeature {
    open spec fn wf(&self) -> bool {
        self.flags.wf()
    }

    open spec fn info() -> FeatureInfoView {
        FeatureInfoView {
            key: Key::Char('f'),
            name: tinted("Fight"@, Tint::Red),
            description: tinted("Fight enemies, collect gold and XP."@, Tint::DarkGrey),
            visible_count: 0,
            unlock_count: 10,
            counter_string: None,
        }
    }

    open spec fn unlocked(state: StateView) -> bool {
        true
    }

    open spec fn top_bar(state: StateView, bar: Seq<StyledView>) -> bool {
        bar == seq![
            unstyled(" [<]Go down a floor "@),
            unstyled("[>]Go up a floor "@),
            unstyled("[a]Attack"@),
        ]
    }

    /// One tick of the combat: input, drain, timers, rest, in this order.
    /// The messages stay as they are.
    open spec fn ticked(
        self,
        delta: u32,
        state: StateView,
        messages: Seq<MessageView>,
        next: (Self, StateView, Seq<MessageView>),
    ) -> bool {
        &&& (next.1, next.0.flags@) == tick(delta, state, self.flags@)
        &&& next.2 == messages
    }

    /// Three lines: the status, the encounter, the player.
    open spec fn rendered(
        self,
        state: StateView,
        features: Seq<FeatureEntryView>,
        lines: Seq<StyledView>,
    ) -> bool {
        lines == seq![
            unstyled(status_text(state)),
            unstyled(encounter_text(state.fight)),
            unstyled(player_text(state.fight)),
        ]
    }

    fn get_info(&self) -> (info: FeatureInfo) {
        FeatureInfo {
            key: Key::Char('f'),
            name: Styled::tinted("Fight".to_owned(), Tint::Red),
            description: Styled::tinted(
                "Fight enemies, collect gold and XP.".to_owned(),
                Tint::DarkGrey,
            ),
            visible_count: 0,
            unlock_count: 10,
            counter_string: None,
        }
    }

    fn get_top_bar(&self, state: &State) -> (bar: Vec<Styled>) {
        let mut bar: Vec<Styled> = Vec::new();
        bar.push(Styled::plain(" [<]Go down a floor ".to_owned()));
        bar.push(Styled::plain("[>]Go up a floor ".to_owned()));
        bar.push(Styled::plain("[a]Attack".to_owned()));
        assert(views(bar@) =~= seq![
            unstyled(" [<]Go down a floor "@),
            unstyled("[>]Go up a floor "@),
            unstyled("[a]Attack"@),
        ]);
        bar
    }

    fn is_unlocked(&self, state: &State) -> (unlocked: bool) {
        true
    }

    fn update(&mut self, delta: u32, state: &mut State, message: &mut MessageManager) {
        process_input(self, state.key, &mut state.fight);
        self.flags.handle(state);
        update_timers(self, delta, &mut state.fight);
        regenerate(delta, &mut state.fight);
    }

    fn render(&self, state: &State, features: &Vec<FeatureEntry>) -> (lines: Vec<Styled>) {
        let data = &state.fight;
        let mut status = "Floor: ".to_owned();
        push_decimal(&mut status, data.floor as u64);
        status.append(" | Gold: ");
        push_decimal(&mut status, state.inventory.get_amount("Gold"));
        status.append(" | Level: ");
        push_decimal(&mut status, data.level as u64);
        status.append(" | XP: ");
        push_decimal(&mut status, state.inventory.get_amount("XP"));
        status.append("/");
        push_decimal(&mut status, data.xp_to_next_level);

        let encounter = if data.respawn_timer != data.respawn_max {
            let mut text = "Respawn in ".to_owned();
            push_fixed2(&mut text, data.respawn_timer as u64);
            text
        } else {
            match data.enemy {
                Some(enemy) => {
                    let mut text = "Enemy goal: ".to_owned();
                    push_decimal(&mut text, data.enemy_count as u64);
                    text.append("/");
                    push_decimal(&mut text, data.enemy_required as u64);
                    text.append(" |");
                    if enemy.defense > 0 {
                        text.append(" Enemy defense: ");
                        push_fixed2(&mut text, enemy.defense);
                        text.append(" |");
                    }
                    text.append(" Enemy HP: ");
                    push_fixed2(&mut text, enemy.health);
                    text.append(" | Enemy attack: ");
                    push_fixed2(&mut text, data.enemy_timer as u64);
                    proof {
                        if enemy.defense == 0 {
                            let head = "Enemy goal: "@ + decimal(data.enemy_count as nat) + "/"@
                                + decimal(data.enemy_required as nat) + " |"@;
                            assert(head + Seq::<char>::empty() =~= head);
                        }
                        assert(text@ =~= enemy_text(*data, enemy));
                    }
                    text
                },
                None => "No enemy".to_owned(),
            }
        };

        let mut player = "Player HP: ".to_owned();
        push_fixed2(&mut player, data.player.health);
        player.append("/");
        push_fixed2(&mut player, data.player.max_health);
        player.append(" | Damage: ");
        push_fixed2(&mut player, data.player.attack);
        player.append(" | Attack: ");
        push_fixed2(&mut player, data.attack_timer as u64);

        let mut lines: Vec<Styled> = Vec::new();
        lines.push(Styled::plain(status));
        lines.push(Styled::plain(encounter));
        lines.push(Styled::plain(player));
        assert(views(lines@) =~= seq![
            unstyled(status_text(state@)),
            unstyled(encounter_text(state.fight)),
            unstyled(player_text(state.fight)),
        ]);
        lines
    }
}

/// The damage of an attack is the attack less the defense, and never
/// negative: a defense can cancel an attack, it cannot heal.
pub proof fn lemma_damage_is_clamped(attack: u64, defense: u64)
    ensures
        damage(attack, defense) >= 0,
        attack - defense >= 0 ==> damage(attack, defense) == attack - defense,
        attack - defense < 0 ==> damage(attack, defense) == 0,
{
}

/// Whoever is struck loses exactly the damage, down to zero health at
/// most, and nothing else changes: so in both directions of the combat,
/// the player's attack against the enemy and the enemy's against the
/// player.
pub proof fn lemma_strikes_apply_damage(s: StateView)
    requires
        s.fight.enemy is Some,
    ensures
        ({
            let enemy = s.fight.enemy->0;
            let hit = after_attack(s).fight.enemy->0;
            let lost = damage(s.fight.player.attack, enemy.defense);
            &&& after_attack(s).fight.enemy is Some
            &&& hit.health == if enemy.health - lost > 0 {
                enemy.health - lost
            } else {
                0
            }
            &&& hit == (Living { health: hit.health, ..enemy })
        }),
        ({
            let enemy = s.fight.enemy->0;
            let hit = after_enemy_attack(s).fight.player;
            let lost = damage(enemy.attack, s.fight.player.defense);
            &&& hit.health == if s.fight.player.health - lost > 0 {
                s.fight.player.health - lost
            } else {
                0
            }
            &&& hit == (Living { health: hit.health, ..s.fight.player })
        }),
{
}

/// Levelling up takes out of the experience exactly what the levels
/// cost: what is left is less than the threshold of the next level, and
/// neither the threshold nor the level goes down.
pub proof fn lemma_leveled_bounds(xp: u64, threshold: u64, level: u32)
    requires
        threshold > 0,
    ensures
        leveled(xp, threshold, level).0 <= xp,
        leveled(xp, threshold, level).0 < leveled(xp, threshold, level).1,
        leveled(xp, threshold, level).1 >= threshold,
        leveled(xp, threshold, level).2 >= level,
    decreases xp,
{
    if xp >= threshold {
        lemma_leveled_bounds(
            (xp - threshold) as u64,
            saturating_sum(threshold, xp_increase(level)),
            saturating_next(level),
        );
    }
}

/// Handling a flag keeps health within `[0, max_health]` and the floor
/// within `[0, max_floor]`.
pub proof fn lemma_handled_keeps_bounds(flag: FightFlag, s: StateView)
    requires
        s.fight.wf(),
    ensures
        flag.handled(s).fight.wf(),
{
}

/// A pass over any run order keeps the bounds.
pub proof fn lemma_run_keeps_bounds(order: Seq<FightFlag>, s: StateView)
    requires
        s.fight.wf(),
    ensures
        run::<State, FightFlag>(order, s).0.fight.wf(),
    decreases order.len(),
{
    if order.len() > 0 {
        lemma_run_keeps_bounds(order.drop_last(), s);
        lemma_handled_keeps_bounds(order.last(), run::<State, FightFlag>(order.drop_last(), s).0);
    }
}

/// After any tick, from any state within the bounds and with any flags
/// pending, the player's health and the enemy's are within
/// `[0, max_health]` and the floor is within `[0, max_floor]`.
pub proof fn lemma_tick_keeps_bounds(delta: u32, s: StateView, marked: Set<FightFlag>)
    requires
        s.fight.wf(),
    ensures
        ({
            let after = tick(delta, s, marked).0.fight;
            &&& 0 <= after.player.health <= after.player.max_health
            &&& after.enemy matches Some(enemy) ==> 0 <= enemy.health <= enemy.max_health
            &&& 0 <= after.floor <= after.max_floor
        }),
{
    let struck = StateView { fight: after_input(s.key, s.fight), ..s };
    let pending = marked.union(input_raises(s.key, s.fight));
    lemma_run_keeps_bounds(run_order(pending, FightFlag::count()), struck);
}

/// When the player was beaten, half of the gold is left, rounded down:
/// never more than there was.
pub proof fn lemma_death_halves_gold(s: StateView)
    requires
        s.inventory.wf(),
    ensures
        after_player_dead(s).inventory.amount_of("Gold"@) == s.inventory.amount_of("Gold"@) / 2,
        after_player_dead(s).inventory.amount_of("Gold"@) <= s.inventory.amount_of("Gold"@),
{
    let gold = s.inventory.amount_of("Gold"@);
    lemma_removed_amount(s.inventory, "Gold"@, (gold - gold / 2) as u64, "Gold"@);
}

} // verus!
