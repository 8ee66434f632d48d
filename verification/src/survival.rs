//! Survival mode: endless play that grows harder with time and experience.

use vstd::prelude::*;
use crate::bonuses::components::BonusType;
use crate::bonuses::systems::SpawnBonusEvent;
use crate::creatures::components::CreatureType;
use crate::creatures::spawner::{available, is_pick_for, CreatureRegistry};
use crate::creatures::systems::SpawnCreatureEvent;
use crate::fixed::{clamp_u32, scale, scale_spec};
use crate::geometry::Vector;
use crate::player::components::Experience;
use crate::quests::builders::{
    repeat_creature, BossWaveBuilder, QuestBuilder, SpawnCommand, SwarmBuilder, TimedWaveBuilder,
};
use crate::rng::random_between;
use crate::weights::{lemma_weight_sum_monotonic, weight_sum, weighted_index};

verus! {

/// State of survival mode: times in milliseconds, difficulty in thousandths.
#[derive(Debug, Clone, Copy, PartialEq, Eq, Structural)]
pub struct SurvivalState {
    /// Total game time.
    pub game_time: u32,
    /// Time since the last creature spawn.
    pub spawn_timer: u32,
    /// Time since the last weapon drop.
    pub weapon_drop_timer: u32,
    /// Time since the last swarm.
    pub swarm_timer: u32,
    /// Spawn interval at the start.
    pub base_spawn_interval: u32,
    /// Current difficulty multiplier.
    pub difficulty: u32,
    /// Total experience earned.
    pub total_exp: u32,
    /// Number of creatures killed.
    pub kills: u32,
}

/// The shortest spawn interval.
pub const MIN_SPAWN_INTERVAL: u32 = 300;

/// Time between swarms.
pub const SWARM_INTERVAL: u32 = 60_000;

/// Time between weapon drops.
pub const WEAPON_DROP_INTERVAL: u32 = 30_000;

/// `a + b`, stopping at the top of `u32`.
pub open spec fn added(a: u32, b: u32) -> u32 {
    clamp_u32(a + b) as u32
}

/// The levels gained since the first.
pub open spec fn levels_gained(level: u32) -> int {
    if level >= 1 {
        level - 1
    } else {
        0
    }
}

/// The creatures that survival mode spawns, each with the game time, in
/// seconds, after which it appears.
pub open spec fn roster() -> Seq<(CreatureType, u32)> {
    seq![
        (CreatureType::Zombie, 0u32),
        (CreatureType::Spider, 10u32),
        (CreatureType::Beetle, 20u32),
        (CreatureType::Runner, 30u32),
        (CreatureType::Dog, 45u32),
        (CreatureType::Lizard, 60u32),
        (CreatureType::Phantom, 75u32),
        (CreatureType::AlienSpider, 90u32),
        (CreatureType::Exploder, 105u32),
        (CreatureType::AlienShooter, 120u32),
        (CreatureType::Necromancer, 135u32),
        (CreatureType::GiantSpider, 150u32),
        (CreatureType::Splitter, 165u32),
        (CreatureType::Giant, 180u32),
        (CreatureType::BossSpider, 240u32),
        (CreatureType::BossAlien, 300u32),
    ]
}

/// Whether entry `i` of the roster has appeared at `game_time`: the first
/// entry always, any other once its time has passed.
pub open spec fn appeared(i: int, game_time: u32) -> bool {
    i == 0 || game_time > roster()[i].1 * 1000
}

/// The creatures among the first `n` of the roster that have appeared.
pub open spec fn appeared_upto(game_time: u32, n: int) -> Seq<CreatureType>
    decreases n,
{
    if n <= 0 {
        Seq::empty()
    } else if appeared(n - 1, game_time) {
        appeared_upto(game_time, n - 1).push(roster()[n - 1].0)
    } else {
        appeared_upto(game_time, n - 1)
    }
}

/// The weight of the creature at place `i` of `count` available ones: the
/// earlier a creature, the higher its base weight; the higher the
/// difficulty, the more a later creature gains.
pub open spec fn pick_weight(count: int, i: int, difficulty: u32) -> int {
    clamp_u32((count - i) * (10_000 + difficulty * i))
}

/// The weights of `count` available creatures.
pub open spec fn pick_weights(count: int, difficulty: u32) -> Seq<u32> {
    Seq::new(count as nat, |i: int| pick_weight(count, i, difficulty) as u32)
}

impl Default for SurvivalState {
    fn default() -> (r: Self)
        ensures
            r == (SurvivalState {
                game_time: 0,
                spawn_timer: 0,
                weapon_drop_timer: 0,
                swarm_timer: 0,
                base_spawn_interval: 2000,
                difficulty: 1000,
                total_exp: 0,
                kills: 0,
            }),
    {
        SurvivalState {
            game_time: 0,
            spawn_timer: 0,
            weapon_drop_timer: 0,
            swarm_timer: 0,
            base_spawn_interval: 2000,
            difficulty: 1000,
            total_exp: 0,
            kills: 0,
        }
    }
}

impl SurvivalState {
    /// The share of the base interval that is left at the game time, in
    /// thousandths: it falls for five minutes, to no less than 150.
    pub open spec fn time_factor(self) -> int {
        if self.game_time / 300 > 850 {
            150
        } else {
            1000 - self.game_time / 300
        }
    }

    /// The spawn interval: the base interval times the time factor, and no
    /// less than the shortest interval.
    pub open spec fn spec_spawn_interval(self) -> int {
        if scale_spec(self.base_spawn_interval as int, self.time_factor()) < MIN_SPAWN_INTERVAL {
            MIN_SPAWN_INTERVAL as int
        } else {
            scale_spec(self.base_spawn_interval as int, self.time_factor())
        }
    }

    /// The difficulty for the experience earned: one, and a half more for
    /// every thousand points.
    pub open spec fn spec_difficulty(self) -> int {
        clamp_u32(1000 + self.total_exp / 2)
    }

    /// The number of creatures spawned at a time: one, and one more for every
    /// two whole points of difficulty, at most three.
    pub open spec fn spec_spawn_count(self) -> int {
        if 1 + self.difficulty / 2000 > 3 {
            3
        } else {
            1 + self.difficulty / 2000
        }
    }

    /// The wave that the game time stands for: a new one every fifteen
    /// seconds.
    pub open spec fn spec_effective_wave(self) -> int {
        self.game_time / 15_000 + 1
    }

    /// The state after `dt` milliseconds for a player with the given
    /// experience: every timer has run, and the difficulty follows the
    /// experience.
    pub open spec fn after_update(self, dt: u32, experience: Option<Experience>) -> SurvivalState {
        let total_exp = match experience {
            Some(e) => clamp_u32(e.current + levels_gained(e.level) * 100) as u32,
            None => self.total_exp,
        };
        let timed = SurvivalState {
            game_time: added(self.game_time, dt),
            spawn_timer: added(self.spawn_timer, dt),
            weapon_drop_timer: added(self.weapon_drop_timer, dt),
            swarm_timer: added(self.swarm_timer, dt),
            total_exp,
            ..self
        };
        SurvivalState { difficulty: timed.spec_difficulty() as u32, ..timed }
    }

    /// The current spawn interval.
    pub fn spawn_interval(&self) -> (r: u32)
        ensures
            r == self.spec_spawn_interval(),
            r >= MIN_SPAWN_INTERVAL,
    {
        let passed: u32 = self.game_time / 300;
        let factor: u32 = if passed > 850 {
            150
        } else {
            1000 - passed
        };
        let interval: u32 = scale(self.base_spawn_interval, factor);
        if interval < MIN_SPAWN_INTERVAL {
            MIN_SPAWN_INTERVAL
        } else {
            interval
        }
    }

    /// The difficulty for the experience earned.
    pub fn calculate_difficulty(&self) -> (r: u32)
        ensures
            r == self.spec_difficulty(),
    {
        1000u32.saturating_add(self.total_exp / 2)
    }

    /// The creatures that have appeared by the game time, in the order of
    /// their appearance.
    pub fn available_creatures(&self) -> (r: Vec<CreatureType>)
        ensures
            r@ == appeared_upto(self.game_time, 16),
            1 <= r@.len() <= 16,
            r@[0] == CreatureType::Zombie,
    {
        let mut creatures: Vec<CreatureType> = Vec::new();
        creatures.push(CreatureType::Zombie);
        if self.game_time > 10_000 {
            creatures.push(CreatureType::Spider);
        }
        if self.game_time > 20_000 {
            creatures.push(CreatureType::Beetle);
        }
        if self.game_time > 30_000 {
            creatures.push(CreatureType::Runner);
        }
        if self.game_time > 45_000 {
            creatures.push(CreatureType::Dog);
        }
        if self.game_time > 60_000 {
            creatures.push(CreatureType::Lizard);
        }
        if self.game_time > 75_000 {
            creatures.push(CreatureType::Phantom);
        }
        if self.game_time > 90_000 {
            creatures.push(CreatureType::AlienSpider);
        }
        if self.game_time > 105_000 {
            creatures.push(CreatureType::Exploder);
        }
        if self.game_time > 120_000 {
            creatures.push(CreatureType::AlienShooter);
        }
        if self.game_time > 135_000 {
            creatures.push(CreatureType::Necromancer);
        }
        if self.game_time > 150_000 {
            creatures.push(CreatureType::GiantSpider);
        }
        if self.game_time > 165_000 {
            creatures.push(CreatureType::Splitter);
        }
        if self.game_time > 180_000 {
            creatures.push(CreatureType::Giant);
        }
        if self.game_time > 240_000 {
            creatures.push(CreatureType::BossSpider);
        }
        if self.game_time > 300_000 {
            creatures.push(CreatureType::BossAlien);
        }
        proof {
            reveal_with_fuel(appeared_upto, 17);
            assert(creatures@ =~= appeared_upto(self.game_time, 16));
        }
        creatures
    }

    /// The weights with which `count` available creatures are drawn.
    fn creature_weights(&self, count: usize) -> (r: Vec<u32>)
        requires
            count <= 16,
        ensures
            r@ == pick_weights(count as int, self.difficulty),
    {
        let mut weights: Vec<u32> = Vec::new();
        let mut i: usize = 0;
        while i < count
            invariant
                i <= count <= 16,
                weights@.len() == i,
                forall|j: int|
                    0 <= j < i ==> weights@[j] == pick_weight(count as int, j, self.difficulty),
            decreases count - i,
        {
            proof {
                crate::fixed::lemma_product_bound(
                    self.difficulty as int,
                    i as int,
                    u32::MAX as int,
                    16,
                );
                crate::fixed::lemma_product_bound(
                    (count - i) as int,
                    10_000 + self.difficulty as int * i as int,
                    16,
                    10_000 + u32::MAX as int * 16,
                );
            }
            let gain: u128 = 10_000 + (self.difficulty as u128) * (i as u128);
            let weight: u128 = ((count - i) as u128) * gain;
            weights.push(
                if weight > u32::MAX as u128 {
                    u32::MAX
                } else {
                    weight as u32
                },
            );
            i += 1;
        }
        assert(weights@ =~= pick_weights(count as int, self.difficulty));
        weights
    }

    /// The creature that `roll` falls on among the available ones: the one
    /// whose share of the weights holds the roll, and the first for a roll at
    /// or beyond the sum of the weights.
    pub fn pick_for_roll(&self, roll: u32) -> (r: CreatureType)
        ensures
            ({
                let creatures = appeared_upto(self.game_time, 16);
                let weights = pick_weights(creatures.len() as int, self.difficulty);
                if roll >= weight_sum(weights, creatures.len() as int) {
                    r == creatures[0]
                } else {
                    exists|i: int|
                        0 <= i < creatures.len() && r == #[trigger] creatures[i] && weight_sum(
                            weights,
                            i,
                        ) <= roll < weight_sum(weights, i + 1)
                }
            }),
    {
        let creatures = self.available_creatures();
        let weights = self.creature_weights(creatures.len());
        match weighted_index(&weights, roll) {
            Some(k) => {
                proof {
                    lemma_weight_sum_monotonic(weights@, k + 1, creatures@.len() as int);
                }
                creatures[k]
            },
            None => creatures[0],
        }
    }

    /// The sum of the weights of the available creatures, as far as it fits.
    pub fn total_weight(&self) -> (r: u32)
        ensures
            ({
                let count = appeared_upto(self.game_time, 16).len() as int;
                r == clamp_u32(weight_sum(pick_weights(count, self.difficulty), count))
            }),
    {
        let creatures = self.available_creatures();
        let weights = self.creature_weights(creatures.len());
        let mut total: u128 = 0;
        let mut i: usize = 0;
        while i < weights.len()
            invariant
                i <= weights.len(),
                total == weight_sum(weights@, i as int),
                total <= i * 0xFFFF_FFFF,
            decreases weights.len() - i,
        {
            total = total + weights[i] as u128;
            i += 1;
        }
        if total > u32::MAX as u128 {
            u32::MAX
        } else {
            total as u32
        }
    }

    /// Draws a creature from the available ones, by their weights.
    pub fn pick_creature(&self) -> (r: CreatureType)
        ensures
            appeared_upto(self.game_time, 16).contains(r),
    {
        let total: u32 = self.total_weight();
        let roll: u32 = if total == 0 {
            0
        } else {
            random_between(0, total as i64 - 1) as u32
        };
        let picked = self.pick_for_roll(roll);
        proof {
            reveal_with_fuel(appeared_upto, 17);
        }
        picked
    }

    /// Lets `dt` milliseconds pass: every timer runs, the experience of the
    /// player, where there is one, becomes the total, and the difficulty
    /// follows it.
    pub fn update(&mut self, dt: u32, experience: Option<Experience>)
        ensures
            *final(self) == old(self).after_update(dt, experience),
    {
        let total_exp: u32 = match experience {
            Some(e) => {
                let earlier: u64 = (e.level.saturating_sub(1) as u64) * 100;
                let sum: u64 = e.current as u64 + earlier;
                if sum > u32::MAX as u64 {
                    u32::MAX
                } else {
                    sum as u32
                }
            },
            None => self.total_exp,
        };
        let timed = SurvivalState {
            game_time: self.game_time.saturating_add(dt),
            spawn_timer: self.spawn_timer.saturating_add(dt),
            weapon_drop_timer: self.weapon_drop_timer.saturating_add(dt),
            swarm_timer: self.swarm_timer.saturating_add(dt),
            base_spawn_interval: self.base_spawn_interval,
            difficulty: self.difficulty,
            total_exp,
            kills: self.kills,
        };
        let difficulty: u32 = timed.calculate_difficulty();
        *self = SurvivalState {
            game_time: timed.game_time,
            spawn_timer: timed.spawn_timer,
            weapon_drop_timer: timed.weapon_drop_timer,
            swarm_timer: timed.swarm_timer,
            base_spawn_interval: timed.base_spawn_interval,
            difficulty,
            total_exp: timed.total_exp,
            kills: timed.kills,
        };
    }

    /// Whether creatures are due: the spawn timer has reached the interval.
    pub open spec fn spawn_due(self) -> bool {
        self.spawn_timer >= self.spec_spawn_interval()
    }

    /// Where the spawn timer has reached the interval, resets it and returns
    /// how many creatures to spawn and for which wave; else returns `None`.
    pub fn take_spawn(&mut self) -> (r: Option<(u32, u32)>)
        ensures
            old(self).spawn_due() ==> r == Some(
                (old(self).spec_spawn_count() as u32, old(self).spec_effective_wave() as u32),
            ) && *final(self) == (SurvivalState { spawn_timer: 0, ..*old(self) }),
            !old(self).spawn_due() ==> r is None && *final(self) == *old(self),
    {
        if self.spawn_timer >= self.spawn_interval() {
            self.spawn_timer = 0;
            let by_difficulty: u32 = 1 + self.difficulty / 2000;
            let count: u32 = if by_difficulty > 3 {
                3
            } else {
                by_difficulty
            };
            Some((count, self.game_time / 15_000 + 1))
        } else {
            None
        }
    }

    /// Counts a kill.
    pub fn track_kill(&mut self)
        ensures
            *final(self) == (SurvivalState { kills: added(old(self).kills, 1), ..*old(self) }),
    {
        self.kills = self.kills.saturating_add(1);
    }

    /// Whether a weapon drop is due.
    pub open spec fn drop_due(self) -> bool {
        self.weapon_drop_timer >= WEAPON_DROP_INTERVAL
    }

    /// Where a weapon drop is due, resets its timer and returns the event for
    /// a weapon pickup at the player's position moved by `offset`.
    pub fn take_weapon_drop(&mut self, player: Vector, offset: Vector) -> (r: Option<SpawnBonusEvent>)
        ensures
            old(self).drop_due() ==> r == Some(
                SpawnBonusEvent {
                    bonus_type: BonusType::WeaponPickup,
                    position: Vector {
                        x: crate::fixed::clamp_i32(player.x + offset.x) as i32,
                        y: crate::fixed::clamp_i32(player.y + offset.y) as i32,
                    },
                },
            ) && *final(self) == (SurvivalState { weapon_drop_timer: 0, ..*old(self) }),
            !old(self).drop_due() ==> r is None && *final(self) == *old(self),
    {
        if self.weapon_drop_timer >= WEAPON_DROP_INTERVAL {
            self.weapon_drop_timer = 0;
            Some(
                SpawnBonusEvent {
                    bonus_type: BonusType::WeaponPickup,
                    position: Vector {
                        x: crate::fixed::saturate_i32(player.x as i128 + offset.x as i128),
                        y: crate::fixed::saturate_i32(player.y as i128 + offset.y as i128),
                    },
                },
            )
        } else {
            None
        }
    }

    /// Whether a swarm may start: the swarm timer has reached its interval,
    /// and the game has run for more than half a minute.
    pub open spec fn swarm_due(self) -> bool {
        self.swarm_timer >= SWARM_INTERVAL && self.game_time > 30_000
    }

    /// Whether a swarm may start.
    pub fn is_swarm_due(&self) -> (r: bool)
        ensures
            r == self.swarm_due(),
    {
        self.swarm_timer >= SWARM_INTERVAL && self.game_time > 30_000
    }
}

/// The kind of swarm that the rolls choose at the game time: after three
/// minutes a boss wave where the first roll out of a thousand is below 300;
/// else after a minute and a half a timed wave where the second is below
/// 500; else bursts.
#[derive(Debug, Clone, Copy, PartialEq, Eq, Structural)]
pub enum SwarmChoice {
    Boss,
    Timed,
    Bursts,
}

/// The kind of swarm that the rolls choose.
pub open spec fn swarm_choice(game_time: u32, boss_roll: u32, timed_roll: u32) -> SwarmChoice {
    if game_time > 180_000 && boss_roll < 300 {
        SwarmChoice::Boss
    } else if game_time > 90_000 && timed_roll < 500 {
        SwarmChoice::Timed
    } else {
        SwarmChoice::Bursts
    }
}

/// `base` and `per_point` for every whole point of difficulty, at most `cap`.
pub open spec fn by_difficulty(base: u32, per_point: u32, difficulty: u32, cap: u32) -> int {
    if base + per_point * (difficulty / 1000) > cap {
        cap as int
    } else {
        base + per_point * (difficulty / 1000)
    }
}

/// `base` and `per_point` for every whole point of difficulty, at most `cap`.
fn scaled_count(base: u32, per_point: u32, difficulty: u32, cap: u32) -> (r: u32)
    requires
        base <= 100,
        per_point <= 100,
    ensures
        r == by_difficulty(base, per_point, difficulty, cap),
{
    let points: u64 = (difficulty / 1000) as u64;
    assert(per_point as int * points as int <= 100 * 0xFFFF_FFFF) by (nonlinear_arith)
        requires
            per_point <= 100,
            points <= 0xFFFF_FFFF,
    ;
    let raw: u64 = base as u64 + (per_point as u64) * points;
    if raw > cap as u64 {
        cap
    } else {
        raw as u32
    }
}

/// The boss of a boss wave, by a roll of three.
pub open spec fn swarm_boss(roll: u32) -> CreatureType {
    if roll == 0 {
        CreatureType::BossSpider
    } else if roll == 1 {
        CreatureType::BossAlien
    } else {
        CreatureType::BossNest
    }
}

/// Whether `r` is the swarm of `creature` that the rolls choose at the given
/// game time and difficulty, with nothing released yet.
pub open spec fn is_swarm_of(
    r: QuestBuilder,
    game_time: u32,
    difficulty: u32,
    creature: CreatureType,
    boss_roll: u32,
    timed_roll: u32,
    boss_pick: u32,
) -> bool {
    match swarm_choice(game_time, boss_roll, timed_roll) {
        SwarmChoice::Boss => (r matches QuestBuilder::Boss(b) && b.minions@ == Seq::new(
            by_difficulty(5, 1, difficulty, 12) as nat,
            |j: int| creature,
        ) && b.boss == swarm_boss(boss_pick) && b.minion_interval == 300 && b.boss_delay == 2000
            && b.timer == 0 && b.boss_timer == 0 && b.minion_index == 0 && !b.boss_spawned),
        SwarmChoice::Timed => (r matches QuestBuilder::Timed(b) && b.creatures@ == Seq::new(
            by_difficulty(8, 2, difficulty, 20) as nat,
            |j: int| creature,
        ) && b.spawn_interval == 300 && b.timer == 0 && b.current_index == 0 && !b.spawned_all),
        SwarmChoice::Bursts => r == QuestBuilder::Swarm(
            SwarmBuilder {
                creature_type: creature,
                total_bursts: by_difficulty(2, 1, difficulty, 5) as u32,
                creatures_per_burst: by_difficulty(3, 1, difficulty, 8) as u32,
                burst_interval: 2000,
                current_burst: 0,
                timer: 0,
            },
        ),
    }
}

/// Starts a swarm of `creature`, given the rolls: resets the swarm timer and
/// builds what the rolls choose. A boss wave has five minions and one more
/// for every point of difficulty, at most twelve; a timed wave eight
/// creatures and two more per point, at most twenty, three tenths of a second
/// apart; bursts are two and one more per point, at most five, of three
/// creatures and one more per point, at most eight, two seconds apart.
pub fn start_swarm(
    state: &mut SurvivalState,
    creature: CreatureType,
    boss_roll: u32,
    timed_roll: u32,
    boss_pick: u32,
) -> (r: QuestBuilder)
    ensures
        *final(state) == (SurvivalState { swarm_timer: 0, ..*old(state) }),
        r.wf(),
        is_swarm_of(
            r,
            old(state).game_time,
            old(state).difficulty,
            creature,
            boss_roll,
            timed_roll,
            boss_pick,
        ),
{
    state.swarm_timer = 0;
    if state.game_time > 180_000 && boss_roll < 300 {
        let boss = if boss_pick == 0 {
            CreatureType::BossSpider
        } else if boss_pick == 1 {
            CreatureType::BossAlien
        } else {
            CreatureType::BossNest
        };
        let minions = repeat_creature(creature, scaled_count(5, 1, state.difficulty, 12));
        QuestBuilder::Boss(
            BossWaveBuilder::new(minions, boss).with_minion_interval(300).with_boss_delay(2000),
        )
    } else if state.game_time > 90_000 && timed_roll < 500 {
        let creatures = repeat_creature(creature, scaled_count(8, 2, state.difficulty, 20));
        QuestBuilder::Timed(TimedWaveBuilder::new(creatures, 300))
    } else {
        QuestBuilder::Swarm(
            SwarmBuilder::new(
                creature,
                scaled_count(2, 1, state.difficulty, 5),
                scaled_count(3, 1, state.difficulty, 8),
            ).with_burst_interval(2000),
        )
    }
}

/// Starts the swarm that chance chooses: draws the creature among those that
/// have appeared, a roll of a thousand for the boss wave and one for the
/// timed wave, and the boss out of three.
pub fn start_random_swarm(state: &mut SurvivalState) -> (r: QuestBuilder)
    ensures
        *final(state) == (SurvivalState { swarm_timer: 0, ..*old(state) }),
        r.wf(),
        exists|creature: CreatureType, boss_roll: u32, timed_roll: u32, boss_pick: u32|
            appeared_upto(old(state).game_time, 16).contains(creature) && boss_roll < 1000
                && timed_roll < 1000 && boss_pick < 3 && #[trigger] is_swarm_of(
                r,
                old(state).game_time,
                old(state).difficulty,
                creature,
                boss_roll,
                timed_roll,
                boss_pick,
            ),
{
    let creature = state.pick_creature();
    let boss_roll: i64 = random_between(0, 999);
    let timed_roll: i64 = random_between(0, 999);
    let boss_pick: i64 = random_between(0, 2);
    start_swarm(state, creature, boss_roll as u32, timed_roll as u32, boss_pick as u32)
}

/// Half the width of the rectangle on whose border a swarm appears.
pub const SWARM_EDGE_X: i32 = 600_000;

/// Half the height of that rectangle.
pub const SWARM_EDGE_Y: i32 = 400_000;

/// The place on the border of the swarm rectangle that lies on the edge with
/// the given number (top, bottom, left, and right for any other) at `x` along
/// a horizontal edge or `y` along a vertical one.
pub open spec fn spec_edge_position(edge: u32, x: i32, y: i32) -> Vector {
    if edge == 0 {
        Vector { x, y: SWARM_EDGE_Y }
    } else if edge == 1 {
        Vector { x, y: -400_000i32 }
    } else if edge == 2 {
        Vector { x: -600_000i32, y }
    } else {
        Vector { x: SWARM_EDGE_X, y }
    }
}

/// A place on the border of the swarm rectangle.
pub fn edge_position(edge: u32, x: i32, y: i32) -> (r: Vector)
    ensures
        r == spec_edge_position(edge, x, y),
{
    if edge == 0 {
        Vector { x, y: SWARM_EDGE_Y }
    } else if edge == 1 {
        Vector { x, y: -400_000 }
    } else if edge == 2 {
        Vector { x: -600_000, y }
    } else {
        Vector { x: SWARM_EDGE_X, y }
    }
}

/// Draws a place on the border of the swarm rectangle: one of the four edges,
/// and a point along it.
pub fn draw_edge_position() -> (r: Vector)
    ensures
        exists|edge: u32, x: i32, y: i32|
            edge < 4 && -SWARM_EDGE_X <= x < SWARM_EDGE_X && -SWARM_EDGE_Y <= y < SWARM_EDGE_Y && r
                == #[trigger] spec_edge_position(edge, x, y),
        -SWARM_EDGE_X <= r.x <= SWARM_EDGE_X,
        -SWARM_EDGE_Y <= r.y <= SWARM_EDGE_Y,
        r.x == SWARM_EDGE_X || r.x == -SWARM_EDGE_X || r.y == SWARM_EDGE_Y || r.y == -SWARM_EDGE_Y,
{
    let edge: i64 = random_between(0, 3);
    let x: i64 = random_between(-600_000, 599_999);
    let y: i64 = random_between(-400_000, 399_999);
    let r = edge_position(edge as u32, x as i32, y as i32);
    assert(r == spec_edge_position(edge as u32, x as i32, y as i32));
    r
}

/// The spawn event for a command of a swarm: at the place that the command
/// names, else at `edge`.
pub fn swarm_spawn(command: &SpawnCommand, edge: Vector) -> (r: SpawnCreatureEvent)
    ensures
        r == (SpawnCreatureEvent {
            creature_type: command.creature_type,
            position: Some(
                match command.position {
                    Some(p) => p,
                    None => edge,
                },
            ),
        }),
{
    SpawnCreatureEvent {
        creature_type: command.creature_type,
        position: Some(
            match command.position {
                Some(p) => p,
                None => edge,
            },
        ),
    }
}

/// How far from the player a weapon drop may land, along each axis.
pub const WEAPON_DROP_REACH: i32 = 100_000;

/// Draws the offset of a weapon drop from the player.
pub fn draw_weapon_drop_offset() -> (r: Vector)
    ensures
        -WEAPON_DROP_REACH <= r.x < WEAPON_DROP_REACH,
        -WEAPON_DROP_REACH <= r.y < WEAPON_DROP_REACH,
{
    let x: i64 = random_between(-100_000, 99_999);
    let y: i64 = random_between(-100_000, 99_999);
    Vector { x: x as i32, y: y as i32 }
}

/// The creature to spawn for the wave that the game time stands for: one
/// that the registry draws for the wave, else one of those that have
/// appeared.
pub fn spawn_survival_creature(state: &SurvivalState, registry: &CreatureRegistry) -> (r: CreatureType)
    ensures
        appeared_upto(state.game_time, 16).contains(r) || exists|roll: u32| #[trigger]
            is_pick_for(
                Some(r),
                available(
                    registry.definitions@,
                    state.spec_effective_wave() as u32,
                    registry.definitions@.len() as int,
                ),
                roll,
            ),
{
    let wave: u32 = state.game_time / 15_000 + 1;
    let pick = registry.pick_random_for_wave(wave);
    match pick {
        Some(creature) => {
            proof {
                let choices = available(
                    registry.definitions@,
                    wave,
                    registry.definitions@.len() as int,
                );
                let roll = choose|roll: u32| is_pick_for(pick, choices, roll);
                assert(state.spec_effective_wave() as u32 == wave);
                assert(is_pick_for(Some(creature), choices, roll));
            }
            creature
        },
        None => state.pick_creature(),
    }
}

} // verus!
