//! Which creatures a wave may hold, and where one is spawned.

use vstd::prelude::*;
use crate::creatures::components::CreatureType;
use crate::geometry::Vector;
use crate::rng::random_between;
use crate::weights::{lemma_weight_sum_monotonic, weight_sum, weighted_index};

verus! {

/// Definition for a creature type: the first wave it appears in, and the
/// weight with which it is drawn.
#[derive(Debug, Clone, Copy, PartialEq, Eq, Structural)]
pub struct CreatureDefinition {
    pub creature_type: CreatureType,
    pub min_wave: u32,
    pub spawn_weight: u32,
}

/// The built-in creature definitions.
pub open spec fn default_definitions() -> Seq<CreatureDefinition> {
    seq![
        CreatureDefinition { creature_type: CreatureType::Zombie, min_wave: 1, spawn_weight: 10 },
        CreatureDefinition { creature_type: CreatureType::Spider, min_wave: 1, spawn_weight: 8 },
        CreatureDefinition { creature_type: CreatureType::Lizard, min_wave: 2, spawn_weight: 6 },
        CreatureDefinition { creature_type: CreatureType::Beetle, min_wave: 2, spawn_weight: 7 },
        CreatureDefinition { creature_type: CreatureType::Dog, min_wave: 3, spawn_weight: 5 },
        CreatureDefinition { creature_type: CreatureType::AlienSpider, min_wave: 5, spawn_weight: 4 },
        CreatureDefinition { creature_type: CreatureType::Giant, min_wave: 6, spawn_weight: 2 },
        CreatureDefinition { creature_type: CreatureType::Necromancer, min_wave: 7, spawn_weight: 2 },
        CreatureDefinition { creature_type: CreatureType::Runner, min_wave: 4, spawn_weight: 4 },
        CreatureDefinition { creature_type: CreatureType::AlienShooter, min_wave: 8, spawn_weight: 3 },
        CreatureDefinition { creature_type: CreatureType::Phantom, min_wave: 10, spawn_weight: 2 },
        CreatureDefinition { creature_type: CreatureType::Exploder, min_wave: 6, spawn_weight: 3 },
        CreatureDefinition { creature_type: CreatureType::Splitter, min_wave: 8, spawn_weight: 2 },
        CreatureDefinition { creature_type: CreatureType::GiantSpider, min_wave: 12, spawn_weight: 1 },
        CreatureDefinition { creature_type: CreatureType::Turret, min_wave: 10, spawn_weight: 2 },
    ]
}

/// The definitions among the first `n` that wave `wave` may hold, in their
/// order.
pub open spec fn available(definitions: Seq<CreatureDefinition>, wave: u32, n: int) -> Seq<
    CreatureDefinition,
>
    decreases n,
{
    if n <= 0 {
        Seq::empty()
    } else if definitions[n - 1].min_wave <= wave {
        available(definitions, wave, n - 1).push(definitions[n - 1])
    } else {
        available(definitions, wave, n - 1)
    }
}

/// The spawn weights of a list of definitions.
pub open spec fn weights_of(definitions: Seq<CreatureDefinition>) -> Seq<u32> {
    Seq::new(definitions.len(), |i: int| definitions[i].spawn_weight)
}

/// The creature that a roll falls on among the definitions available: none
/// where nothing is available or all weights are zero; the last available
/// creature for a roll at or beyond the total weight.
pub open spec fn is_pick_for(
    pick: Option<CreatureType>,
    choices: Seq<CreatureDefinition>,
    roll: u32,
) -> bool {
    let total = weight_sum(weights_of(choices), choices.len() as int);
    if choices.len() == 0 || total == 0 {
        pick is None
    } else if roll >= total {
        pick == Some(choices[choices.len() - 1].creature_type)
    } else {
        exists|i: int|
            0 <= i < choices.len() && pick == Some((#[trigger] choices[i]).creature_type)
                && weight_sum(weights_of(choices), i) <= roll < weight_sum(
                weights_of(choices),
                i + 1,
            )
    }
}

/// Registry of creature data.
#[derive(Debug, Clone)]
pub struct CreatureRegistry {
    pub definitions: Vec<CreatureDefinition>,
}

impl Default for CreatureRegistry {
    /// A registry without definitions.
    fn default() -> (r: Self)
        ensures
            r.definitions@.len() == 0,
    {
        CreatureRegistry { definitions: Vec::new() }
    }
}

impl CreatureRegistry {
    /// A registry that holds the built-in definitions.
    pub fn new() -> (r: Self)
        ensures
            r.definitions@ == default_definitions(),
    {
        let mut registry = CreatureRegistry { definitions: Vec::new() };
        registry.register_default_creatures();
        registry
    }

    /// Replaces the contents by the built-in definitions.
    pub fn register_default_creatures(&mut self)
        ensures
            final(self).definitions@ == default_definitions(),
    {
        let mut definitions: Vec<CreatureDefinition> = Vec::new();
        definitions.push(
            CreatureDefinition { creature_type: CreatureType::Zombie, min_wave: 1, spawn_weight: 10 },
        );
        definitions.push(
            CreatureDefinition { creature_type: CreatureType::Spider, min_wave: 1, spawn_weight: 8 },
        );
        definitions.push(
            CreatureDefinition { creature_type: CreatureType::Lizard, min_wave: 2, spawn_weight: 6 },
        );
        definitions.push(
            CreatureDefinition { creature_type: CreatureType::Beetle, min_wave: 2, spawn_weight: 7 },
        );
        definitions.push(
            CreatureDefinition { creature_type: CreatureType::Dog, min_wave: 3, spawn_weight: 5 },
        );
        definitions.push(
            CreatureDefinition { creature_type: CreatureType::AlienSpider, min_wave: 5, spawn_weight: 4 },
        );
        definitions.push(
            CreatureDefinition { creature_type: CreatureType::Giant, min_wave: 6, spawn_weight: 2 },
        );
        definitions.push(
            CreatureDefinition { creature_type: CreatureType::Necromancer, min_wave: 7, spawn_weight: 2 },
        );
        definitions.push(
            CreatureDefinition { creature_type: CreatureType::Runner, min_wave: 4, spawn_weight: 4 },
        );
        definitions.push(
            CreatureDefinition { creature_type: CreatureType::AlienShooter, min_wave: 8, spawn_weight: 3 },
        );
        definitions.push(
            CreatureDefinition { creature_type: CreatureType::Phantom, min_wave: 10, spawn_weight: 2 },
        );
        definitions.push(
            CreatureDefinition { creature_type: CreatureType::Exploder, min_wave: 6, spawn_weight: 3 },
        );
        definitions.push(
            CreatureDefinition { creature_type: CreatureType::Splitter, min_wave: 8, spawn_weight: 2 },
        );
        definitions.push(
            CreatureDefinition { creature_type: CreatureType::GiantSpider, min_wave: 12, spawn_weight: 1 },
        );
        definitions.push(
            CreatureDefinition { creature_type: CreatureType::Turret, min_wave: 10, spawn_weight: 2 },
        );
        assert(definitions@ =~= default_definitions());
        self.definitions = definitions;
    }

    /// The definitions that wave `wave` may hold, in their order.
    pub fn get_available_for_wave(&self, wave: u32) -> (r: Vec<CreatureDefinition>)
        ensures
            r@ == available(self.definitions@, wave, self.definitions@.len() as int),
    {
        let mut found: Vec<CreatureDefinition> = Vec::new();
        let mut i: usize = 0;
        while i < self.definitions.len()
            invariant
                i <= self.definitions.len(),
                found@ == available(self.definitions@, wave, i as int),
            decreases self.definitions.len() - i,
        {
            if self.definitions[i].min_wave <= wave {
                found.push(self.definitions[i]);
            }
            i += 1;
        }
        found
    }

    /// The sum of the weights of the definitions that wave `wave` may hold,
    /// as far as it fits.
    pub fn total_weight_for_wave(&self, wave: u32) -> (r: u32)
        ensures
            r == crate::fixed::clamp_u32(
                weight_sum(
                    weights_of(available(self.definitions@, wave, self.definitions@.len() as int)),
                    available(self.definitions@, wave, self.definitions@.len() as int).len() as int,
                ),
            ),
    {
        let choices = self.get_available_for_wave(wave);
        let mut total: u128 = 0;
        let mut i: usize = 0;
        while i < choices.len()
            invariant
                i <= choices.len(),
                total == weight_sum(weights_of(choices@), i as int),
                total <= i * 0xFFFF_FFFF,
            decreases choices.len() - i,
        {
            assert(weights_of(choices@)[i as int] == choices@[i as int].spawn_weight);
            total = total + choices[i].spawn_weight as u128;
            i += 1;
        }
        if total > u32::MAX as u128 {
            u32::MAX
        } else {
            total as u32
        }
    }

    /// The creature of wave `wave` that `roll` falls on.
    pub fn pick_for_wave(&self, wave: u32, roll: u32) -> (r: Option<CreatureType>)
        ensures
            is_pick_for(
                r,
                available(self.definitions@, wave, self.definitions@.len() as int),
                roll,
            ),
    {
        let choices = self.get_available_for_wave(wave);
        if choices.len() == 0 {
            return None;
        }
        let mut weights: Vec<u32> = Vec::new();
        let mut i: usize = 0;
        while i < choices.len()
            invariant
                i <= choices.len(),
                weights@.len() == i,
                forall|j: int| 0 <= j < i ==> weights@[j] == choices@[j].spawn_weight,
            decreases choices.len() - i,
        {
            weights.push(choices[i].spawn_weight);
            i += 1;
        }
        assert(weights@ =~= weights_of(choices@));
        proof {
            lemma_weight_sum_monotonic(weights@, 0, choices@.len() as int);
        }
        match weighted_index(&weights, roll) {
            Some(k) => {
                proof {
                    lemma_weight_sum_monotonic(weights@, k + 1, choices@.len() as int);
                }
                Some(choices[k].creature_type)
            },
            None => {
                match weighted_index(&weights, 0) {
                    Some(first) => {
                        proof {
                            lemma_weight_sum_monotonic(weights@, first + 1, choices@.len() as int);
                        }
                        Some(choices[choices.len() - 1].creature_type)
                    },
                    None => None,
                }
            },
        }
    }

    /// Draws a creature for wave `wave` by the spawn weights; none where the
    /// wave may hold nothing.
    pub fn pick_random_for_wave(&self, wave: u32) -> (r: Option<CreatureType>)
        ensures
            exists|roll: u32| #[trigger]
                is_pick_for(
                    r,
                    available(self.definitions@, wave, self.definitions@.len() as int),
                    roll,
                ),
    {
        let total: u32 = self.total_weight_for_wave(wave);
        let roll: u32 = if total == 0 {
            0
        } else {
            random_between(0, total as i64 - 1) as u32
        };
        self.pick_for_wave(wave, roll)
    }
}

/// Where creatures are spawned: distances in thousandths of a unit.
#[derive(Debug, Clone, Copy, PartialEq, Eq, Structural)]
pub struct SpawnConfig {
    /// Minimum distance from the player.
    pub min_spawn_distance: u32,
    /// Maximum distance from the player.
    pub max_spawn_distance: u32,
    /// Half the width and half the height of the arena.
    pub arena_bounds: Vector,
}

impl Default for SpawnConfig {
    fn default() -> (r: Self)
        ensures
            r == (SpawnConfig {
                min_spawn_distance: 400_000,
                max_spawn_distance: 600_000,
                arena_bounds: Vector { x: 800_000, y: 600_000 },
            }),
    {
        SpawnConfig {
            min_spawn_distance: 400_000,
            max_spawn_distance: 600_000,
            arena_bounds: Vector { x: 800_000, y: 600_000 },
        }
    }
}

/// One full turn, in millionths of a radian.
pub const FULL_TURN: i64 = 6_283_185;

/// Where to spawn a creature, seen from the player: a heading in millionths
/// of a radian, and a distance.
#[derive(Debug, Clone, Copy, PartialEq, Eq, Structural)]
pub struct SpawnBearing {
    pub angle: i64,
    pub distance: u32,
}

/// `x` cut off to the range from `-bound` to `bound`.
pub open spec fn clamp_to(x: int, bound: int) -> int {
    if x < -bound {
        -bound
    } else if x > bound {
        bound
    } else {
        x
    }
}

/// A bound of the arena: a bound below zero counts as zero.
pub open spec fn bound_of(bound: i32) -> int {
    if bound < 0 {
        0
    } else {
        bound as int
    }
}

/// Draws the bearing of a spawn: any heading, and a distance from the
/// smallest up to, but not including, the largest (the smallest where the
/// two are equal or out of order).
pub fn draw_spawn_bearing(config: &SpawnConfig) -> (r: SpawnBearing)
    ensures
        0 <= r.angle < FULL_TURN,
        config.min_spawn_distance < config.max_spawn_distance ==> config.min_spawn_distance
            <= r.distance < config.max_spawn_distance,
        config.min_spawn_distance >= config.max_spawn_distance ==> r.distance
            == config.min_spawn_distance,
{
    let angle: i64 = random_between(0, FULL_TURN - 1);
    let distance: u32 = if config.min_spawn_distance < config.max_spawn_distance {
        random_between(config.min_spawn_distance as i64, config.max_spawn_distance as i64 - 1) as u32
    } else {
        config.min_spawn_distance
    };
    SpawnBearing { angle, distance }
}

/// Cuts a coordinate off to the range that a bound of the arena allows.
fn keep_within(x: i64, bound: i32) -> (r: i32)
    ensures
        r == clamp_to(x as int, bound_of(bound)),
{
    let limit: i64 = if bound < 0 {
        0
    } else {
        bound as i64
    };
    if x < -limit {
        (-limit) as i32
    } else if x > limit {
        limit as i32
    } else {
        x as i32
    }
}

/// The spawn position: the player's position moved by `offset`, then kept
/// within the arena; bounds below zero count as zero.
pub fn calculate_spawn_position(player: Vector, offset: Vector, config: &SpawnConfig) -> (r: Vector)
    ensures
        r.x == clamp_to(player.x + offset.x, bound_of(config.arena_bounds.x)),
        r.y == clamp_to(player.y + offset.y, bound_of(config.arena_bounds.y)),
{
    Vector {
        x: keep_within(player.x as i64 + offset.x as i64, config.arena_bounds.x),
        y: keep_within(player.y as i64 + offset.y as i64, config.arena_bounds.y),
    }
}

} // verus!
