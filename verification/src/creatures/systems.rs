//! What creatures do: choose a target and a mode, move, attack, and die.

use vstd::prelude::*;
use crate::creatures::components::{
    AIMode, ContactDamage, CreatureHealth, CreatureSpeed, CreatureType, ExperienceValue, Target,
};
use crate::creatures::spawner::{calculate_spawn_position, clamp_to, bound_of, SpawnConfig};
use crate::geometry::{
    advance, advance_spec, direction_to, direction_to_spec, dist_sq, dist_sq_spec,
    normalize_or_zero, normalize_spec, Vector,
};
use crate::player::systems::PlayerDamageEvent;
use crate::rng::random_between;
use crate::weapons::targeting::{find_nearest, nearest};

verus! {

/// A creature is to be spawned.
#[derive(Debug, Clone, Copy, PartialEq, Eq, Structural)]
pub struct SpawnCreatureEvent {
    pub creature_type: CreatureType,
    pub position: Option<Vector>,
}

/// A creature died.
#[derive(Debug, Clone, Copy, PartialEq, Eq, Structural)]
pub struct CreatureDeathEvent {
    pub entity: u64,
    pub creature_type: CreatureType,
    pub position: Vector,
    pub experience: u32,
}

/// What a creature is up to: times in milliseconds.
#[derive(Debug, Clone, Copy, PartialEq, Eq, Structural)]
pub struct AIState {
    pub mode: AIMode,
    pub target: Option<u64>,
    pub wander_direction: Vector,
    pub wander_timer: u32,
    /// Time until the next attack.
    pub attack_cooldown: u32,
}

impl Default for AIState {
    fn default() -> (r: Self)
        ensures
            r == (AIState {
                mode: AIMode::Chase,
                target: None,
                wander_direction: Vector { x: 0, y: 0 },
                wander_timer: 0,
                attack_cooldown: 0,
            }),
    {
        AIState {
            mode: AIMode::Chase,
            target: None,
            wander_direction: Vector { x: 0, y: 0 },
            wander_timer: 0,
            attack_cooldown: 0,
        }
    }
}

/// A shooter closer to the player than this flees.
pub const FLEE_DISTANCE: u32 = 200_000;

/// A shooter farther from the player than this gives chase.
pub const CHASE_DISTANCE: u32 = 400_000;

/// A creature closer to a player than this attacks.
pub const ATTACK_RANGE: u32 = 32_000;

/// `a - b`, stopping at zero.
pub open spec fn run_down(a: u32, b: u32) -> u32 {
    if a >= b {
        (a - b) as u32
    } else {
        0
    }
}

/// The mode of a creature of the type whose nearest player, if there is one,
/// is at the squared distance `d`: turrets and nests stay where they are;
/// shooters flee a player who is close, chase one who is far, and circle one
/// in between; every other creature gives chase.
pub open spec fn mode_for(creature_type: CreatureType, d: Option<int>, mode: AIMode) -> AIMode {
    match creature_type {
        CreatureType::Turret | CreatureType::BossNest => AIMode::Stationary,
        CreatureType::AlienShooter => match d {
            Some(dd) => if dd < FLEE_DISTANCE * FLEE_DISTANCE {
                AIMode::Flee
            } else if dd > CHASE_DISTANCE * CHASE_DISTANCE {
                AIMode::Chase
            } else {
                AIMode::Circle
            },
            None => mode,
        },
        _ => AIMode::Chase,
    }
}

/// The state of a creature after `dt` milliseconds of thought, but for the
/// wander timer once it has run out: the attack cooldown runs down; a dead
/// creature thinks no more; a live one targets the nearest player and takes
/// the mode that suits it.
pub open spec fn thought(
    state: AIState,
    creature_type: CreatureType,
    position: Vector,
    players: Seq<Target>,
    dt: u32,
) -> AIState {
    let cooled = AIState { attack_cooldown: run_down(state.attack_cooldown, dt), ..state };
    if state.mode == AIMode::Dead {
        cooled
    } else {
        let k = nearest(players, players.len() as int, position, Seq::empty(), None);
        AIState {
            target: match k {
                Some(i) => Some(players[i].entity),
                None => None,
            },
            mode: mode_for(
                creature_type,
                match k {
                    Some(i) => Some(dist_sq_spec(position, players[i].position)),
                    None => None,
                },
                state.mode,
            ),
            wander_timer: run_down(state.wander_timer, dt),
            ..cooled
        }
    }
}

/// Updates the state of one creature. Returns whether its wander timer has
/// run out, so that a new timer and direction are to be drawn.
pub fn creature_ai_update(
    state: &mut AIState,
    creature_type: CreatureType,
    position: Vector,
    players: &Vec<Target>,
    dt: u32,
) -> (wander: bool)
    ensures
        *final(state) == thought(*old(state), creature_type, position, players@, dt),
        wander == (old(state).mode != AIMode::Dead && final(state).wander_timer == 0),
{
    state.attack_cooldown = state.attack_cooldown.saturating_sub(dt);
    match state.mode {
        AIMode::Dead => {
            return false;
        },
        _ => {},
    }
    let none: Vec<u64> = Vec::new();
    assert(none@ =~= Seq::<u64>::empty());
    let found = find_nearest(players, position, &none, None);
    proof {
        crate::fixed::lemma_product_bound(
            FLEE_DISTANCE as int,
            FLEE_DISTANCE as int,
            200_000,
            200_000,
        );
        crate::fixed::lemma_product_bound(
            CHASE_DISTANCE as int,
            CHASE_DISTANCE as int,
            400_000,
            400_000,
        );
    }
    match found {
        Some(k) => {
            state.target = Some(players[k].entity);
        },
        None => {
            state.target = None;
        },
    }
    match creature_type {
        CreatureType::Turret | CreatureType::BossNest => {
            state.mode = AIMode::Stationary;
        },
        CreatureType::AlienShooter => {
            match found {
                Some(k) => {
                    let d: u128 = dist_sq(position, players[k].position);
                    let near: u128 = (FLEE_DISTANCE as u128) * (FLEE_DISTANCE as u128);
                    let far: u128 = (CHASE_DISTANCE as u128) * (CHASE_DISTANCE as u128);
                    if d < near {
                        state.mode = AIMode::Flee;
                    } else if d > far {
                        state.mode = AIMode::Chase;
                    } else {
                        state.mode = AIMode::Circle;
                    }
                },
                None => {},
            }
        },
        _ => {
            state.mode = AIMode::Chase;
        },
    }
    state.wander_timer = state.wander_timer.saturating_sub(dt);
    state.wander_timer == 0
}

/// Draws the next wander of a creature: a timer of one to three seconds, and
/// a heading in millionths of a radian.
pub fn draw_wander() -> (r: (u32, i64))
    ensures
        1000 <= r.0 < 3000,
        0 <= r.1 < 6_283_185,
{
    let timer: i64 = random_between(1000, 2999);
    let heading: i64 = random_between(0, 6_283_184);
    (timer as u32, heading)
}

/// Sets the wander of a creature.
pub fn set_wander(state: &mut AIState, timer: u32, direction: Vector)
    ensures
        *final(state) == (AIState {
            wander_timer: timer,
            wander_direction: normalize_spec(direction.x as int, direction.y as int),
            ..*old(state)
        }),
{
    state.wander_timer = timer;
    state.wander_direction = normalize_or_zero(direction.x as i64, direction.y as i64);
}

/// The player that a creature has targeted, where the player is among those
/// given.
pub open spec fn targeted(state: AIState, players: Seq<Target>) -> Option<int> {
    match state.target {
        Some(e) => crate::weapons::targeting::first_with_entity(players, e, 0),
        None => None,
    }
}

/// The direction in which a creature heads: toward its target when chasing,
/// away from it when fleeing, across when circling, and its wander direction
/// when wandering; nowhere when it has no target to go by, stands still or
/// is dead.
pub open spec fn heading(state: AIState, position: Vector, players: Seq<Target>) -> Vector {
    let still = Vector { x: 0, y: 0 };
    match state.mode {
        AIMode::Wander => state.wander_direction,
        AIMode::Stationary | AIMode::Dead => still,
        mode => match targeted(state, players) {
            None => still,
            Some(k) => {
                let player = players[k].position;
                match mode {
                    AIMode::Chase => direction_to_spec(position, player),
                    AIMode::Flee => direction_to_spec(player, position),
                    _ => normalize_spec(-(player.y - position.y), player.x - position.x),
                }
            },
        },
    }
}

/// The position of a creature after `dt` milliseconds: it moves along its
/// heading at its speed, unless it is dead.
pub open spec fn moved(state: AIState, speed: CreatureSpeed, position: Vector, players: Seq<Target>, dt: u32) -> Vector {
    if speed.0 == 0 || state.mode == AIMode::Dead {
        position
    } else {
        advance_spec(position, heading(state, position, players), speed.0 as int, dt as int)
    }
}

/// Moves one creature for `dt` milliseconds.
pub fn creature_movement(
    state: &AIState,
    speed: CreatureSpeed,
    position: Vector,
    players: &Vec<Target>,
    dt: u32,
) -> (r: Vector)
    ensures
        r == moved(*state, speed, position, players@, dt),
{
    let still = Vector { x: 0, y: 0 };
    match state.mode {
        AIMode::Dead => {
            return position;
        },
        _ => {},
    }
    if speed.0 == 0 {
        return position;
    }
    let found: Option<usize> = match state.target {
        Some(e) => crate::weapons::targeting::find_entity(players, e),
        None => None,
    };
    let direction = match state.mode {
        AIMode::Wander => state.wander_direction,
        AIMode::Stationary | AIMode::Dead => still,
        AIMode::Chase => match found {
            Some(k) => direction_to(position, players[k].position),
            None => still,
        },
        AIMode::Flee => match found {
            Some(k) => direction_to(players[k].position, position),
            None => still,
        },
        AIMode::Circle => match found {
            Some(k) => {
                let player = players[k].position;
                normalize_or_zero(
                    -((player.y as i64) - (position.y as i64)),
                    (player.x as i64) - (position.x as i64),
                )
            },
            None => still,
        },
    };
    advance(position, direction, speed.0, dt)
}

/// Whether a player is within attack range of a creature at `position`.
pub open spec fn in_attack_range(position: Vector, player: Target) -> bool {
    dist_sq_spec(position, player.position) < ATTACK_RANGE * ATTACK_RANGE
}

/// The first of the first `n` players within attack range.
pub open spec fn first_in_range(position: Vector, players: Seq<Target>, n: int) -> Option<int>
    decreases n,
{
    if n <= 0 {
        None
    } else if first_in_range(position, players, n - 1) is Some {
        first_in_range(position, players, n - 1)
    } else if in_attack_range(position, players[n - 1]) {
        Some(n - 1)
    } else {
        None
    }
}

/// The attack of one creature: a creature that lives and whose cooldown has
/// run out damages the first player within attack range by its contact
/// damage.
pub fn creature_attack(state: &AIState, damage: ContactDamage, position: Vector, players: &Vec<Target>) -> (r:
    Option<PlayerDamageEvent>)
    ensures
        r == if state.mode == AIMode::Dead || state.attack_cooldown > 0 {
            None
        } else {
            match first_in_range(position, players@, players@.len() as int) {
                Some(k) => Some(
                    PlayerDamageEvent {
                        player_entity: players@[k].entity,
                        damage: damage.0,
                        source: None,
                    },
                ),
                None => None,
            }
        },
{
    match state.mode {
        AIMode::Dead => {
            return None;
        },
        _ => {},
    }
    if state.attack_cooldown > 0 {
        return None;
    }
    let reach: u128 = (ATTACK_RANGE as u128) * (ATTACK_RANGE as u128);
    let mut i: usize = 0;
    while i < players.len()
        invariant
            i <= players.len(),
            reach == ATTACK_RANGE * ATTACK_RANGE,
            state.mode != AIMode::Dead,
            state.attack_cooldown == 0,
            first_in_range(position, players@, i as int) is None,
        decreases players.len() - i,
    {
        if dist_sq(position, players[i].position) < reach {
            proof {
                assert(in_attack_range(position, players@[i as int]));
                assert(first_in_range(position, players@, i + 1) == Some(i as int));
                lemma_first_in_range(position, players@, i + 1, players@.len() as int);
            }
            return Some(
                PlayerDamageEvent { player_entity: players[i].entity, damage: damage.0, source: None },
            );
        }
        i += 1;
    }
    None
}

/// The first player in range among few is the first among more.
pub proof fn lemma_first_in_range(position: Vector, players: Seq<Target>, n: int, m: int)
    requires
        0 <= n <= m,
        first_in_range(position, players, n) is Some,
    ensures
        first_in_range(position, players, m) == first_in_range(position, players, n),
    decreases m - n,
{
    if n < m {
        lemma_first_in_range(position, players, n, m - 1);
    }
}

/// The death of a creature: the event for it, where its health has run out.
pub fn check_creature_death(
    entity: u64,
    creature_type: CreatureType,
    position: Vector,
    health: &CreatureHealth,
    experience: ExperienceValue,
) -> (r: Option<CreatureDeathEvent>)
    ensures
        r == if health.spec_is_dead() {
            Some(CreatureDeathEvent { entity, creature_type, position, experience: experience.0 })
        } else {
            None
        },
{
    if health.is_dead() {
        Some(CreatureDeathEvent { entity, creature_type, position, experience: experience.0 })
    } else {
        None
    }
}

/// Where a creature is spawned: at the position that the event names, else
/// within the arena at `offset` from the player, or from the centre where
/// there is no player.
pub fn handle_creature_spawn(event: &SpawnCreatureEvent, player: Option<Vector>, offset: Vector) -> (r:
    Vector)
    ensures
        r == match event.position {
            Some(p) => p,
            None => {
                let from = match player {
                    Some(p) => p,
                    None => Vector { x: 0, y: 0 },
                };
                Vector {
                    x: clamp_to(from.x + offset.x, bound_of(800_000)) as i32,
                    y: clamp_to(from.y + offset.y, bound_of(600_000)) as i32,
                }
            },
        },
{
    match event.position {
        Some(p) => p,
        None => {
            let from = match player {
                Some(p) => p,
                None => Vector { x: 0, y: 0 },
            };
            calculate_spawn_position(from, offset, &SpawnConfig::default())
        },
    }
}

} // verus!
