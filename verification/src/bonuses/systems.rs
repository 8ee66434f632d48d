//! Dropping, attracting, collecting and applying bonuses.

use vstd::prelude::*;
use crate::bonuses::components::{
    run_down, ActiveBonusEffects, BonusAttraction, BonusLifetime, BonusType,
};
use crate::creatures::components::Target;
use crate::fixed::{scale, scale_spec};
use crate::geometry::{advance, advance_spec, direction_to, direction_to_spec, dist_sq, dist_sq_spec, Vector};
use crate::player::components::{Experience, Health, MoveSpeed};
use crate::rng::random_between;
use crate::weapons::components::{EquippedWeapon, WeaponId};
use crate::weights::{lemma_weight_sum_monotonic, weight_sum, weighted_index};

verus! {

/// A bonus is to be spawned.
#[derive(Debug, Clone, Copy, PartialEq, Eq, Structural)]
pub struct SpawnBonusEvent {
    pub bonus_type: BonusType,
    pub position: Vector,
}

/// A player collected a bonus.
#[derive(Debug, Clone, Copy, PartialEq, Eq, Structural)]
pub struct BonusCollectedEvent {
    pub player_entity: u64,
    pub bonus_type: BonusType,
}

/// A kill drops a bonus where the roll out of a thousand is below this.
pub const DROP_CHANCE: u32 = 150;

/// A bonus closer to a player than this is drawn toward the player.
pub const ATTRACTION_DISTANCE: u32 = 100_000;

/// A bonus closer to a player than this is collected.
pub const COLLECTION_RADIUS: u32 = 24_000;

/// Damage that a nuke deals to every live creature.
pub const NUKE_DAMAGE: u32 = 10_000_000;

/// Rounds in a weapon picked up, before the ammunition multiplier.
pub const PICKUP_AMMO: u32 = 100;

/// The bonus types in the order in which a drop is drawn from them.
pub open spec fn drop_table() -> Seq<BonusType> {
    seq![
        BonusType::SmallHealth,
        BonusType::LargeHealth,
        BonusType::FullHealth,
        BonusType::SmallExp,
        BonusType::LargeExp,
        BonusType::WeaponPickup,
        BonusType::SpeedBoost,
        BonusType::FireRateBoost,
        BonusType::DamageBoost,
        BonusType::Invincibility,
        BonusType::Shield,
        BonusType::Nuke,
        BonusType::Freeze,
        BonusType::SlowMotion,
    ]
}

/// The spawn weights of the drop table.
pub open spec fn drop_weights() -> Seq<u32> {
    Seq::new(14, |i: int| drop_table()[i].spec_spawn_weight())
}

/// The sum of all spawn weights.
pub const TOTAL_DROP_WEIGHT: u32 = 117;

/// The bonus types in the order of the drop table.
pub fn bonus_types() -> (r: Vec<BonusType>)
    ensures
        r@ == drop_table(),
{
    let mut types: Vec<BonusType> = Vec::new();
    types.push(BonusType::SmallHealth);
    types.push(BonusType::LargeHealth);
    types.push(BonusType::FullHealth);
    types.push(BonusType::SmallExp);
    types.push(BonusType::LargeExp);
    types.push(BonusType::WeaponPickup);
    types.push(BonusType::SpeedBoost);
    types.push(BonusType::FireRateBoost);
    types.push(BonusType::DamageBoost);
    types.push(BonusType::Invincibility);
    types.push(BonusType::Shield);
    types.push(BonusType::Nuke);
    types.push(BonusType::Freeze);
    types.push(BonusType::SlowMotion);
    assert(types@ =~= drop_table());
    types
}

/// Whether `bonus` is the one that `roll` falls on in the drop table.
pub open spec fn is_drop_for(bonus: BonusType, roll: u32) -> bool {
    exists|i: int|
        0 <= i < 14 && #[trigger] drop_table()[i] == bonus && weight_sum(drop_weights(), i) <= roll
            < weight_sum(drop_weights(), i + 1)
}

/// The bonus that a roll below the total weight falls on; a roll at or
/// beyond it gives the first bonus of the table.
pub fn pick_bonus(roll: u32) -> (r: BonusType)
    ensures
        roll < weight_sum(drop_weights(), 14) ==> is_drop_for(r, roll),
        roll >= weight_sum(drop_weights(), 14) ==> r == BonusType::SmallHealth,
{
    let types = bonus_types();
    let mut weights: Vec<u32> = Vec::new();
    let mut i: usize = 0;
    while i < types.len()
        invariant
            i <= types.len(),
            types@ == drop_table(),
            weights@.len() == i,
            forall|j: int| 0 <= j < i ==> weights@[j] == drop_table()[j].spec_spawn_weight(),
        decreases types.len() - i,
    {
        weights.push(types[i].spawn_weight());
        i += 1;
    }
    assert(weights@ =~= drop_weights());
    match weighted_index(&weights, roll) {
        Some(k) => {
            proof {
                lemma_weight_sum_monotonic(weights@, k + 1, 14);
            }
            assert(drop_table()[k as int] == types@[k as int]);
            types[k]
        },
        None => BonusType::SmallHealth,
    }
}

/// The spawn weights add up to the total.
pub proof fn lemma_total_drop_weight()
    ensures
        weight_sum(drop_weights(), 14) == TOTAL_DROP_WEIGHT,
{
    reveal_with_fuel(weight_sum, 15);
}

/// What a kill drops, given the two rolls made for it: nothing unless the
/// roll out of a thousand is below the drop chance, else the bonus that the
/// roll below the total weight falls on.
pub fn bonus_drop(drop_roll: u32, weight_roll: u32) -> (r: Option<BonusType>)
    ensures
        drop_roll >= DROP_CHANCE ==> r is None,
        drop_roll < DROP_CHANCE ==> r is Some,
        drop_roll < DROP_CHANCE && weight_roll < TOTAL_DROP_WEIGHT ==> is_drop_for(r->0, weight_roll),
        drop_roll < DROP_CHANCE && weight_roll >= TOTAL_DROP_WEIGHT ==> r == Some(
            BonusType::SmallHealth,
        ),
{
    proof {
        lemma_total_drop_weight();
    }
    if drop_roll >= DROP_CHANCE {
        None
    } else {
        Some(pick_bonus(weight_roll))
    }
}

/// Rolls for the bonus that a kill at `position` drops.
pub fn spawn_bonus_on_death(position: Vector) -> (r: Option<SpawnBonusEvent>)
    ensures
        r is Some ==> r->0.position == position && exists|roll: u32|
            roll < TOTAL_DROP_WEIGHT && #[trigger] is_drop_for(r->0.bonus_type, roll),
{
    let drop_roll: i64 = random_between(0, 999);
    let weight_roll: i64 = random_between(0, 116);
    match bonus_drop(drop_roll as u32, weight_roll as u32) {
        Some(bonus_type) => {
            assert(is_drop_for(bonus_type, weight_roll as u32));
            Some(SpawnBonusEvent { bonus_type, position })
        },
        None => None,
    }
}

/// The weapons that a weapon pickup is drawn from; an index beyond the list
/// gives the last.
pub open spec fn pickup_weapon(index: int) -> WeaponId {
    if index == 0 {
        WeaponId::Shotgun
    } else if index == 1 {
        WeaponId::Uzi
    } else if index == 2 {
        WeaponId::AssaultRifle
    } else if index == 3 {
        WeaponId::PlasmaRifle
    } else if index == 4 {
        WeaponId::RocketLauncher
    } else if index == 5 {
        WeaponId::Flamethrower
    } else {
        WeaponId::Minigun
    }
}

/// The number of weapons that a weapon pickup is drawn from.
pub const PICKUP_WEAPONS: u32 = 7;

/// The weapon picked up: the one at `index`, full with the pickup's rounds
/// times the owner's ammunition multiplier.
pub open spec fn picked_up(index: int, ammo_multiplier: u32) -> EquippedWeapon {
    let rounds = scale_spec(PICKUP_AMMO as int, ammo_multiplier as int) as u32;
    EquippedWeapon {
        weapon_id: pickup_weapon(index),
        ammo: Some(rounds),
        fire_cooldown: 0,
        reload_timer: 0,
        max_ammo: Some(rounds),
    }
}

/// The health after collecting `bonus`.
pub open spec fn health_after_bonus(bonus: BonusType, health: Health) -> Health {
    match bonus {
        BonusType::SmallHealth => health.after_heal(25_000),
        BonusType::LargeHealth => health.after_heal(50_000),
        BonusType::FullHealth => Health { current: health.max, ..health },
        _ => health,
    }
}

/// The experience that collecting `bonus` adds.
pub open spec fn bonus_experience(bonus: BonusType) -> u32 {
    match bonus {
        BonusType::SmallExp => 25,
        BonusType::LargeExp => 100,
        _ => 0,
    }
}

/// The experience that collecting `bonus` adds: nothing but for the two
/// experience bonuses.
pub fn experience_for(bonus: BonusType) -> (r: u32)
    ensures
        r == bonus_experience(bonus),
{
    match bonus {
        BonusType::SmallExp => 25,
        BonusType::LargeExp => 100,
        _ => 0,
    }
}

/// The timed effects after collecting `bonus`: the timer of a timed bonus is
/// set to its duration.
pub open spec fn effects_after_bonus(bonus: BonusType, effects: ActiveBonusEffects) -> ActiveBonusEffects {
    match bonus {
        BonusType::SpeedBoost => ActiveBonusEffects { speed_boost_timer: 10_000, ..effects },
        BonusType::FireRateBoost => ActiveBonusEffects { fire_rate_boost_timer: 10_000, ..effects },
        BonusType::DamageBoost => ActiveBonusEffects { damage_boost_timer: 10_000, ..effects },
        BonusType::Invincibility => ActiveBonusEffects { invincibility_timer: 5000, ..effects },
        BonusType::Shield => ActiveBonusEffects { shield_timer: 15_000, ..effects },
        BonusType::SlowMotion => ActiveBonusEffects { slow_motion_timer: 5000, ..effects },
        _ => effects,
    }
}

/// The creature after a nuke.
pub open spec fn nuked(t: Target) -> Target {
    Target { health: t.health.after_damage(NUKE_DAMAGE), ..t }
}

/// Applies a collected bonus to its player, and a nuke to every live
/// creature. `weapon_index` picks the weapon of a weapon pickup; an index
/// beyond the list picks the last weapon.
pub fn apply_bonus(
    bonus: BonusType,
    health: &mut Health,
    experience: &mut Experience,
    weapon: &mut EquippedWeapon,
    effects: &mut ActiveBonusEffects,
    ammo_multiplier: u32,
    weapon_index: u32,
    creatures: &mut Vec<Target>,
)
    requires
        bonus_experience(bonus) > 0 ==> old(experience).has_room(bonus_experience(bonus)),
    ensures
        *final(health) == health_after_bonus(bonus, *old(health)),
        *final(experience) == if bonus_experience(bonus) > 0 {
            old(experience).after_add(bonus_experience(bonus))
        } else {
            *old(experience)
        },
        *final(weapon) == if bonus == BonusType::WeaponPickup {
            picked_up(weapon_index as int, ammo_multiplier)
        } else {
            *old(weapon)
        },
        *final(effects) == effects_after_bonus(bonus, *old(effects)),
        final(creatures)@.len() == old(creatures)@.len(),
        forall|j: int|
            0 <= j < old(creatures)@.len() ==> #[trigger] final(creatures)@[j] == if bonus
                == BonusType::Nuke {
                nuked(old(creatures)@[j])
            } else {
                old(creatures)@[j]
            },
{
    match bonus {
        BonusType::SmallHealth => {
            health.heal(25_000);
        },
        BonusType::LargeHealth => {
            health.heal(50_000);
        },
        BonusType::FullHealth => {
            health.current = health.max;
        },
        BonusType::SmallExp => {
            experience.add(25);
        },
        BonusType::LargeExp => {
            experience.add(100);
        },
        BonusType::WeaponPickup => {
            let id = if weapon_index == 0 {
                WeaponId::Shotgun
            } else if weapon_index == 1 {
                WeaponId::Uzi
            } else if weapon_index == 2 {
                WeaponId::AssaultRifle
            } else if weapon_index == 3 {
                WeaponId::PlasmaRifle
            } else if weapon_index == 4 {
                WeaponId::RocketLauncher
            } else if weapon_index == 5 {
                WeaponId::Flamethrower
            } else {
                WeaponId::Minigun
            };
            *weapon = EquippedWeapon::new(id, Some(scale(PICKUP_AMMO, ammo_multiplier)));
        },
        BonusType::SpeedBoost => {
            effects.speed_boost_timer = 10_000;
        },
        BonusType::FireRateBoost => {
            effects.fire_rate_boost_timer = 10_000;
        },
        BonusType::DamageBoost => {
            effects.damage_boost_timer = 10_000;
        },
        BonusType::Invincibility => {
            effects.invincibility_timer = 5000;
        },
        BonusType::Shield => {
            effects.shield_timer = 15_000;
        },
        BonusType::SlowMotion => {
            effects.slow_motion_timer = 5000;
        },
        BonusType::Nuke => {
            let ghost before = creatures@;
            let mut j: usize = 0;
            while j < creatures.len()
                invariant
                    j <= creatures.len(),
                    creatures@.len() == before.len(),
                    forall|m: int| 0 <= m < j ==> #[trigger] creatures@[m] == nuked(before[m]),
                    forall|m: int| j <= m < before.len() ==> #[trigger] creatures@[m] == before[m],
                decreases creatures.len() - j,
            {
                let mut t = creatures[j];
                t.health.damage(NUKE_DAMAGE);
                creatures[j] = t;
                j += 1;
            }
        },
        BonusType::Freeze => {},
    }
}

/// Lets `dt` milliseconds of a bonus's time on the ground pass, and says
/// whether its time is up, so that it is to be removed.
pub fn bonus_lifetime(lifetime: &mut BonusLifetime, dt: u32) -> (expired: bool)
    ensures
        final(lifetime).remaining == run_down(old(lifetime).remaining, dt),
        expired == (old(lifetime).remaining <= dt),
{
    lifetime.remaining = lifetime.remaining.saturating_sub(dt);
    lifetime.remaining == 0
}

/// Applies a collected bonus, drawing the weapon of a weapon pickup.
pub fn apply_bonus_effects(
    bonus: BonusType,
    health: &mut Health,
    experience: &mut Experience,
    weapon: &mut EquippedWeapon,
    effects: &mut ActiveBonusEffects,
    ammo_multiplier: u32,
    creatures: &mut Vec<Target>,
)
    requires
        bonus_experience(bonus) > 0 ==> old(experience).has_room(bonus_experience(bonus)),
    ensures
        *final(health) == health_after_bonus(bonus, *old(health)),
        *final(experience) == if bonus_experience(bonus) > 0 {
            old(experience).after_add(bonus_experience(bonus))
        } else {
            *old(experience)
        },
        bonus != BonusType::WeaponPickup ==> *final(weapon) == *old(weapon),
        bonus == BonusType::WeaponPickup ==> exists|index: int|
            0 <= index < PICKUP_WEAPONS && *final(weapon) == #[trigger] picked_up(
                index,
                ammo_multiplier,
            ),
        *final(effects) == effects_after_bonus(bonus, *old(effects)),
        final(creatures)@.len() == old(creatures)@.len(),
        forall|j: int|
            0 <= j < old(creatures)@.len() ==> #[trigger] final(creatures)@[j] == if bonus
                == BonusType::Nuke {
                nuked(old(creatures)@[j])
            } else {
                old(creatures)@[j]
            },
{
    let index: i64 = random_between(0, 6);
    apply_bonus(
        bonus,
        health,
        experience,
        weapon,
        effects,
        ammo_multiplier,
        index as u32,
        creatures,
    );
}

/// Whether a bonus at `bonus` is within `reach` of a player at `player`.
pub open spec fn spec_in_reach(player: Vector, bonus: Vector, reach: u32) -> bool {
    dist_sq_spec(player, bonus) < reach * reach
}

/// Whether a bonus at `bonus` is within `reach` of a player at `player`.
pub fn in_reach(player: Vector, bonus: Vector, reach: u32) -> (r: bool)
    ensures
        r == spec_in_reach(player, bonus, reach),
{
    proof {
        crate::fixed::lemma_product_bound(reach as int, reach as int, u32::MAX as int, u32::MAX as int);
    }
    dist_sq(player, bonus) < (reach as u128) * (reach as u128)
}

/// One step of the pull on a bonus. A bonus within the attraction distance of
/// the player is drawn to the player and moves toward it for `dt`
/// milliseconds at its speed; any other stays as it is.
pub fn bonus_attraction(
    player_entity: u64,
    player: Vector,
    bonus: Vector,
    attraction: &mut BonusAttraction,
    dt: u32,
) -> (r: Vector)
    ensures
        spec_in_reach(player, bonus, ATTRACTION_DISTANCE) ==> final(attraction).target == Some(
            player_entity,
        ) && r == advance_spec(
            bonus,
            direction_to_spec(bonus, player),
            old(attraction).speed as int,
            dt as int,
        ),
        !spec_in_reach(player, bonus, ATTRACTION_DISTANCE) ==> final(attraction).target == old(
            attraction,
        ).target && r == bonus,
        final(attraction).speed == old(attraction).speed,
{
    if in_reach(player, bonus, ATTRACTION_DISTANCE) {
        attraction.target = Some(player_entity);
        advance(bonus, direction_to(bonus, player), attraction.speed, dt)
    } else {
        bonus
    }
}

/// Whether the player collects the bonus: it is closer than the collection
/// radius.
pub fn bonus_collection(player: Vector, bonus: Vector) -> (r: bool)
    ensures
        r == spec_in_reach(player, bonus, COLLECTION_RADIUS),
{
    in_reach(player, bonus, COLLECTION_RADIUS)
}

/// The movement speed of a player: half as much again as the base speed
/// while a speed boost lasts.
pub fn apply_speed_boost(effects: &ActiveBonusEffects, base_move_speed: u32) -> (r: MoveSpeed)
    ensures
        r.0 == if effects.speed_boost_timer > 0 {
            scale_spec(base_move_speed as int, 1500) as u32
        } else {
            base_move_speed
        },
{
    if effects.has_speed_boost() {
        MoveSpeed(scale(base_move_speed, 1500))
    } else {
        MoveSpeed(base_move_speed)
    }
}

} // verus!
