//! Using, dropping and collecting items.

use vstd::prelude::*;
use crate::bonuses::components::ActiveBonusEffects;
use crate::bonuses::systems::{in_reach, spec_in_reach};
use crate::creatures::components::Target;
use crate::fixed::{int_sqrt, isqrt};
use crate::geometry::{dist_sq, dist_sq_spec, Vector};
use crate::items::components::{is_item_for, CarriedItem, ItemType, TOTAL_ITEM_WEIGHT};
use crate::rng::random_between;

verus! {

/// A player used the carried item.
#[derive(Debug, Clone, Copy, PartialEq, Eq, Structural)]
pub struct ItemUsedEvent {
    pub player_entity: u64,
    pub item_type: ItemType,
    pub position: Vector,
}

/// A player picked an item up.
#[derive(Debug, Clone, Copy, PartialEq, Eq, Structural)]
pub struct ItemPickedUpEvent {
    pub player_entity: u64,
    pub item_type: ItemType,
    pub replaced: Option<ItemType>,
}

/// An item closer to a player than this is picked up.
pub const PICKUP_RADIUS: u32 = 30_000;

/// Reach of the plasma blast.
pub const PLASMA_REACH: u32 = 300_000;

/// Reach of the shockwave.
pub const SHOCKWAVE_REACH: u32 = 200_000;

/// Reach of the toxic cloud.
pub const TOXIC_REACH: u32 = 250_000;

/// Damage of the freeze.
pub const FREEZE_DAMAGE: u32 = 20_000;

/// Damage of the missile salvo.
pub const SALVO_DAMAGE: u32 = 50_000;

/// Damage of the shockwave.
pub const SHOCKWAVE_DAMAGE: u32 = 100_000;

/// Damage of the toxic cloud.
pub const TOXIC_DAMAGE: u32 = 30_000;

/// The use of the carried item: the event for it, and empty hands; nothing
/// where nothing is carried.
pub fn handle_item_use(player_entity: u64, position: Vector, carried: &mut CarriedItem) -> (r: Option<
    ItemUsedEvent,
>)
    ensures
        final(carried).item is None,
        r == match old(carried).item {
            Some(item_type) => Some(ItemUsedEvent { player_entity, item_type, position }),
            None => None,
        },
{
    match carried.take_item() {
        Some(item_type) => Some(ItemUsedEvent { player_entity, item_type, position }),
        None => None,
    }
}

/// The damage of a plasma blast at a point whose squared distance from the
/// blast is `d`: half of what the distance falls short of the reach.
pub open spec fn plasma_damage(d: int) -> int {
    if int_sqrt(d) < PLASMA_REACH {
        (PLASMA_REACH - int_sqrt(d)) / 2
    } else {
        0
    }
}

/// The damage that an item used at `position` deals to a creature.
pub open spec fn item_damage(item: ItemType, position: Vector, t: Target) -> int {
    match item {
        ItemType::Freeze => FREEZE_DAMAGE as int,
        ItemType::MissileSalvo => SALVO_DAMAGE as int,
        ItemType::PlasmaBlast => plasma_damage(dist_sq_spec(position, t.position)),
        ItemType::Shockwave => if spec_in_reach(position, t.position, SHOCKWAVE_REACH) {
            SHOCKWAVE_DAMAGE as int
        } else {
            0
        },
        ItemType::ToxicCloud => if spec_in_reach(position, t.position, TOXIC_REACH) {
            TOXIC_DAMAGE as int
        } else {
            0
        },
        _ => 0,
    }
}

/// The creature after an item was used at `position`.
pub open spec fn after_item(item: ItemType, position: Vector, t: Target) -> Target {
    Target { health: t.health.after_damage(item_damage(item, position, t) as u32), ..t }
}

/// The timed effects of a player after using an item.
pub open spec fn effects_after_item(item: ItemType, effects: ActiveBonusEffects) -> ActiveBonusEffects {
    match item {
        ItemType::Shield => ActiveBonusEffects { shield_timer: 15_000, ..effects },
        ItemType::TimeWarp => ActiveBonusEffects { slow_motion_timer: 8000, ..effects },
        ItemType::Invincibility => ActiveBonusEffects { invincibility_timer: 10_000, ..effects },
        ItemType::Overdrive => ActiveBonusEffects { fire_rate_boost_timer: 10_000, ..effects },
        _ => effects,
    }
}

/// The damage that an item used at `position` deals to a creature.
fn damage_of(item: ItemType, position: Vector, t: &Target) -> (r: u32)
    ensures
        r == item_damage(item, position, *t),
{
    match item {
        ItemType::Freeze => FREEZE_DAMAGE,
        ItemType::MissileSalvo => SALVO_DAMAGE,
        ItemType::PlasmaBlast => {
            let distance: u64 = isqrt(dist_sq(position, t.position));
            if distance < PLASMA_REACH as u64 {
                (PLASMA_REACH - distance as u32) / 2
            } else {
                0
            }
        },
        ItemType::Shockwave => if in_reach(position, t.position, SHOCKWAVE_REACH) {
            SHOCKWAVE_DAMAGE
        } else {
            0
        },
        ItemType::ToxicCloud => if in_reach(position, t.position, TOXIC_REACH) {
            TOXIC_DAMAGE
        } else {
            0
        },
        _ => 0,
    }
}

/// Applies an item used at `position`: its damage to every live creature,
/// its effect to the player's timers. Returns whether every live creature is
/// to be removed, as the nuke does.
pub fn apply_item_effects(
    item: ItemType,
    position: Vector,
    effects: &mut ActiveBonusEffects,
    creatures: &mut Vec<Target>,
) -> (remove_all: bool)
    ensures
        remove_all == (item == ItemType::Nuke),
        *final(effects) == effects_after_item(item, *old(effects)),
        final(creatures)@.len() == old(creatures)@.len(),
        forall|j: int|
            0 <= j < old(creatures)@.len() ==> #[trigger] final(creatures)@[j] == after_item(
                item,
                position,
                old(creatures)@[j],
            ),
{
    match item {
        ItemType::Shield => {
            effects.shield_timer = 15_000;
        },
        ItemType::TimeWarp => {
            effects.slow_motion_timer = 8000;
        },
        ItemType::Invincibility => {
            effects.invincibility_timer = 10_000;
        },
        ItemType::Overdrive => {
            effects.fire_rate_boost_timer = 10_000;
        },
        _ => {},
    }
    let ghost before = creatures@;
    let mut j: usize = 0;
    while j < creatures.len()
        invariant
            j <= creatures.len(),
            creatures@.len() == before.len(),
            forall|m: int|
                0 <= m < j ==> #[trigger] creatures@[m] == after_item(item, position, before[m]),
            forall|m: int| j <= m < before.len() ==> #[trigger] creatures@[m] == before[m],
        decreases creatures.len() - j,
    {
        let mut t = creatures[j];
        let amount: u32 = damage_of(item, position, &t);
        t.health.damage(amount);
        creatures[j] = t;
        j += 1;
    }
    match item {
        ItemType::Nuke => true,
        _ => false,
    }
}

/// The chance, out of a thousand, that a kill worth `experience` drops an
/// item: five times the base chance for a boss, twice for a strong creature.
pub open spec fn drop_chance(experience: u32) -> u32 {
    if experience >= 100 {
        150
    } else if experience >= 30 {
        60
    } else {
        30
    }
}

/// Whether a kill worth `experience` drops an item, given the roll out of a
/// thousand.
pub fn item_drops(experience: u32, roll: u32) -> (r: bool)
    ensures
        r == (roll < drop_chance(experience)),
{
    let chance: u32 = if experience >= 100 {
        150
    } else if experience >= 30 {
        60
    } else {
        30
    };
    roll < chance
}

/// Rolls for the item that a kill worth `experience` drops.
pub fn spawn_item_on_death(experience: u32) -> (r: Option<ItemType>)
    ensures
        match r {
            Some(item) => exists|roll: u32|
                roll < TOTAL_ITEM_WEIGHT && #[trigger] is_item_for(item, roll),
            None => true,
        },
{
    let roll: i64 = random_between(0, 999);
    if item_drops(experience, roll as u32) {
        let item = ItemType::random();
        Some(item)
    } else {
        None
    }
}

/// Lets a player collect an item pickup: where the pickup is closer than the
/// pickup radius, it takes the place of whatever the player carried.
pub fn collect_items(
    player_entity: u64,
    player: Vector,
    pickup: Vector,
    item_type: ItemType,
    carried: &mut CarriedItem,
) -> (r: Option<ItemPickedUpEvent>)
    ensures
        spec_in_reach(player, pickup, PICKUP_RADIUS) ==> final(carried).item == Some(item_type) && r
            == Some(ItemPickedUpEvent { player_entity, item_type, replaced: old(carried).item }),
        !spec_in_reach(player, pickup, PICKUP_RADIUS) ==> *final(carried) == *old(carried) && r is None,
{
    if in_reach(player, pickup, PICKUP_RADIUS) {
        let replaced = carried.item;
        carried.set_item(item_type);
        Some(ItemPickedUpEvent { player_entity, item_type, replaced })
    } else {
        None
    }
}

} // verus!
