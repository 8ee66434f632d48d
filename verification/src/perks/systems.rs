//! What an owner's perks do each tick, and how perks are chosen.

use vstd::prelude::*;
use crate::fixed::{scale, scale_spec};
use crate::perks::components::{
    bonuses_of, count, has, offered_perks, PerkBonuses, PerkId, PerkInventory,
};
use crate::player::components::{Health, MoveSpeed};
use crate::player::resources::PlayerConfig;

verus! {

/// A player chose a perk.
#[derive(Debug, Clone, Copy, PartialEq, Eq, Structural)]
pub struct PerkSelectedEvent {
    pub player_entity: u64,
    pub perk_id: PerkId,
}

/// A change of the maximum health of no more than this is left alone.
pub const HEALTH_TOLERANCE: u32 = 10;

/// The health after regenerating for `dt` milliseconds.
pub open spec fn regenerated(health: Health, bonuses: PerkBonuses, dt: u32) -> Health {
    if bonuses.regen_per_second > 0 {
        health.after_heal(scale_spec(bonuses.regen_per_second as int, dt as int) as u32)
    } else {
        health
    }
}

/// The distance between two amounts.
pub open spec fn gap(a: u32, b: u32) -> int {
    if a >= b {
        a - b
    } else {
        b - a
    }
}

/// The health with its maximum set to `adjusted_max`, keeping the share of
/// health left; a maximum that is already there, within the tolerance, stays.
pub open spec fn rescaled(health: Health, adjusted_max: u32) -> Health {
    if gap(health.max, adjusted_max) > HEALTH_TOLERANCE {
        Health {
            current: scale_spec(adjusted_max as int, health.spec_percentage()) as u32,
            max: adjusted_max,
        }
    } else {
        health
    }
}

/// The health of an owner after one tick of its perks: regeneration first,
/// then the maximum that the perks call for.
pub open spec fn health_after_perks(health: Health, bonuses: PerkBonuses, base_health: u32, dt: u32) -> Health {
    rescaled(
        regenerated(health, bonuses, dt),
        scale_spec(base_health as int, bonuses.max_health_multiplier as int) as u32,
    )
}

/// Applies an owner's perks for one tick of `dt` milliseconds: recalculates
/// the bonuses from the inventory, regenerates health, adjusts the maximum
/// health, and sets the movement speed.
pub fn apply_perk_effects(
    inventory: &PerkInventory,
    health: &mut Health,
    config: &PlayerConfig,
    dt: u32,
) -> (r: (PerkBonuses, MoveSpeed))
    ensures
        r.0 == bonuses_of(inventory@),
        *final(health) == health_after_perks(*old(health), r.0, config.base_health, dt),
        r.1.0 == scale_spec(config.base_move_speed as int, r.0.speed_multiplier as int),
{
    let bonuses = PerkBonuses::calculate(inventory);
    if bonuses.regen_per_second > 0 {
        health.heal(scale(bonuses.regen_per_second, dt));
    }
    let adjusted_max: u32 = scale(config.base_health, bonuses.max_health_multiplier);
    let apart: u32 = if health.max >= adjusted_max {
        health.max - adjusted_max
    } else {
        adjusted_max - health.max
    };
    if apart > HEALTH_TOLERANCE {
        let share: u32 = health.percentage();
        health.max = adjusted_max;
        health.current = scale(adjusted_max, share);
    }
    (bonuses, MoveSpeed(scale(config.base_move_speed, bonuses.speed_multiplier)))
}

/// The perks among the first `n` offered ones that the inventory holds, in
/// the order of the offer.
pub open spec fn owned(slots: Seq<u8>, n: int) -> Seq<PerkId>
    decreases n,
{
    if n <= 0 {
        Seq::empty()
    } else if has(slots, offered_perks()[n - 1]) {
        owned(slots, n - 1).push(offered_perks()[n - 1])
    } else {
        owned(slots, n - 1)
    }
}

/// The perks that a player has, for display.
pub fn get_player_perks(inventory: &PerkInventory) -> (r: Vec<PerkId>)
    ensures
        r@ == owned(inventory@, offered_perks().len() as int),
{
    let all = PerkId::all();
    let mut held: Vec<PerkId> = Vec::new();
    let mut i: usize = 0;
    while i < all.len()
        invariant
            i <= all.len(),
            all@ == offered_perks(),
            held@ == owned(inventory@, i as int),
        decreases all.len() - i,
    {
        if inventory.has_perk(all[i]) {
            held.push(all[i]);
        }
        i += 1;
    }
    held
}

/// The perks on offer at a level-up, and the one that is marked.
#[derive(Debug)]
pub struct PerkSelectionState {
    pub available_perks: Vec<PerkId>,
    pub selected_index: usize,
}

impl Default for PerkSelectionState {
    fn default() -> (r: Self)
        ensures
            r.available_perks@.len() == 0,
            r.selected_index == 0,
    {
        PerkSelectionState { available_perks: Vec::new(), selected_index: 0 }
    }
}

impl PerkSelectionState {
    /// A new offer, with the first perk marked.
    pub fn offer(perks: Vec<PerkId>) -> (r: Self)
        ensures
            r.available_perks@ == perks@,
            r.selected_index == 0,
    {
        PerkSelectionState { available_perks: perks, selected_index: 0 }
    }

    /// The perk at a place of the offer, where the offer is that long.
    pub fn choice(&self, index: usize) -> (r: Option<PerkId>)
        ensures
            r == if index < self.available_perks@.len() {
                Some(self.available_perks@[index as int])
            } else {
                None
            },
    {
        if index < self.available_perks.len() {
            Some(self.available_perks[index])
        } else {
            None
        }
    }
}

/// Takes the choice of a perk at a level-up: where `index` names a perk of
/// the offer, the player gets the perk, and the event for it is returned.
pub fn handle_perk_selection(
    player_entity: u64,
    selection: &PerkSelectionState,
    index: usize,
    inventory: &mut PerkInventory,
) -> (r: Option<PerkSelectedEvent>)
    ensures
        index >= selection.available_perks@.len() ==> r is None && final(inventory)@ == old(inventory)@,
        index < selection.available_perks@.len() ==> r == Some(
            PerkSelectedEvent { player_entity, perk_id: selection.available_perks@[index as int] },
        ) && final(inventory)@ == old(inventory)@.update(
            selection.available_perks@[index as int].spec_index(),
            if count(old(inventory)@, selection.available_perks@[index as int]) < 255 {
                (count(old(inventory)@, selection.available_perks@[index as int]) + 1) as u8
            } else {
                255u8
            },
        ),
{
    match selection.choice(index) {
        Some(perk_id) => {
            inventory.add_perk(perk_id);
            Some(PerkSelectedEvent { player_entity, perk_id })
        },
        None => None,
    }
}

} // verus!
