//! What a player does and suffers: movement, aim, input, damage,
//! experience and death.

use vstd::prelude::*;
use crate::fixed::{scale, scale_spec};
use crate::perks::components::PerkBonuses;
use crate::geometry::{
    advance, advance_spec, direction_to, direction_to_spec, dist_sq, dist_sq_spec,
    normalize_or_zero, normalize_spec, Vector,
};
use crate::player::components::{Experience, Firing, Health, MoveSpeed};
use crate::weapons::components::EquippedWeapon;
use crate::rng::random_between;

verus! {

/// A player is to take damage.
#[derive(Debug, Clone, Copy, PartialEq, Eq, Structural)]
pub struct PlayerDamageEvent {
    pub player_entity: u64,
    pub damage: u32,
    pub source: Option<u64>,
}

/// A player died.
#[derive(Debug, Clone, Copy, PartialEq, Eq, Structural)]
pub struct PlayerDeathEvent {
    pub player_entity: u64,
}

/// A player reached a new level.
#[derive(Debug, Clone, Copy, PartialEq, Eq, Structural)]
pub struct PlayerLevelUpEvent {
    pub player_entity: u64,
    pub new_level: u32,
}

/// What became of an attempt to damage a player.
#[derive(Debug, Clone, Copy, PartialEq, Eq, Structural)]
pub enum DamageOutcome {
    /// The player was invincible or shielded.
    Ignored,
    /// The player dodged.
    Dodged,
    /// The player lost this much health, or all that was left.
    Taken { amount: u32 },
}

/// Whether a roll out of a thousand is a dodge.
pub open spec fn is_dodge(bonuses: PerkBonuses, roll: u32) -> bool {
    bonuses.dodge_chance > 0 && roll < bonuses.dodge_chance
}

/// The damage left of `damage` after the owner's damage reduction, which
/// takes away at most all of it.
pub open spec fn reduced_damage(bonuses: PerkBonuses, damage: u32) -> u32 {
    let share = if bonuses.damage_reduction > 1000 {
        1000
    } else {
        bonuses.damage_reduction
    };
    scale_spec(damage as int, 1000 - share) as u32
}

/// What becomes of an attempt to damage a player, given the roll.
pub open spec fn damage_outcome(protected: bool, bonuses: PerkBonuses, damage: u32, roll: u32) -> DamageOutcome {
    if protected {
        DamageOutcome::Ignored
    } else if is_dodge(bonuses, roll) {
        DamageOutcome::Dodged
    } else {
        DamageOutcome::Taken { amount: reduced_damage(bonuses, damage) }
    }
}

/// Resolves one damage event against a player, given the roll out of a
/// thousand made for the dodge. A protected player (invincible or shielded)
/// takes nothing; one that dodges takes nothing; any other takes the damage
/// less the damage reduction.
pub fn resolve_player_damage(
    health: &mut Health,
    protected: bool,
    bonuses: &PerkBonuses,
    damage: u32,
    dodge_roll: u32,
) -> (outcome: DamageOutcome)
    ensures
        outcome == damage_outcome(protected, *bonuses, damage, dodge_roll),
        *final(health) == match outcome {
            DamageOutcome::Taken { amount } => old(health).after_damage(amount),
            _ => *old(health),
        },
{
    if protected {
        return DamageOutcome::Ignored;
    }
    if bonuses.dodge_chance > 0 && dodge_roll < bonuses.dodge_chance {
        return DamageOutcome::Dodged;
    }
    let share: u32 = if bonuses.damage_reduction > 1000 {
        1000
    } else {
        bonuses.damage_reduction
    };
    let amount: u32 = scale(damage, 1000 - share);
    health.damage(amount);
    DamageOutcome::Taken { amount }
}

/// Resolves one damage event against a player, rolling for the dodge.
pub fn apply_player_damage(health: &mut Health, protected: bool, bonuses: &PerkBonuses, damage: u32) -> (outcome:
    DamageOutcome)
    ensures
        exists|roll: u32|
            0 <= roll < 1000 && outcome == #[trigger] damage_outcome(
                protected,
                *bonuses,
                damage,
                roll,
            ),
        *final(health) == match outcome {
            DamageOutcome::Taken { amount } => old(health).after_damage(amount),
            _ => *old(health),
        },
        protected ==> outcome == DamageOutcome::Ignored,
        !protected && bonuses.dodge_chance == 0 ==> outcome == (DamageOutcome::Taken {
            amount: reduced_damage(*bonuses, damage),
        }),
        !protected && bonuses.dodge_chance >= 1000 ==> outcome == DamageOutcome::Dodged,
{
    let roll: i64 = random_between(0, 999);
    resolve_player_damage(health, protected, bonuses, damage, roll as u32)
}

/// The experience that a kill worth `experience` grants an owner with the
/// given bonuses.
pub open spec fn kill_experience(bonuses: PerkBonuses, experience: u32) -> u32 {
    scale_spec(experience as int, bonuses.exp_multiplier as int) as u32
}

/// Grants the experience of a kill, times the owner's experience multiplier.
/// Returns the new level where the level rose.
pub fn grant_experience_on_kill(owner: &mut Experience, bonuses: &PerkBonuses, experience: u32) -> (r:
    Option<u32>)
    requires
        old(owner).has_room(kill_experience(*bonuses, experience)),
    ensures
        *final(owner) == old(owner).after_add(kill_experience(*bonuses, experience)),
        r == if old(owner).levels_up(kill_experience(*bonuses, experience)) {
            Some((old(owner).level + 1) as u32)
        } else {
            None
        },
{
    let amount: u32 = scale(experience, bonuses.exp_multiplier);
    if owner.add(amount) {
        Some(owner.level)
    } else {
        None
    }
}

/// Time that a reload started by the player takes, in milliseconds.
pub const RELOAD_TIME: u32 = 2000;

/// A cursor farther from the player than this, squared, changes the aim.
pub const AIM_DEAD_ZONE_SQ: u32 = 10_000;

/// One step along an axis: forward, back, or neither where both keys or
/// none are pressed.
pub open spec fn axis(forward: bool, back: bool) -> int {
    if forward && !back {
        1
    } else if back && !forward {
        -1
    } else {
        0
    }
}

/// The position of a player after `dt` milliseconds with the given keys
/// pressed: it moves at its speed in the direction of the keys.
pub fn player_movement(
    position: Vector,
    up: bool,
    down: bool,
    left: bool,
    right: bool,
    speed: MoveSpeed,
    dt: u32,
) -> (r: Vector)
    ensures
        r == advance_spec(
            position,
            normalize_spec(axis(right, left), axis(up, down)),
            speed.0 as int,
            dt as int,
        ),
{
    let dx: i64 = if right && !left {
        1
    } else if left && !right {
        -1
    } else {
        0
    };
    let dy: i64 = if up && !down {
        1
    } else if down && !up {
        -1
    } else {
        0
    };
    advance(position, normalize_or_zero(dx, dy), speed.0, dt)
}

/// The direction in which a player aims at a cursor, where the cursor is far
/// enough from the player to tell.
pub fn player_aim(player: Vector, cursor: Vector) -> (r: Option<Vector>)
    ensures
        r == if dist_sq_spec(player, cursor) > AIM_DEAD_ZONE_SQ {
            Some(direction_to_spec(player, cursor))
        } else {
            None
        },
{
    if dist_sq(player, cursor) > AIM_DEAD_ZONE_SQ as u128 {
        Some(direction_to(player, cursor))
    } else {
        None
    }
}

/// Takes the player's input for one tick: the trigger sets the firing, the
/// firing timer runs down, and the reload key starts a reload.
pub fn player_shooting(
    firing: &mut Firing,
    weapon: &mut EquippedWeapon,
    fire_pressed: bool,
    reload_pressed: bool,
    dt: u32,
)
    ensures
        final(firing).is_firing == fire_pressed,
        final(firing).cooldown_timer == if old(firing).cooldown_timer >= dt {
            (old(firing).cooldown_timer - dt) as u32
        } else {
            0
        },
        *final(weapon) == if reload_pressed {
            old(weapon).after_reload_command(RELOAD_TIME)
        } else {
            *old(weapon)
        },
{
    firing.is_firing = fire_pressed;
    firing.cooldown_timer = firing.cooldown_timer.saturating_sub(dt);
    if reload_pressed && !weapon.is_reloading() {
        weapon.start_reload(RELOAD_TIME);
    }
}

/// The death of a player: the event for it, where the health has run out.
pub fn check_player_death(player_entity: u64, health: &Health) -> (r: Option<PlayerDeathEvent>)
    ensures
        r == if health.spec_is_dead() {
            Some(PlayerDeathEvent { player_entity })
        } else {
            None
        },
{
    if health.is_dead() {
        Some(PlayerDeathEvent { player_entity })
    } else {
        None
    }
}

} // verus!
