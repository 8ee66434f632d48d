//! The stages of a tick of combat: firing, flight, steering, collision, the
//! effects that a hit sets off, and cleanup.

use vstd::prelude::*;
use crate::creatures::components::Target;
use crate::fixed::{lemma_product_bound, scale, scale_spec};
use crate::geometry::{
    advance, advance_spec, blend, blend_spec, direction_to, direction_to_spec, normalize_or_zero,
    normalize_spec, Vector,
};
use crate::perks::components::ModifierSet;
use crate::rng::random_between;
use crate::weapons::collision::{
    scan_all, scan_collisions, scan_start, ExplosionRequest, ProjectileHitEvent,
};
use crate::weapons::components::{
    order_views, plain_bundle, projectile_views, ChainLightning, ChainLightningView,
    EquippedWeapon, Explosive, Freezing, Homing, LiveProjectile, LiveProjectileView,
    ProjectileBundle, ProjectileBundleView, SpawnOrder, SpawnOrderView, Splitter, Velocity,
    WeaponId,
};
use crate::weapons::effects::{
    apply_explosions, blasted, fragments, relays, spawn_chain_relays, spawn_split_fragments,
};
use crate::weapons::laws::lemma_scan_all;
use crate::weapons::registry::{
    has_no_entry, is_first_entry, WeaponData, WeaponDataView, WeaponRegistry,
};
use crate::weapons::resolution::{resolved, step_fragments, step_relays};
use crate::weapons::targeting::{find_entity, find_nearest, first_with_entity, nearest};

verus! {

/// A weapon was fired.
#[derive(Debug, Clone, Copy, PartialEq, Eq, Structural)]
pub struct FireWeaponEvent {
    pub shooter: u64,
    pub position: Vector,
    pub direction: Vector,
    pub weapon_id: WeaponId,
}

/// Turn rate of a homing projectile, per second.
pub const HOMING_TURN_RATE: u32 = 3000;

/// Jumps of the chain reactor.
pub const CHAIN_JUMPS: u32 = 5;

/// Jump range of the chain reactor.
pub const CHAIN_RANGE: u32 = 150_000;

/// Share of the damage that a jump of the chain reactor keeps.
pub const CHAIN_FALLOFF: u32 = 800;

/// Splits of the splitter gun.
pub const SPLITTER_SPLITS: u32 = 2;

/// Fragments per split of the splitter gun.
pub const SPLITTER_COUNT: u32 = 3;

/// Share of the damage that a fragment of the splitter gun keeps.
pub const SPLITTER_DAMAGE: u32 = 600;

/// Speed multiplier of the freeze ray's slow effect.
pub const FREEZE_SLOW: u32 = 300;

/// Duration of the freeze ray's slow effect, in milliseconds.
pub const FREEZE_DURATION: u32 = 3000;

/// The half-width of the cone of fire in millionths of a radian: the weapon's
/// spread, less the share that the accuracy bonus takes away.
pub open spec fn effective_spread(data: WeaponDataView, modifiers: ModifierSet) -> int {
    data.spread * (1000 - modifiers.accuracy_bonus)
}

/// The damage of one pellet: the weapon's damage times the damage multiplier,
/// and times the critical multiplier for a critical hit.
pub open spec fn pellet_damage(data: WeaponDataView, modifiers: ModifierSet, crit: bool) -> u32 {
    let base = scale_spec(data.damage as int, modifiers.damage_multiplier as int);
    if crit {
        scale_spec(base, modifiers.crit_multiplier as int) as u32
    } else {
        base as u32
    }
}

/// Whether a roll out of a thousand is a critical hit.
pub open spec fn is_crit(modifiers: ModifierSet, roll: u32) -> bool {
    modifiers.crit_chance > 0 && roll < modifiers.crit_chance
}

/// The order for one pellet of a shot: turned by `spread` off the aim, with
/// the capabilities of its weapon.
pub open spec fn pellet(
    shooter: u64,
    position: Vector,
    aim: Vector,
    weapon_id: WeaponId,
    data: WeaponDataView,
    modifiers: ModifierSet,
    spread: i64,
    crit: bool,
) -> SpawnOrderView {
    let damage = pellet_damage(data, modifiers, crit);
    let lifetime = scale_spec(data.projectile_lifetime as int, modifiers.range_multiplier as int) as u32;
    let plain = plain_bundle(weapon_id, damage, shooter, position, aim, data.projectile_speed, lifetime);
    SpawnOrderView {
        bundle: ProjectileBundleView {
            projectile: crate::weapons::components::Projectile {
                pierce_count: data.pierce_count,
                ..plain.projectile
            },
            homing: if data.homing {
                Some(Homing { turn_rate: HOMING_TURN_RATE, target: None })
            } else {
                None
            },
            explosive: if data.is_explosive() {
                Some(Explosive { radius: data.explosive_radius, damage })
            } else {
                None
            },
            chain_lightning: if weapon_id == WeaponId::ChainReactor {
                Some(
                    ChainLightningView {
                        jumps_remaining: CHAIN_JUMPS,
                        jump_range: CHAIN_RANGE,
                        damage_falloff: CHAIN_FALLOFF,
                        already_hit: Seq::empty(),
                    },
                )
            } else {
                None
            },
            splitter: if weapon_id == WeaponId::SplitterGun {
                Some(
                    Splitter {
                        splits_remaining: SPLITTER_SPLITS,
                        split_count: SPLITTER_COUNT,
                        damage_multiplier: SPLITTER_DAMAGE,
                    },
                )
            } else {
                None
            },
            freezing: if weapon_id == WeaponId::FreezeRay {
                Some(Freezing { slow_amount: FREEZE_SLOW, duration: FREEZE_DURATION })
            } else {
                None
            },
            ..plain
        },
        turn: spread,
    }
}

/// Whether `order` is a pellet that the shot described by the arguments can
/// send out: its turn lies within the cone of fire, and it is the plain or
/// the critical pellet of that turn; the plain one only where a critical hit
/// is not certain, the critical one only where it is possible.
pub open spec fn is_pellet(
    order: SpawnOrderView,
    shooter: u64,
    position: Vector,
    aim: Vector,
    weapon_id: WeaponId,
    data: WeaponDataView,
    modifiers: ModifierSet,
) -> bool {
    &&& -effective_spread(data, modifiers) <= order.turn <= effective_spread(data, modifiers)
    &&& {
        ||| modifiers.crit_chance < 1000 && order == pellet(
            shooter,
            position,
            aim,
            weapon_id,
            data,
            modifiers,
            order.turn,
            false,
        )
        ||| modifiers.crit_chance > 0 && order == pellet(
            shooter,
            position,
            aim,
            weapon_id,
            data,
            modifiers,
            order.turn,
            true,
        )
    }
}

/// Builds the order for one pellet from the two draws made for it: the
/// spread, and the roll out of a thousand that decides a critical hit.
pub fn make_pellet(
    shooter: u64,
    position: Vector,
    aim: Vector,
    weapon_id: WeaponId,
    data: &WeaponData,
    modifiers: &ModifierSet,
    spread: i64,
    crit_roll: u32,
) -> (r: SpawnOrder)
    ensures
        r@ == pellet(
            shooter,
            position,
            aim,
            weapon_id,
            data@,
            *modifiers,
            spread,
            is_crit(*modifiers, crit_roll),
        ),
        r@.bundle.wf(),
{
    let mut damage: u32 = scale(data.damage, modifiers.damage_multiplier);
    if modifiers.crit_chance > 0 && crit_roll < modifiers.crit_chance {
        damage = scale(damage, modifiers.crit_multiplier);
    }
    let lifetime: u32 = scale(data.projectile_lifetime, modifiers.range_multiplier);
    let plain = ProjectileBundle::new(
        weapon_id,
        damage,
        shooter,
        position,
        aim,
        data.projectile_speed,
        lifetime,
    );
    let bundle = ProjectileBundle {
        projectile: crate::weapons::components::Projectile {
            weapon_id,
            damage,
            owner: shooter,
            pierce_count: data.pierce_count,
        },
        velocity: plain.velocity,
        lifetime: plain.lifetime,
        position,
        homing: if data.homing {
            Some(Homing { turn_rate: HOMING_TURN_RATE, target: None })
        } else {
            None
        },
        explosive: if data.is_explosive() {
            Some(Explosive { radius: data.explosive_radius, damage })
        } else {
            None
        },
        chain_lightning: match weapon_id {
            WeaponId::ChainReactor => Some(ChainLightning::new(CHAIN_JUMPS, CHAIN_RANGE, CHAIN_FALLOFF)),
            _ => None,
        },
        splitter: match weapon_id {
            WeaponId::SplitterGun => Some(Splitter::new(SPLITTER_SPLITS, SPLITTER_COUNT, SPLITTER_DAMAGE)),
            _ => None,
        },
        freezing: match weapon_id {
            WeaponId::FreezeRay => Some(Freezing { slow_amount: FREEZE_SLOW, duration: FREEZE_DURATION }),
            _ => None,
        },
    };
    SpawnOrder { bundle, turn: spread }
}

/// What one call of the fire controller did.
#[derive(Debug)]
pub struct FireOutcome {
    /// One order for each projectile of the shot; empty where nothing fired.
    pub orders: Vec<SpawnOrder>,
    /// The fire event, where the weapon fired.
    pub event: Option<FireWeaponEvent>,
    /// Whether a shot was skipped because the registry does not know the
    /// weapon: something for the caller to warn about.
    pub unknown_weapon: bool,
}

/// Whether the fire controller shoots: the owner wants to, the weapon (after
/// its timers ran) is eligible, and the registry knows it.
pub open spec fn fires(is_firing: bool, ticked: EquippedWeapon, weapons: Seq<WeaponData>) -> bool {
    is_firing && ticked.spec_can_fire() && !has_no_entry(weapons, ticked.weapon_id)
}

/// Runs the fire controller for one owner and one tick of `dt` milliseconds.
///
/// The modifiers are read within their limits: an accuracy bonus above nine
/// tenths counts as nine tenths. The weapon's timers run first. Then, where
/// the owner is firing, the weapon is eligible and the registry knows it, one
/// order per projectile of the shot is made, each with a spread and a
/// critical roll of its own, and one unit of ammunition and one cooldown are
/// booked for the whole shot. In every other case nothing fires and nothing
/// is booked; a shot skipped for a weapon that the registry does not know is
/// reported as such.
pub fn fire_weapon_system(
    shooter: u64,
    position: Vector,
    aim: Vector,
    is_firing: bool,
    weapon: &mut EquippedWeapon,
    registry: &WeaponRegistry,
    modifiers: &ModifierSet,
    dt: u32,
) -> (out: FireOutcome)
    ensures
        ({
            let modifiers = modifiers.clamped();
            let ticked = old(weapon).after_tick(dt, modifiers.ammo_multiplier);
            if fires(is_firing, ticked, registry.weapons@) {
                exists|k: int|
                    {
                        &&& is_first_entry(registry.weapons@, ticked.weapon_id, k)
                        &&& *final(weapon) == ticked.after_shot(
                            registry.weapons@[k]@.fire_cooldown() as u32,
                            modifiers.fire_rate_multiplier,
                        )
                        &&& out.orders@.len() == registry.weapons@[k].projectiles_per_shot
                        &&& forall|i: int|
                            0 <= i < out.orders@.len() ==> is_pellet(
                                (#[trigger] out.orders@[i])@,
                                shooter,
                                position,
                                aim,
                                ticked.weapon_id,
                                registry.weapons@[k]@,
                                modifiers,
                            )
                    }
            } else {
                *final(weapon) == ticked && out.orders@.len() == 0
            }
        }),
        out.event == if fires(
            is_firing,
            old(weapon).after_tick(dt, modifiers.clamped().ammo_multiplier),
            registry.weapons@,
        ) {
            Some(FireWeaponEvent { shooter, position, direction: aim, weapon_id: old(weapon).weapon_id })
        } else {
            None
        },
        out.unknown_weapon == (is_firing && old(weapon).after_tick(
            dt,
            modifiers.clamped().ammo_multiplier,
        ).spec_can_fire() && has_no_entry(registry.weapons@, old(weapon).weapon_id)),
{
    let modifiers = modifiers.clamp();
    weapon.tick(dt, modifiers.ammo_multiplier);
    let ghost ticked = *weapon;
    let mut orders: Vec<SpawnOrder> = Vec::new();
    if !is_firing || !weapon.can_fire() {
        return FireOutcome { orders, event: None, unknown_weapon: false };
    }
    let data = match registry.get(weapon.weapon_id) {
        Some(data) => data,
        None => {
            return FireOutcome { orders, event: None, unknown_weapon: true };
        },
    };
    let ghost k: int = choose|k: int|
        is_first_entry(registry.weapons@, ticked.weapon_id, k) && registry.weapons@[k] == *data;
    proof {
        lemma_product_bound(
            data.spread as int,
            1000 - modifiers.accuracy_bonus as int,
            u32::MAX as int,
            1000,
        );
    }
    let half: i64 = (data.spread as i64) * (1000 - modifiers.accuracy_bonus as i64);
    let mut fired: u32 = 0;
    while fired < data.projectiles_per_shot
        invariant
            fired <= data.projectiles_per_shot,
            orders@.len() == fired,
            modifiers.wf(),
            0 <= half == effective_spread(data@, modifiers),
            forall|i: int|
                0 <= i < orders@.len() ==> is_pellet(
                    (#[trigger] orders@[i])@,
                    shooter,
                    position,
                    aim,
                    weapon.weapon_id,
                    data@,
                    modifiers,
                ),
        decreases data.projectiles_per_shot - fired,
    {
        let spread: i64 = random_between(-half, half);
        let roll: i64 = random_between(0, 999);
        let order = make_pellet(
            shooter,
            position,
            aim,
            weapon.weapon_id,
            data,
            &modifiers,
            spread,
            roll as u32,
        );
        orders.push(order);
        fired += 1;
    }
    weapon.register_shot(data.fire_cooldown(), modifiers.fire_rate_multiplier);
    FireOutcome {
        orders,
        event: Some(
            FireWeaponEvent { shooter, position, direction: aim, weapon_id: weapon.weapon_id },
        ),
        unknown_weapon: false,
    }
}

/// The projectile after `dt` milliseconds of flight.
pub open spec fn moved(p: LiveProjectileView, dt: u32) -> LiveProjectileView {
    LiveProjectileView {
        bundle: ProjectileBundleView {
            position: advance_spec(
                p.bundle.position,
                p.bundle.velocity.direction,
                p.bundle.velocity.speed as int,
                dt as int,
            ),
            ..p.bundle
        },
        ..p
    }
}

/// Advances every projectile along its velocity.
pub fn projectile_movement(projectiles: &mut Vec<LiveProjectile>, dt: u32)
    ensures
        final(projectiles)@.len() == old(projectiles)@.len(),
        forall|i: int|
            0 <= i < old(projectiles)@.len() ==> (#[trigger] final(projectiles)@[i])@ == moved(
                old(projectiles)@[i]@,
                dt,
            ),
{
    let ghost before = projectiles@;
    let mut i: usize = 0;
    while i < projectiles.len()
        invariant
            i <= projectiles.len(),
            projectiles@.len() == before.len(),
            forall|j: int| 0 <= j < i ==> (#[trigger] projectiles@[j])@ == moved(before[j]@, dt),
            forall|j: int| i <= j < before.len() ==> (#[trigger] projectiles@[j])@ == before[j]@,
        decreases projectiles.len() - i,
    {
        let velocity = projectiles[i].bundle.velocity;
        let position = advance(projectiles[i].bundle.position, velocity.direction, velocity.speed, dt);
        projectiles[i].bundle.position = position;
        i += 1;
    }
}

/// The projectile after `dt` milliseconds of its lifetime: one that is not
/// marked ages, and is marked once its time is up; a marked one stays as it is.
pub open spec fn aged(p: LiveProjectileView, dt: u32) -> LiveProjectileView {
    if p.despawn {
        p
    } else {
        LiveProjectileView {
            bundle: ProjectileBundleView { lifetime: p.bundle.lifetime.after_tick(dt), ..p.bundle },
            despawn: p.bundle.lifetime.after_tick(dt).spec_is_expired(),
            ..p
        }
    }
}

/// Ages every projectile and marks the expired ones; none is removed.
pub fn projectile_lifetime(projectiles: &mut Vec<LiveProjectile>, dt: u32)
    ensures
        final(projectiles)@.len() == old(projectiles)@.len(),
        forall|i: int|
            0 <= i < old(projectiles)@.len() ==> (#[trigger] final(projectiles)@[i])@ == aged(
                old(projectiles)@[i]@,
                dt,
            ),
{
    let ghost before = projectiles@;
    let mut i: usize = 0;
    while i < projectiles.len()
        invariant
            i <= projectiles.len(),
            projectiles@.len() == before.len(),
            forall|j: int| 0 <= j < i ==> (#[trigger] projectiles@[j])@ == aged(before[j]@, dt),
            forall|j: int| i <= j < before.len() ==> (#[trigger] projectiles@[j])@ == before[j]@,
        decreases projectiles.len() - i,
    {
        if !projectiles[i].despawn {
            let mut lifetime = projectiles[i].bundle.lifetime;
            lifetime.tick(dt);
            projectiles[i].bundle.lifetime = lifetime;
            if lifetime.is_expired() {
                projectiles[i].despawn = true;
            }
        }
        i += 1;
    }
}

/// The projectiles among the first `n` that are not marked, in their order.
pub open spec fn survivors(projectiles: Seq<LiveProjectileView>, n: int) -> Seq<LiveProjectileView>
    decreases n,
{
    if n <= 0 {
        Seq::empty()
    } else if projectiles[n - 1].despawn {
        survivors(projectiles, n - 1)
    } else {
        survivors(projectiles, n - 1).push(projectiles[n - 1])
    }
}

/// The entities of the projectiles among the first `n` that are marked, in
/// their order.
pub open spec fn marked_entities(projectiles: Seq<LiveProjectileView>, n: int) -> Seq<u64>
    decreases n,
{
    if n <= 0 {
        Seq::empty()
    } else if projectiles[n - 1].despawn {
        marked_entities(projectiles, n - 1).push(projectiles[n - 1].entity)
    } else {
        marked_entities(projectiles, n - 1)
    }
}

/// Removes the marked projectiles, keeping the others in their order, and
/// returns the entities of those removed.
pub fn cleanup_projectiles(projectiles: &mut Vec<LiveProjectile>) -> (removed: Vec<u64>)
    ensures
        projectile_views(final(projectiles)@) == survivors(
            projectile_views(old(projectiles)@),
            old(projectiles)@.len() as int,
        ),
        removed@ == marked_entities(
            projectile_views(old(projectiles)@),
            old(projectiles)@.len() as int,
        ),
{
    let ghost before = projectile_views(projectiles@);
    let mut kept: Vec<LiveProjectile> = Vec::new();
    let mut removed: Vec<u64> = Vec::new();
    let mut i: usize = 0;
    while i < projectiles.len()
        invariant
            i <= projectiles.len(),
            before == projectile_views(projectiles@),
            projectile_views(kept@) == survivors(before, i as int),
            removed@ == marked_entities(before, i as int),
        decreases projectiles.len() - i,
    {
        if projectiles[i].despawn {
            removed.push(projectiles[i].entity);
        } else {
            let ghost earlier = projectile_views(kept@);
            kept.push(projectiles[i].clone());
            assert(projectile_views(kept@) =~= earlier.push(before[i as int]));
        }
        i += 1;
    }
    *projectiles = kept;
    removed
}

/// Removes every projectile and returns their entities, in order.
pub fn despawn_all_projectiles(projectiles: &mut Vec<LiveProjectile>) -> (removed: Vec<u64>)
    ensures
        final(projectiles)@.len() == 0,
        removed@.len() == old(projectiles)@.len(),
        forall|i: int|
            0 <= i < old(projectiles)@.len() ==> #[trigger] removed@[i] == old(
                projectiles,
            )@[i].entity,
{
    let mut removed: Vec<u64> = Vec::new();
    let mut i: usize = 0;
    while i < projectiles.len()
        invariant
            i <= projectiles.len(),
            removed@.len() == i,
            forall|j: int| 0 <= j < i ==> #[trigger] removed@[j] == projectiles@[j].entity,
        decreases projectiles.len() - i,
    {
        removed.push(projectiles[i].entity);
        i += 1;
    }
    projectiles.clear();
    removed
}

/// The share of the way that a projectile turns toward its target in `dt`
/// milliseconds, in thousandths: the turn rate times the time, at most all of
/// the way.
pub open spec fn turn_fraction(turn_rate: u32, dt: u32) -> int {
    if scale_spec(turn_rate as int, dt as int) > 1000 {
        1000
    } else {
        scale_spec(turn_rate as int, dt as int)
    }
}

/// The target that a homing projectile steers at: the remembered one while it
/// is alive, else the nearest live one.
pub open spec fn homing_choice(p: LiveProjectileView, targets: Seq<Target>) -> Option<int> {
    let remembered = match p.bundle.homing->0.target {
        Some(e) => first_with_entity(targets, e, 0),
        None => None,
    };
    if remembered is Some {
        remembered
    } else {
        nearest(targets, targets.len() as int, p.bundle.position, Seq::empty(), None)
    }
}

/// The direction after a turn by the fraction `t` toward `desired`: the
/// blend of the two. A turn neither gives nor takes a heading: the zero
/// direction of a projectile at rest stays zero, and where the two
/// directions cancel the direction stays as it was.
pub open spec fn turned(direction: Vector, desired: Vector, t: int) -> Vector {
    let blended = blend_spec(normalize_spec(direction.x as int, direction.y as int), desired, t);
    if (direction.x == 0 && direction.y == 0) || (blended.x == 0 && blended.y == 0) {
        direction
    } else {
        blended
    }
}

/// The projectile after steering for `dt` milliseconds. One without the
/// homing capability is left alone. A homing one forgets a target that is
/// gone, picks the nearest live target where it has none, and turns its
/// direction toward the target; its speed stays what it was, and one at rest
/// stays at rest.
pub open spec fn steered(p: LiveProjectileView, targets: Seq<Target>, dt: u32) -> LiveProjectileView {
    match p.bundle.homing {
        None => p,
        Some(h) => match homing_choice(p, targets) {
            None => LiveProjectileView {
                bundle: ProjectileBundleView {
                    homing: Some(Homing { target: None, ..h }),
                    ..p.bundle
                },
                ..p
            },
            Some(k) => LiveProjectileView {
                bundle: ProjectileBundleView {
                    homing: Some(Homing { target: Some(targets[k].entity), ..h }),
                    velocity: Velocity {
                        direction: turned(
                            p.bundle.velocity.direction,
                            direction_to_spec(p.bundle.position, targets[k].position),
                            turn_fraction(h.turn_rate, dt),
                        ),
                        speed: p.bundle.velocity.speed,
                    },
                    ..p.bundle
                },
                ..p
            },
        },
    }
}

/// Steers one projectile.
fn steer(p: &mut LiveProjectile, targets: &Vec<Target>, dt: u32)
    ensures
        final(p)@ == steered(old(p)@, targets@, dt),
{
    let homing = match p.bundle.homing {
        Some(h) => h,
        None => {
            return ;
        },
    };
    let remembered: Option<usize> = match homing.target {
        Some(e) => find_entity(targets, e),
        None => None,
    };
    let none: Vec<u64> = Vec::new();
    let chosen: Option<usize> = if remembered.is_some() {
        remembered
    } else {
        find_nearest(targets, p.bundle.position, &none, None)
    };
    assert(none@ =~= Seq::<u64>::empty());
    match chosen {
        None => {
            p.bundle.homing = Some(Homing { turn_rate: homing.turn_rate, target: None });
        },
        Some(k) => {
            let target = targets[k];
            let desired = direction_to(p.bundle.position, target.position);
            let current = normalize_or_zero(
                p.bundle.velocity.direction.x as i64,
                p.bundle.velocity.direction.y as i64,
            );
            let blended = blend(current, desired, scale(homing.turn_rate, dt));
            let at_rest = p.bundle.velocity.direction.x == 0 && p.bundle.velocity.direction.y == 0;
            let direction = if at_rest || (blended.x == 0 && blended.y == 0) {
                p.bundle.velocity.direction
            } else {
                blended
            };
            p.bundle.homing = Some(Homing { turn_rate: homing.turn_rate, target: Some(target.entity) });
            p.bundle.velocity = Velocity { direction, speed: p.bundle.velocity.speed };
        },
    }
}

/// Steers every homing projectile toward its target.
pub fn homing_projectile_update(projectiles: &mut Vec<LiveProjectile>, targets: &Vec<Target>, dt: u32)
    ensures
        final(projectiles)@.len() == old(projectiles)@.len(),
        forall|i: int|
            0 <= i < old(projectiles)@.len() ==> (#[trigger] final(projectiles)@[i])@ == steered(
                old(projectiles)@[i]@,
                targets@,
                dt,
            ),
{
    let ghost before = projectiles@;
    let mut i: usize = 0;
    while i < projectiles.len()
        invariant
            i <= projectiles.len(),
            projectiles@.len() == before.len(),
            forall|j: int|
                0 <= j < i ==> (#[trigger] projectiles@[j])@ == steered(before[j]@, targets@, dt),
            forall|j: int| i <= j < before.len() ==> (#[trigger] projectiles@[j])@ == before[j]@,
        decreases projectiles.len() - i,
    {
        steer(&mut projectiles[i], targets, dt);
        i += 1;
    }
}

/// What the collision stage produced besides the changes to projectiles and
/// targets: the hit events, and the orders for the projectiles that the
/// queued effects spawn.
#[derive(Debug)]
pub struct CollisionReport {
    pub hits: Vec<ProjectileHitEvent>,
    pub orders: Vec<SpawnOrder>,
}

/// Resolves the collisions of one tick.
///
/// First the scan: every projectile that is not marked is held against the
/// live targets in order, and each hit deals its direct damage. Only when the
/// whole scan is over are the queued effects resolved: the explosions damage
/// the targets around each hit, then each chain request spawns its relay and
/// each split request its fragments. Spent projectiles are marked, not
/// removed.
pub fn projectile_collision(projectiles: &mut Vec<LiveProjectile>, targets: &mut Vec<Target>) -> (report:
    CollisionReport)
    ensures
        ({
            let (scanned, st) = scan_all(
                projectile_views(old(projectiles)@),
                scan_start(old(targets)@),
                0,
            );
            &&& projectile_views(final(projectiles)@) == scanned
            &&& report.hits@ == st.hits
            &&& final(targets)@.len() == st.targets.len()
            &&& forall|j: int|
                0 <= j < st.targets.len() ==> #[trigger] final(targets)@[j] == blasted(
                    st.targets[j],
                    st.queues.explosions,
                    st.queues.explosions.len() as int,
                )
            &&& order_views(report.orders@) == relays(
                st.queues.chain_spawns,
                final(targets)@,
                st.queues.chain_spawns.len() as int,
            ) + fragments(st.queues.split_spawns, st.queues.split_spawns.len() as int)
        }),
        final(targets)@ == resolved(projectile_views(old(projectiles)@), old(targets)@),
        order_views(report.orders@) == step_relays(
            projectile_views(old(projectiles)@),
            old(targets)@,
        ) + step_fragments(projectile_views(old(projectiles)@), old(targets)@),
        final(projectiles)@.len() == old(projectiles)@.len(),
        final(targets)@.len() == old(targets)@.len(),
{
    let ghost before = projectile_views(projectiles@);
    let ghost creatures = targets@;
    proof {
        lemma_scan_all(before, scan_start(creatures), 0);
    }
    let scan = scan_collisions(projectiles, targets);
    apply_explosions(&scan.queues.explosions, targets);
    let mut orders: Vec<SpawnOrder> = Vec::new();
    assert(order_views(orders@) =~= Seq::empty());
    spawn_chain_relays(&scan.queues.chain_spawns, targets, &mut orders);
    spawn_split_fragments(&scan.queues.split_spawns, &mut orders);
    assert(Seq::<SpawnOrderView>::empty() + relays(
        scan.queues@.chain_spawns,
        targets@,
        scan.queues@.chain_spawns.len() as int,
    ) =~= relays(scan.queues@.chain_spawns, targets@, scan.queues@.chain_spawns.len() as int));
    assert(targets@ =~= resolved(before, creatures));
    CollisionReport { hits: scan.hits, orders }
}

/// The places of the explosive projectiles among the first `n` that are
/// marked for removal, in their order.
pub open spec fn bursts(projectiles: Seq<LiveProjectileView>, n: int) -> Seq<Vector>
    decreases n,
{
    if n <= 0 {
        Seq::empty()
    } else if projectiles[n - 1].despawn && projectiles[n - 1].bundle.explosive is Some {
        bursts(projectiles, n - 1).push(projectiles[n - 1].bundle.position)
    } else {
        bursts(projectiles, n - 1)
    }
}

/// Where an explosive projectile is about to be removed: the places at which
/// a burst is to be shown.
pub fn explosion_bursts(projectiles: &Vec<LiveProjectile>) -> (r: Vec<Vector>)
    ensures
        r@ == bursts(projectile_views(projectiles@), projectiles@.len() as int),
{
    let mut places: Vec<Vector> = Vec::new();
    let mut i: usize = 0;
    while i < projectiles.len()
        invariant
            i <= projectiles.len(),
            places@ == bursts(projectile_views(projectiles@), i as int),
        decreases projectiles.len() - i,
    {
        if projectiles[i].despawn && projectiles[i].bundle.explosive.is_some() {
            places.push(projectiles[i].bundle.position);
        }
        i += 1;
    }
    places
}

/// The projectiles after flight: each moved, then aged and marked where its
/// time is up, then steered.
pub open spec fn flown(projectiles: Seq<LiveProjectileView>, targets: Seq<Target>, dt: u32) -> Seq<
    LiveProjectileView,
> {
    Seq::new(projectiles.len(), |i: int| steered(aged(moved(projectiles[i], dt), dt), targets, dt))
}

/// The targets after every queued explosion.
pub open spec fn all_blasted(targets: Seq<Target>, explosions: Seq<ExplosionRequest>) -> Seq<Target> {
    Seq::new(targets.len(), |j: int| blasted(targets[j], explosions, explosions.len() as int))
}

/// What one tick of combat produced.
#[derive(Debug)]
pub struct TickReport {
    /// The hits of the tick, in scan order.
    pub hits: Vec<ProjectileHitEvent>,
    /// The projectiles to spawn: relays first, then fragments.
    pub orders: Vec<SpawnOrder>,
    /// Where an explosive projectile was removed.
    pub bursts: Vec<Vector>,
    /// The entities of the projectiles that were removed.
    pub removed: Vec<u64>,
}

/// Runs the stages of one tick that follow the firing, in their order:
/// flight and lifetime, steering, the collision scan, the effects that the
/// scan queued, and cleanup. A projectile whose time runs out in this tick is
/// marked before the scan and hits nothing; a projectile spent in the scan
/// stays in the list until cleanup, the last stage, removes every marked one.
pub fn advance_combat(projectiles: &mut Vec<LiveProjectile>, targets: &mut Vec<Target>, dt: u32) -> (report:
    TickReport)
    ensures
        ({
            let (scanned, st) = scan_all(
                flown(projectile_views(old(projectiles)@), old(targets)@, dt),
                scan_start(old(targets)@),
                0,
            );
            &&& final(targets)@ == all_blasted(st.targets, st.queues.explosions)
            &&& report.hits@ == st.hits
            &&& order_views(report.orders@) == relays(
                st.queues.chain_spawns,
                final(targets)@,
                st.queues.chain_spawns.len() as int,
            ) + fragments(st.queues.split_spawns, st.queues.split_spawns.len() as int)
            &&& report.bursts@ == bursts(scanned, scanned.len() as int)
            &&& report.removed@ == marked_entities(scanned, scanned.len() as int)
            &&& projectile_views(final(projectiles)@) == survivors(scanned, scanned.len() as int)
        }),
        final(targets)@.len() == old(targets)@.len(),
{
    let ghost before = projectile_views(projectiles@);
    let ghost creatures = targets@;
    projectile_movement(projectiles, dt);
    projectile_lifetime(projectiles, dt);
    homing_projectile_update(projectiles, targets, dt);
    assert(projectile_views(projectiles@) =~= flown(before, creatures, dt));
    let collision = projectile_collision(projectiles, targets);
    proof {
        let (scanned, st) = scan_all(flown(before, creatures, dt), scan_start(creatures), 0);
        assert(targets@ =~= all_blasted(st.targets, st.queues.explosions));
    }
    let places = explosion_bursts(projectiles);
    let removed = cleanup_projectiles(projectiles);
    TickReport { hits: collision.hits, orders: collision.orders, bursts: places, removed }
}

} // verus!
