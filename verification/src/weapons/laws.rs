//! What holds of the stages of combat, on every input.

use vstd::prelude::*;
use crate::creatures::components::Target;
use crate::fixed::{int_sqrt, lemma_sqrt_is};
use crate::geometry::{
    direction_to_spec, dist_sq_spec, is_heading, lemma_normalized_is_heading, normalize_spec, Vector,
};
use crate::weapons::collision::{
    after_hit, collides, queued_chain, queued_split, record_hit, scan_all, scan_from, scan_one,
    struck, ExplosionRequest, ScanView, COLLISION_RADIUS,
};
use crate::weapons::components::{
    plain_bundle, ChainLightningView, EquippedWeapon, LiveProjectileView, Splitter, WeaponId,
    WeaponPhase,
};
use crate::weapons::registry::{
    builtin_table, builtin_weapon, has_no_entry, index_of, is_first_entry,
    lemma_builtin_table_complete, weapon_views, WeaponData,
};
use crate::weapons::effects::{
    blast, blasted, explosion_damage, fragments_of, relay, relay_target,
};
use crate::weapons::systems::{aged, homing_choice, moved, steered, turn_fraction};
use crate::weapons::targeting::{eligible, first_with_entity, lemma_nearest};

verus! {

/// A shot costs a finite weapon one round, or none where it has none left,
/// and an infinite one nothing; it sets the cooldown; it leaves the rest of
/// the weapon alone. How many projectiles the shot sends out plays no part.
pub proof fn lemma_shot_costs_one_round(
    weapon: EquippedWeapon,
    base_cooldown: u32,
    fire_rate_multiplier: u32,
)
    ensures
        ({
            let after = weapon.after_shot(base_cooldown, fire_rate_multiplier);
            &&& match weapon.ammo {
                Some(a) => after.ammo is Some && after.ammo->0 <= a && a <= after.ammo->0 + 1,
                None => after.ammo is None,
            }
            &&& weapon.spec_can_fire() && weapon.ammo is Some ==> after.ammo->0 + 1
                == weapon.ammo->0
            &&& after.weapon_id == weapon.weapon_id
            &&& after.reload_timer == weapon.reload_timer
            &&& after.max_ammo == weapon.max_ammo
        }),
{
}

/// A weapon can fire in exactly one of its four states.
pub proof fn lemma_ready_is_eligible(weapon: EquippedWeapon)
    ensures
        weapon.spec_can_fire() <==> weapon.spec_phase() == WeaponPhase::Ready,
{
}

/// A reload command puts a finite weapon that is not reloading into a reload,
/// and leaves every other weapon as it is.
pub proof fn lemma_reload_command(weapon: EquippedWeapon, reload_time: u32)
    ensures
        weapon.ammo is Some && weapon.reload_timer == 0 && reload_time > 0
            ==> weapon.after_reload_command(reload_time).spec_phase() == WeaponPhase::Reloading,
        weapon.ammo is None || weapon.reload_timer > 0 ==> weapon.after_reload_command(
            reload_time,
        ) == weapon,
{
}

/// When the timers have run out, a weapon with ammunition is ready, and a
/// reload that ended has filled a finite weapon to its capacity times the
/// ammunition multiplier.
pub proof fn lemma_timers_elapse(weapon: EquippedWeapon, dt: u32, ammo_multiplier: u32)
    requires
        dt >= weapon.fire_cooldown,
        dt >= weapon.reload_timer,
    ensures
        ({
            let after = weapon.after_tick(dt, ammo_multiplier);
            &&& after.fire_cooldown == 0
            &&& after.reload_timer == 0
            &&& after.spec_has_ammo() ==> after.spec_phase() == WeaponPhase::Ready
            &&& weapon.reload_timer > 0 && weapon.max_ammo is Some ==> after.ammo == Some(
                crate::fixed::scale_spec(weapon.max_ammo->0 as int, ammo_multiplier as int) as u32,
            )
        }),
{
}

/// The damage of an explosion is never more than its damage at the centre.
pub proof fn lemma_explosion_damage_bounded(e: ExplosionRequest, d: int)
    requires
        0 <= d < e.radius * e.radius,
    ensures
        0 <= explosion_damage(e, d) <= e.damage,
{
    let r = e.radius as int;
    assert(r > 0) by (nonlinear_arith)
        requires
            0 <= d < r * r,
            r >= 0,
    ;
    crate::fixed::lemma_sqrt_exists(d);
    let s = int_sqrt(d);
    if s >= r {
        crate::fixed::lemma_square_monotonic(r, s);
    }
    let amount = e.damage as int;
    let part = r - s;
    assert(0 <= amount * part / r <= amount) by (nonlinear_arith)
        requires
            0 <= amount,
            0 < part <= r,
    ;
}

/// An explosion does nothing to the target that was hit directly, nothing to
/// a target at the radius or beyond, and nothing at all where it has no
/// radius; a target at the very centre takes the full damage.
pub proof fn lemma_explosion_falloff(e: ExplosionRequest, t: Target)
    ensures
        t.entity == e.primary ==> blast(e, t) == t,
        dist_sq_spec(e.center, t.position) >= e.radius * e.radius ==> blast(e, t) == t,
        e.radius == 0 ==> blast(e, t) == t,
        t.entity != e.primary && t.position == e.center && e.radius > 0 ==> blast(e, t) == (Target {
            health: t.health.after_damage(e.damage),
            ..t
        }),
        blast(e, t).health.current <= t.health.current,
        blast(e, t).entity == t.entity && blast(e, t).position == t.position && blast(e, t).speed
            == t.speed,
{
    if e.radius == 0 {
        let dx = e.center.x - t.position.x;
        let dy = e.center.y - t.position.y;
        assert(dx * dx + dy * dy >= 0) by (nonlinear_arith);
        assert(dist_sq_spec(e.center, t.position) >= e.radius * e.radius);
    }
    if t.entity != e.primary && t.position == e.center && e.radius > 0 {
        let r = e.radius as int;
        assert(dist_sq_spec(e.center, t.position) == 0);
        assert(0 < r * r) by (nonlinear_arith)
            requires
                r > 0,
        ;
        assert(crate::fixed::is_sqrt(0, 0));
        lemma_sqrt_is(0, 0);
        let amount = e.damage as int;
        assert(amount * r / r == amount) by (nonlinear_arith)
            requires
                r > 0,
        ;
        assert(explosion_damage(e, 0) == amount);
    }
}

/// Explosions leave every target where and who it is, and never raise its
/// health.
pub proof fn lemma_blasted_target(t: Target, explosions: Seq<ExplosionRequest>, n: int)
    requires
        0 <= n <= explosions.len(),
    ensures
        blasted(t, explosions, n).entity == t.entity,
        blasted(t, explosions, n).position == t.position,
        blasted(t, explosions, n).speed == t.speed,
        blasted(t, explosions, n).health.current <= t.health.current,
        blasted(t, explosions, n).health.max == t.health.max,
    decreases n,
{
    if n > 0 {
        lemma_blasted_target(t, explosions, n - 1);
        lemma_explosion_falloff(explosions[n - 1], blasted(t, explosions, n - 1));
    }
}

/// Steering changes where a projectile is headed and which target it
/// remembers, and nothing else: not its speed, and not its position. A
/// projectile that has a heading keeps one, so it goes on moving at its
/// speed, and one without a heading gets none, so it stays at rest.
pub proof fn lemma_steering_keeps_speed(p: LiveProjectileView, targets: Seq<Target>, dt: u32)
    ensures
        p.bundle.velocity.direction != (Vector { x: 0, y: 0 }) <==> steered(
            p,
            targets,
            dt,
        ).bundle.velocity.direction != (Vector { x: 0, y: 0 }),
        steered(p, targets, dt).bundle.velocity.speed == p.bundle.velocity.speed,
        steered(p, targets, dt).bundle.position == p.bundle.position,
        steered(p, targets, dt).bundle.projectile == p.bundle.projectile,
        steered(p, targets, dt).bundle.lifetime == p.bundle.lifetime,
        steered(p, targets, dt).entity == p.entity,
        steered(p, targets, dt).despawn == p.despawn,
        p.bundle.homing is None ==> steered(p, targets, dt) == p,
{
}

/// Steering keeps a heading a heading. A projectile whose direction is zero
/// or of length one thousand within rounding, as every projectile is made,
/// has such a direction after steering: with its speed unchanged, it covers
/// the same distance per tick as before, to that rounding.
pub proof fn lemma_steering_keeps_heading(p: LiveProjectileView, targets: Seq<Target>, dt: u32)
    requires
        is_heading(p.bundle.velocity.direction),
    ensures
        is_heading(steered(p, targets, dt).bundle.velocity.direction),
{
    if p.bundle.homing is Some && homing_choice(p, targets) is Some {
        let k = homing_choice(p, targets)->0;
        let current = normalize_spec(
            p.bundle.velocity.direction.x as int,
            p.bundle.velocity.direction.y as int,
        );
        let desired = direction_to_spec(p.bundle.position, targets[k].position);
        let t = turn_fraction(p.bundle.homing->0.turn_rate, dt);
        lemma_normalized_is_heading(
            current.x * (1000 - t) + desired.x * t,
            current.y * (1000 - t) + desired.y * t,
        );
    }
}

/// Every projectile is made with a heading: the plain bundle that all
/// constructors, relays and fragments start from has a direction that is zero
/// or of length one thousand within rounding.
pub proof fn lemma_made_with_heading(
    weapon_id: WeaponId,
    damage: u32,
    owner: u64,
    position: Vector,
    direction: Vector,
    speed: u32,
    lifetime: u32,
)
    ensures
        is_heading(
            plain_bundle(
                weapon_id,
                damage,
                owner,
                position,
                direction,
                speed,
                lifetime,
            ).velocity.direction,
        ),
{
    lemma_normalized_is_heading(direction.x as int, direction.y as int);
}

/// Neither flight nor age nor a hit changes the direction or the speed of a
/// projectile.
pub proof fn lemma_velocity_is_kept(p: LiveProjectileView, dt: u32, t: Target)
    ensures
        moved(p, dt).bundle.velocity == p.bundle.velocity,
        aged(p, dt).bundle.velocity == p.bundle.velocity,
        after_hit(p, t).bundle.velocity == p.bundle.velocity,
{
}

/// A hit keeps the chain's memory free of repetitions.
pub proof fn lemma_hit_keeps_memory_distinct(p: LiveProjectileView, t: Target)
    requires
        p.bundle.wf(),
        collides(p, t),
    ensures
        after_hit(p, t).bundle.wf(),
        queued_chain(p, t) is Some ==> queued_chain(p, t)->0.already_hit.no_duplicates(),
{
    if p.bundle.chain_lightning is Some {
        let c = p.bundle.chain_lightning->0;
        assert(!c.already_hit.contains(t.entity));
        if c.jumps_remaining > 0 {
            let grown = c.already_hit.push(t.entity);
            assert forall|i: int, j: int| 0 <= i < grown.len() && 0 <= j < grown.len() && i != j implies grown[i]
                != grown[j] by {
                if i < c.already_hit.len() && j < c.already_hit.len() {
                } else if i < c.already_hit.len() {
                    assert(c.already_hit.contains(grown[i]));
                } else {
                    assert(c.already_hit.contains(grown[j]));
                }
            }
        }
    }
}

/// One jump of a chain. The hit of a chain projectile queues a relay only
/// while it has jumps left. The relay, where one is spawned, has one jump
/// less; it remembers the target just hit besides those hit before; and the
/// target it flies at is none of those it remembers.
pub proof fn lemma_chain_jump(p: LiveProjectileView, t: Target, targets: Seq<Target>)
    requires
        collides(p, t),
    ensures
        queued_chain(p, t) is Some <==> p.bundle.chain_lightning is Some
            && p.bundle.chain_lightning->0.jumps_remaining > 0,
        queued_chain(p, t) is Some ==> ({
            let parent = p.bundle.chain_lightning->0;
            let request = queued_chain(p, t)->0;
            &&& request.jumps + 1 == parent.jumps_remaining
            &&& request.already_hit == parent.already_hit.push(t.entity)
            &&& match relay(request, targets) {
                Some(order) => {
                    &&& order.bundle.chain_lightning is Some
                    &&& order.bundle.chain_lightning->0.jumps_remaining + 1
                        == parent.jumps_remaining
                    &&& order.bundle.chain_lightning->0.already_hit == request.already_hit
                    &&& order.bundle.projectile.pierce_count == 0
                    &&& relay_target(request, targets) is Some
                    &&& 0 <= relay_target(request, targets)->0 < targets.len()
                    &&& targets[relay_target(request, targets)->0].entity != t.entity
                    &&& !parent.already_hit.contains(
                        targets[relay_target(request, targets)->0].entity,
                    )
                },
                None => relay_target(request, targets) is None,
            }
        }),
{
    if queued_chain(p, t) is Some {
        let parent = p.bundle.chain_lightning->0;
        let request = queued_chain(p, t)->0;
        lemma_nearest(
            targets,
            targets.len() as int,
            request.position,
            request.already_hit,
            Some(request.range),
        );
        if relay_target(request, targets) is Some {
            let k = relay_target(request, targets)->0;
            let e = targets[k].entity;
            assert(!request.already_hit.contains(e));
            assert(request.already_hit[parent.already_hit.len() as int] == t.entity);
            if parent.already_hit.contains(e) {
                let i = choose|i: int| 0 <= i < parent.already_hit.len() && parent.already_hit[i] == e;
                assert(request.already_hit[i] == e);
            }
        }
    }
}

/// Whether each tag but the first is that of a relay queued by a hit of the
/// projectile with the tag before it.
pub open spec fn is_chain_lineage(tags: Seq<ChainLightningView>) -> bool {
    forall|i: int|
        0 <= i < tags.len() - 1 ==> (#[trigger] tags[i]).jumps_remaining > 0 && tags[i
            + 1].jumps_remaining + 1 == tags[i].jumps_remaining
}

/// A chain that starts with a number of jumps is carried on by at most that
/// many relays, one after the other.
pub proof fn lemma_chain_lineage_bounded(tags: Seq<ChainLightningView>)
    requires
        tags.len() > 0,
        is_chain_lineage(tags),
    ensures
        tags.len() - 1 <= tags[0].jumps_remaining,
{
    lemma_chain_lineage_counts(tags, tags.len() - 1);
}

/// Along a chain lineage the jumps left go down by one with each relay.
pub proof fn lemma_chain_lineage_counts(tags: Seq<ChainLightningView>, i: int)
    requires
        0 <= i < tags.len(),
        is_chain_lineage(tags),
    ensures
        tags[i].jumps_remaining + i == tags[0].jumps_remaining,
    decreases i,
{
    if i > 0 {
        lemma_chain_lineage_counts(tags, i - 1);
        assert(tags[i - 1].jumps_remaining > 0);
    }
}

/// One split. The hit of a splitter queues fragments only while it has splits
/// left; there are then as many fragments as its count says; each has one
/// split less than the projectile that was hit, and none can split once that
/// number is zero.
pub proof fn lemma_split(p: LiveProjectileView, t: Target)
    ensures
        queued_split(p, t) is Some <==> p.bundle.splitter is Some
            && p.bundle.splitter->0.splits_remaining > 0,
        queued_split(p, t) is Some ==> ({
            let parent = p.bundle.splitter->0;
            let request = queued_split(p, t)->0;
            &&& request.splits + 1 == parent.splits_remaining
            &&& fragments_of(request).len() == parent.split_count
            &&& forall|i: int|
                0 <= i < parent.split_count ==> match (#[trigger] fragments_of(
                    request,
                )[i]).bundle.splitter {
                    Some(s) => s.splits_remaining + 1 == parent.splits_remaining
                        && s.splits_remaining > 0 && s.split_count == parent.split_count,
                    None => parent.splits_remaining == 1,
                }
        }),
{
}

/// Whether each tag but the first is that of a fragment of the projectile
/// with the tag before it.
pub open spec fn is_split_lineage(tags: Seq<Splitter>) -> bool {
    forall|i: int|
        0 <= i < tags.len() - 1 ==> (#[trigger] tags[i]).splits_remaining > 0 && tags[i
            + 1].splits_remaining + 1 == tags[i].splits_remaining
}

/// Along a split lineage the splits left go down by one with each
/// generation.
pub proof fn lemma_split_lineage_counts(tags: Seq<Splitter>, i: int)
    requires
        0 <= i < tags.len(),
        is_split_lineage(tags),
    ensures
        tags[i].splits_remaining + i == tags[0].splits_remaining,
    decreases i,
{
    if i > 0 {
        lemma_split_lineage_counts(tags, i - 1);
        assert(tags[i - 1].splits_remaining > 0);
    }
}

/// A splitter that starts with a number of splits has fragments that can
/// split for fewer generations than that: with the projectile itself, at most
/// that many generations split.
pub proof fn lemma_split_lineage_bounded(tags: Seq<Splitter>)
    requires
        tags.len() > 0,
        is_split_lineage(tags),
    ensures
        tags.len() - 1 <= tags[0].splits_remaining,
        tags[tags.len() - 1].splits_remaining > 0 ==> tags.len() <= tags[0].splits_remaining,
{
    lemma_split_lineage_counts(tags, tags.len() - 1);
}

/// The number of hits that a scan has recorded beyond those of `before`.
pub open spec fn hits_added(before: ScanView, after: ScanView) -> int {
    after.hits.len() - before.hits.len()
}

/// The scan of one projectile. It hits at most one target more than it has
/// pierce, and is marked exactly when it hit that many; it spends one pierce
/// per hit that leaves it in flight. It never hits a target that its chain
/// remembered when the scan began. It leaves every target where and who it
/// is, and raises no target's health. The hit events and queued effects of
/// earlier projectiles stay as they are.
pub proof fn lemma_scan_from(p: LiveProjectileView, st: ScanView, k: int)
    requires
        0 <= k <= st.targets.len(),
        !p.despawn,
    ensures
        ({
            let (q, end) = scan_from(p, st, k);
            &&& 0 <= hits_added(st, end) <= p.bundle.projectile.pierce_count + 1
            &&& q.despawn <==> hits_added(st, end) == p.bundle.projectile.pierce_count + 1
            &&& q.bundle.projectile.pierce_count + hits_added(st, end) == p.bundle.projectile.pierce_count
                + if q.despawn {
                1int
            } else {
                0int
            }
            &&& end.hits.subrange(0, st.hits.len() as int) == st.hits
            &&& forall|i: int|
                st.hits.len() <= i < end.hits.len() ==> {
                    &&& (#[trigger] end.hits[i]).projectile == p.entity
                    &&& end.hits[i].damage == p.bundle.projectile.damage
                    &&& p.bundle.chain_lightning is Some
                        ==> !p.bundle.chain_lightning->0.already_hit.contains(end.hits[i].target)
                }
            &&& end.targets.len() == st.targets.len()
            &&& forall|j: int|
                0 <= j < st.targets.len() ==> {
                    &&& (#[trigger] end.targets[j]).entity == st.targets[j].entity
                    &&& end.targets[j].position == st.targets[j].position
                    &&& end.targets[j].health.current <= st.targets[j].health.current
                    &&& end.targets[j].health.max == st.targets[j].health.max
                }
            &&& forall|j: int| 0 <= j < k ==> #[trigger] end.targets[j] == st.targets[j]
            &&& q.entity == p.entity
            &&& q.bundle.position == p.bundle.position
            &&& q.bundle.projectile.damage == p.bundle.projectile.damage
            &&& end.queues.explosions.len() - st.queues.explosions.len() <= hits_added(st, end)
            &&& end.queues.chain_spawns.len() - st.queues.chain_spawns.len() <= hits_added(st, end)
            &&& end.queues.split_spawns.len() - st.queues.split_spawns.len() <= hits_added(st, end)
        }),
    decreases st.targets.len() - k,
{
    if k < st.targets.len() {
        if collides(p, st.targets[k]) {
            let hit = after_hit(p, st.targets[k]);
            let next = record_hit(st, p, k);
            assert(next.hits.subrange(0, st.hits.len() as int) =~= st.hits);
            if !hit.despawn {
                lemma_scan_from(hit, next, k + 1);
                let (q, end) = scan_from(hit, next, k + 1);
                assert(end.hits.subrange(0, st.hits.len() as int) =~= end.hits.subrange(
                    0,
                    next.hits.len() as int,
                ).subrange(0, st.hits.len() as int));
                assert forall|i: int| st.hits.len() <= i < end.hits.len() implies {
                    &&& (#[trigger] end.hits[i]).projectile == p.entity
                    &&& end.hits[i].damage == p.bundle.projectile.damage
                    &&& p.bundle.chain_lightning is Some
                        ==> !p.bundle.chain_lightning->0.already_hit.contains(end.hits[i].target)
                } by {
                    if i == st.hits.len() {
                        assert(end.hits[i] == end.hits.subrange(0, next.hits.len() as int)[i]);
                    } else if p.bundle.chain_lightning is Some {
                        let before = p.bundle.chain_lightning->0.already_hit;
                        let grown = hit.bundle.chain_lightning->0.already_hit;
                        let e = end.hits[i].target;
                        if before.contains(e) {
                            let m = choose|m: int| 0 <= m < before.len() && before[m] == e;
                            assert(grown[m] == e);
                        }
                    }
                }
            }
        } else {
            lemma_scan_from(p, st, k + 1);
        }
    } else {
        assert(st.hits.subrange(0, st.hits.len() as int) =~= st.hits);
    }
}

/// The whole scan. It keeps the number of projectiles and of targets; every
/// projectile stays who and where it is, and a marked one stays marked; every
/// target stays who and where it is, and no target's health rises.
pub proof fn lemma_scan_all(ps: Seq<LiveProjectileView>, st: ScanView, i: int)
    requires
        0 <= i <= ps.len(),
    ensures
        ({
            let (qs, end) = scan_all(ps, st, i);
            &&& qs.len() == ps.len()
            &&& forall|m: int|
                0 <= m < ps.len() ==> {
                    &&& (#[trigger] qs[m]).entity == ps[m].entity
                    &&& qs[m].bundle.position == ps[m].bundle.position
                    &&& qs[m].bundle.projectile.damage == ps[m].bundle.projectile.damage
                    &&& qs[m].bundle.projectile.pierce_count <= ps[m].bundle.projectile.pierce_count
                    &&& ps[m].despawn ==> qs[m] == ps[m]
                }
            &&& forall|m: int| 0 <= m < i ==> #[trigger] qs[m] == ps[m]
            &&& end.targets.len() == st.targets.len()
            &&& forall|j: int|
                0 <= j < st.targets.len() ==> {
                    &&& (#[trigger] end.targets[j]).entity == st.targets[j].entity
                    &&& end.targets[j].position == st.targets[j].position
                    &&& end.targets[j].health.current <= st.targets[j].health.current
                    &&& end.targets[j].health.max == st.targets[j].health.max
                }
            &&& end.hits.len() >= st.hits.len()
            &&& end.hits.subrange(0, st.hits.len() as int) == st.hits
        }),
    decreases ps.len() - i,
{
    if i < ps.len() {
        let (p, next) = scan_one(ps[i], st);
        if !ps[i].despawn {
            lemma_scan_from(ps[i], st, 0);
        } else {
            assert(st.hits.subrange(0, st.hits.len() as int) =~= st.hits);
        }
        lemma_scan_all(ps.update(i, p), next, i + 1);
        let (qs, end) = scan_all(ps.update(i, p), next, i + 1);
        assert(end.hits.subrange(0, st.hits.len() as int) =~= end.hits.subrange(
            0,
            next.hits.len() as int,
        ).subrange(0, st.hits.len() as int));
        assert forall|m: int| 0 <= m < ps.len() implies {
            &&& (#[trigger] qs[m]).entity == ps[m].entity
            &&& qs[m].bundle.position == ps[m].bundle.position
            &&& qs[m].bundle.projectile.damage == ps[m].bundle.projectile.damage
            &&& qs[m].bundle.projectile.pierce_count <= ps[m].bundle.projectile.pierce_count
            &&& ps[m].despawn ==> qs[m] == ps[m]
        } by {
            assert(qs[m].entity == ps.update(i, p)[m].entity);
        }
    } else {
        assert(st.hits.subrange(0, st.hits.len() as int) =~= st.hits);
    }
}

/// In a registry that holds the built-in table, the first entry for a weapon
/// is that weapon's built-in data, and there is one for every weapon.
pub proof fn lemma_builtin_lookup(weapons: Seq<WeaponData>, id: WeaponId)
    requires
        weapon_views(weapons) == builtin_table(),
    ensures
        !has_no_entry(weapons, id),
        is_first_entry(weapons, id, index_of(id)),
        weapons[index_of(id)]@ == builtin_weapon(id),
        forall|k: int| is_first_entry(weapons, id, k) ==> k == index_of(id),
{
    lemma_builtin_table_complete(id);
    let table = builtin_table();
    assert(weapons.len() == table.len());
    assert forall|j: int| 0 <= j < weapons.len() implies (#[trigger] weapons[j]).id
        == table[j].id by {
        assert(weapon_views(weapons)[j] == weapons[j]@);
    }
    assert(weapon_views(weapons)[index_of(id)] == weapons[index_of(id)]@);
    assert(weapons[index_of(id)].id == id);
}

/// Time only runs the timers of a weapon down, and touches the ammunition
/// only where a reload ends.
pub proof fn lemma_timers_run_down(weapon: EquippedWeapon, dt: u32, ammo_multiplier: u32)
    ensures
        weapon.after_tick(dt, ammo_multiplier).fire_cooldown <= weapon.fire_cooldown,
        weapon.after_tick(dt, ammo_multiplier).reload_timer <= weapon.reload_timer,
        weapon.reload_timer == 0 || weapon.reload_timer > dt ==> weapon.after_tick(
            dt,
            ammo_multiplier,
        ).ammo == weapon.ammo,
        weapon.after_tick(dt, ammo_multiplier).weapon_id == weapon.weapon_id,
        weapon.after_tick(dt, ammo_multiplier).max_ammo == weapon.max_ammo,
{
}

/// The memory of a relay is free of repetitions, like that of the projectile
/// whose hit queued it.
pub proof fn lemma_relay_memory_distinct(p: LiveProjectileView, t: Target, targets: Seq<Target>)
    requires
        p.bundle.wf(),
        collides(p, t),
        queued_chain(p, t) is Some,
        relay(queued_chain(p, t)->0, targets) is Some,
    ensures
        relay(queued_chain(p, t)->0, targets)->0.bundle.wf(),
{
    lemma_hit_keeps_memory_distinct(p, t);
}

/// Within one scan a projectile hits each target at most once, in the order
/// of the targets: every target is left as it was or struck once; a target
/// out of reach is left as it was; and a projectile without a chain that is
/// still in flight after the scan has struck every target in reach.
pub proof fn lemma_scan_strikes_once(p: LiveProjectileView, st: ScanView, k: int)
    requires
        0 <= k <= st.targets.len(),
        !p.despawn,
    ensures
        ({
            let (q, end) = scan_from(p, st, k);
            &&& end.targets.len() == st.targets.len()
            &&& forall|j: int|
                0 <= j < st.targets.len() ==> #[trigger] end.targets[j] == st.targets[j]
                    || end.targets[j] == struck(p, st.targets[j])
            &&& forall|j: int|
                0 <= j < st.targets.len() && dist_sq_spec(
                    p.bundle.position,
                    (#[trigger] st.targets[j]).position,
                ) >= COLLISION_RADIUS * COLLISION_RADIUS ==> end.targets[j] == st.targets[j]
            &&& p.bundle.chain_lightning is None && !q.despawn ==> forall|j: int|
                k <= j < st.targets.len() && dist_sq_spec(
                    p.bundle.position,
                    (#[trigger] st.targets[j]).position,
                ) < COLLISION_RADIUS * COLLISION_RADIUS ==> end.targets[j] == struck(
                    p,
                    st.targets[j],
                )
        }),
    decreases st.targets.len() - k,
{
    if k < st.targets.len() {
        if collides(p, st.targets[k]) {
            let hit = after_hit(p, st.targets[k]);
            let next = record_hit(st, p, k);
            if !hit.despawn {
                lemma_scan_strikes_once(hit, next, k + 1);
                lemma_scan_from(hit, next, k + 1);
                let (q, end) = scan_from(hit, next, k + 1);
                assert forall|j: int| 0 <= j < st.targets.len() implies #[trigger] end.targets[j]
                    == st.targets[j] || end.targets[j] == struck(p, st.targets[j]) by {
                    assert(struck(hit, next.targets[j]) == struck(p, next.targets[j]));
                    if j == k {
                        assert(end.targets[j] == next.targets[j]);
                    }
                }
                assert forall|j: int|
                    0 <= j < st.targets.len() && dist_sq_spec(
                        p.bundle.position,
                        (#[trigger] st.targets[j]).position,
                    ) >= COLLISION_RADIUS * COLLISION_RADIUS implies end.targets[j]
                    == st.targets[j] by {
                    assert(next.targets[j] == st.targets[j]);
                }
                if p.bundle.chain_lightning is None && !q.despawn {
                    assert forall|j: int|
                        k <= j < st.targets.len() && dist_sq_spec(
                            p.bundle.position,
                            (#[trigger] st.targets[j]).position,
                        ) < COLLISION_RADIUS * COLLISION_RADIUS implies end.targets[j] == struck(
                        p,
                        st.targets[j],
                    ) by {
                        if j == k {
                            assert(end.targets[j] == next.targets[j]);
                        } else {
                            assert(next.targets[j] == st.targets[j]);
                            assert(struck(hit, next.targets[j]) == struck(p, next.targets[j]));
                        }
                    }
                }
            }
        } else {
            lemma_scan_strikes_once(p, st, k + 1);
        }
    }
}

/// A homing projectile that remembers no live target steers at the nearest
/// live target, the first of several equally near, and at none only where
/// there is none.
pub proof fn lemma_homing_picks_nearest(p: LiveProjectileView, targets: Seq<Target>)
    requires
        p.bundle.homing is Some,
        p.bundle.homing->0.target is None || first_with_entity(
            targets,
            p.bundle.homing->0.target->0,
            0,
        ) is None,
    ensures
        match homing_choice(p, targets) {
            Some(k) => {
                &&& 0 <= k < targets.len()
                &&& forall|j: int|
                    0 <= j < targets.len() ==> dist_sq_spec(p.bundle.position, targets[k].position)
                        <= dist_sq_spec(p.bundle.position, (#[trigger] targets[j]).position)
                &&& forall|j: int|
                    0 <= j < k ==> dist_sq_spec(p.bundle.position, targets[k].position)
                        < dist_sq_spec(p.bundle.position, (#[trigger] targets[j]).position)
            },
            None => targets.len() == 0,
        },
{
    lemma_nearest(targets, targets.len() as int, p.bundle.position, Seq::empty(), None);
    assert forall|j: int| 0 <= j < targets.len() implies eligible(
        #[trigger] targets[j],
        p.bundle.position,
        Seq::empty(),
        None,
    ) by {
        assert(!Seq::<u64>::empty().contains(targets[j].entity));
    }
    if targets.len() > 0 {
        assert(eligible(targets[0], p.bundle.position, Seq::empty(), None));
    }
}

/// A remembered target that is alive is the one steered at.
pub proof fn lemma_homing_keeps_target(p: LiveProjectileView, targets: Seq<Target>, k: int)
    requires
        p.bundle.homing is Some,
        p.bundle.homing->0.target is Some,
        first_with_entity(targets, p.bundle.homing->0.target->0, 0) == Some(k),
    ensures
        homing_choice(p, targets) == Some(k),
{
}

} // verus!
