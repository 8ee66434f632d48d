//! What holds of a whole collision step, over projectiles and targets in any
//! number: whom the scan damages and by how much, where each queued effect
//! comes from, and what the effects do once the scan is over.

use vstd::prelude::*;
use crate::creatures::components::{CreatureHealth, Target};
use crate::fixed::scale_spec;
use crate::geometry::{
    direction_to_spec, dist_sq_spec, is_heading, lemma_normalized_is_heading, normalize_spec,
};
use crate::weapons::collision::{
    after_hit, collides, hit_event, queued_chain, queued_explosion, queued_split, record_hit,
    scan_all, scan_from, scan_one, scan_start, ChainSpawnRequestView, ExplosionRequest,
    ProjectileHitEvent, ScanView, SplitSpawnRequest,
};
use crate::weapons::components::{LiveProjectileView, SpawnOrderView, Splitter};
use crate::weapons::effects::{
    blast, blasted, explosion_damage, fan_step, fan_turn, fragment, fragments, in_blast, relay,
    relay_target, relays, FAN_ARC, FAN_HALF_ARC,
};
use crate::weapons::laws::{lemma_scan_all, lemma_scan_from};
use crate::weapons::systems::all_blasted;
use crate::weapons::targeting::{eligible, lemma_nearest};

verus! {

/// Whether no two of the targets are the same entity.
pub open spec fn distinct_targets(targets: Seq<Target>) -> bool {
    forall|a: int, b: int|
        0 <= a < b < targets.len() ==> (#[trigger] targets[a]).entity != (#[trigger] targets[b]).entity
}

/// The number of hit records from index `from` on that name the entity.
pub open spec fn hit_count(hits: Seq<ProjectileHitEvent>, entity: u64, from: int) -> int
    decreases hits.len() - from,
{
    if from < 0 || from >= hits.len() {
        0
    } else {
        hit_count(hits, entity, from + 1) + if hits[from].target == entity {
            1int
        } else {
            0int
        }
    }
}

/// The damage that the hit records from index `from` on deal to the entity,
/// added up.
pub open spec fn dealt(hits: Seq<ProjectileHitEvent>, entity: u64, from: int) -> int
    decreases hits.len() - from,
{
    if from < 0 || from >= hits.len() {
        0
    } else {
        dealt(hits, entity, from + 1) + if hits[from].target == entity {
            hits[from].damage as int
        } else {
            0int
        }
    }
}

/// The health left after damage of `total` in all: never below zero.
pub open spec fn drained(health: CreatureHealth, total: int) -> CreatureHealth {
    CreatureHealth {
        current: if health.current >= total {
            (health.current - total) as u32
        } else {
            0
        },
        max: health.max,
    }
}

/// Neither tally is negative, and a list that deals damage to an entity
/// names it.
pub proof fn lemma_tallies(hits: Seq<ProjectileHitEvent>, entity: u64, from: int)
    ensures
        hit_count(hits, entity, from) >= 0,
        dealt(hits, entity, from) >= 0,
        hit_count(hits, entity, from) == 0 ==> dealt(hits, entity, from) == 0,
    decreases hits.len() - from,
{
    if 0 <= from < hits.len() {
        lemma_tallies(hits, entity, from + 1);
    }
}

/// The tallies of a list are those of its beginning and those of the rest.
pub proof fn lemma_tallies_split(
    hits: Seq<ProjectileHitEvent>,
    beginning: Seq<ProjectileHitEvent>,
    entity: u64,
    from: int,
)
    requires
        0 <= from <= beginning.len() <= hits.len(),
        hits.subrange(0, beginning.len() as int) == beginning,
    ensures
        hit_count(hits, entity, from) == hit_count(beginning, entity, from) + hit_count(
            hits,
            entity,
            beginning.len() as int,
        ),
        dealt(hits, entity, from) == dealt(beginning, entity, from) + dealt(
            hits,
            entity,
            beginning.len() as int,
        ),
    decreases beginning.len() - from,
{
    if from < beginning.len() {
        lemma_tallies_split(hits, beginning, entity, from + 1);
        assert(hits[from] == hits.subrange(0, beginning.len() as int)[from]);
    }
}

/// Where every record deals the same damage, the damage dealt to an entity
/// is that damage times the number of records that name it.
pub proof fn lemma_equal_hits(hits: Seq<ProjectileHitEvent>, entity: u64, from: int, damage: u32)
    requires
        forall|x: int| from <= x < hits.len() ==> (#[trigger] hits[x]).damage == damage,
        0 <= from,
    ensures
        dealt(hits, entity, from) == damage * hit_count(hits, entity, from),
    decreases hits.len() - from,
{
    if from < hits.len() {
        lemma_equal_hits(hits, entity, from + 1, damage);
        let rest = hit_count(hits, entity, from + 1);
        assert(damage * (rest + 1) == damage * rest + damage) by (nonlinear_arith);
    }
}

/// Whether the scan that led from `before` to `after` left target `j` as the
/// hit records say: its health is down by the damage of the records that
/// name it, provided no two targets are the same entity; without a record
/// that names it, it is as it was; and its speed is as it was where
/// `unfrozen` says that no projectile of the scan freezes.
pub open spec fn accounted(before: ScanView, after: ScanView, j: int, unfrozen: bool) -> bool {
    let e = before.targets[j].entity;
    let from = before.hits.len() as int;
    &&& distinct_targets(before.targets) ==> after.targets[j].health == drained(
        before.targets[j].health,
        dealt(after.hits, e, from),
    )
    &&& hit_count(after.hits, e, from) == 0 ==> after.targets[j] == before.targets[j]
    &&& unfrozen ==> after.targets[j].speed == before.targets[j].speed
}

/// A hit leaves distinct targets distinct.
proof fn lemma_hit_keeps_distinct(st: ScanView, p: LiveProjectileView, k: int)
    requires
        0 <= k < st.targets.len(),
        distinct_targets(st.targets),
    ensures
        distinct_targets(record_hit(st, p, k).targets),
{
    let next = record_hit(st, p, k);
    assert forall|a: int, b: int| 0 <= a < b < next.targets.len() implies (
    #[trigger] next.targets[a]).entity != (#[trigger] next.targets[b]).entity by {
        assert(st.targets[a].entity != st.targets[b].entity);
    }
}

/// The scan of one projectile, target by target: the health of each target
/// goes down by the damage of the hit records that name it, and a target
/// that no record names is left as it was. Only a freezing projectile
/// changes a speed.
pub proof fn lemma_scan_from_tallies(p: LiveProjectileView, st: ScanView, k: int)
    requires
        0 <= k <= st.targets.len(),
        !p.despawn,
    ensures
        forall|j: int|
            0 <= j < st.targets.len() ==> #[trigger] accounted(
                st,
                scan_from(p, st, k).1,
                j,
                p.bundle.freezing is None,
            ),
    decreases st.targets.len() - k,
{
    let from = st.hits.len() as int;
    let unfrozen = p.bundle.freezing is None;
    lemma_scan_from(p, st, k);
    if k < st.targets.len() {
        if collides(p, st.targets[k]) {
            let hit = after_hit(p, st.targets[k]);
            let next = record_hit(st, p, k);
            let first = hit_event(p, st.targets[k]);
            assert(next.hits[from] == first);
            assert forall|j: int| 0 <= j < st.targets.len() implies #[trigger] accounted(
                st,
                next,
                j,
                unfrozen,
            ) by {
                let e = st.targets[j].entity;
                assert(dealt(next.hits, e, from + 1) == 0);
                assert(hit_count(next.hits, e, from + 1) == 0);
                if distinct_targets(st.targets) && j != k {
                    if j < k {
                        assert(st.targets[j].entity != st.targets[k].entity);
                    } else {
                        assert(st.targets[k].entity != st.targets[j].entity);
                    }
                }
            }
            if hit.despawn {
                assert(scan_from(p, st, k).1 == next);
            } else {
                lemma_scan_from_tallies(hit, next, k + 1);
                lemma_scan_from(hit, next, k + 1);
                let end = scan_from(hit, next, k + 1).1;
                assert(end == scan_from(p, st, k).1);
                if distinct_targets(st.targets) {
                    lemma_hit_keeps_distinct(st, p, k);
                }
                assert forall|j: int| 0 <= j < st.targets.len() implies #[trigger] accounted(
                    st,
                    end,
                    j,
                    unfrozen,
                ) by {
                    let e = st.targets[j].entity;
                    assert(accounted(st, next, j, unfrozen));
                    assert(accounted(next, end, j, hit.bundle.freezing is None));
                    assert(next.targets[j].entity == e);
                    lemma_tallies_split(end.hits, next.hits, e, from);
                    lemma_tallies(next.hits, e, from);
                    lemma_tallies(end.hits, e, next.hits.len() as int);
                }
            }
        } else {
            lemma_scan_from_tallies(p, st, k + 1);
            assert(scan_from(p, st, k).1 == scan_from(p, st, k + 1).1);
        }
    } else {
        assert(scan_from(p, st, k).1 == st);
        assert forall|j: int| 0 <= j < st.targets.len() implies #[trigger] accounted(
            st,
            st,
            j,
            unfrozen,
        ) by {
            assert(drained(st.targets[j].health, 0) == st.targets[j].health);
        }
    }
}

/// Whether none of the projectiles in flight from index `i` on freezes what
/// it hits.
pub open spec fn none_freezes(ps: Seq<LiveProjectileView>, i: int) -> bool {
    forall|m: int|
        i <= m < ps.len() ==> (#[trigger] ps[m]).despawn || ps[m].bundle.freezing is None
}

/// The whole scan: the health of each target goes down by the damage of the
/// hit records that name it, each hit counted; a target that no record names
/// is left as it was; and where no projectile freezes, no speed changes.
pub proof fn lemma_scan_all_tallies(ps: Seq<LiveProjectileView>, st: ScanView, i: int)
    requires
        0 <= i <= ps.len(),
    ensures
        forall|j: int|
            0 <= j < st.targets.len() ==> #[trigger] accounted(
                st,
                scan_all(ps, st, i).1,
                j,
                none_freezes(ps, i),
            ),
    decreases ps.len() - i,
{
    let from = st.hits.len() as int;
    let unfrozen = none_freezes(ps, i);
    lemma_scan_all(ps, st, i);
    if i < ps.len() {
        let (p, next) = scan_one(ps[i], st);
        let rest = ps.update(i, p);
        let later = none_freezes(rest, i + 1);
        if !ps[i].despawn {
            lemma_scan_from_tallies(ps[i], st, 0);
            lemma_scan_from(ps[i], st, 0);
        } else {
            assert(st.hits.subrange(0, from) =~= st.hits);
            assert forall|j: int| 0 <= j < st.targets.len() implies #[trigger] accounted(
                st,
                st,
                j,
                true,
            ) by {
                assert(drained(st.targets[j].health, 0) == st.targets[j].health);
            }
        }
        lemma_scan_all_tallies(rest, next, i + 1);
        lemma_scan_all(rest, next, i + 1);
        let end = scan_all(rest, next, i + 1).1;
        assert(end == scan_all(ps, st, i).1);
        if distinct_targets(st.targets) {
            assert forall|a: int, b: int| 0 <= a < b < next.targets.len() implies (
            #[trigger] next.targets[a]).entity != (#[trigger] next.targets[b]).entity by {
                assert(st.targets[a].entity != st.targets[b].entity);
            }
        }
        if unfrozen {
            assert(ps[i].despawn || ps[i].bundle.freezing is None);
            assert forall|m: int| i + 1 <= m < rest.len() implies (#[trigger] rest[m]).despawn
                || rest[m].bundle.freezing is None by {
                assert(rest[m] == ps[m]);
            }
        }
        assert forall|j: int| 0 <= j < st.targets.len() implies #[trigger] accounted(
            st,
            end,
            j,
            unfrozen,
        ) by {
            let e = st.targets[j].entity;
            assert(accounted(st, next, j, ps[i].despawn || ps[i].bundle.freezing is None));
            assert(accounted(next, end, j, later));
            assert(next.targets[j].entity == e);
            lemma_tallies_split(end.hits, next.hits, e, from);
            lemma_tallies(next.hits, e, from);
            lemma_tallies(end.hits, e, next.hits.len() as int);
        }
    } else {
        assert forall|j: int| 0 <= j < st.targets.len() implies #[trigger] accounted(
            st,
            st,
            j,
            unfrozen,
        ) by {
            assert(drained(st.targets[j].health, 0) == st.targets[j].health);
        }
    }
}

/// Whether `long` begins with `short`.
pub open spec fn extends<T>(long: Seq<T>, short: Seq<T>) -> bool {
    short.len() <= long.len() && long.subrange(0, short.len() as int) == short
}

/// Whether the targets of `b` are those of `a`, each who and where it was.
pub open spec fn same_places(a: Seq<Target>, b: Seq<Target>) -> bool {
    &&& a.len() == b.len()
    &&& forall|j: int|
        #![trigger a[j]]
        #![trigger b[j]]
        0 <= j < a.len() ==> a[j].entity == b[j].entity && a[j].position == b[j].position
}

/// Whether a scan that led from `before` to `after` only added to the hit
/// records and to the queues, and left every target who and where it was.
pub open spec fn grown(before: ScanView, after: ScanView) -> bool {
    &&& extends(after.hits, before.hits)
    &&& extends(after.queues.explosions, before.queues.explosions)
    &&& extends(after.queues.chain_spawns, before.queues.chain_spawns)
    &&& extends(after.queues.split_spawns, before.queues.split_spawns)
    &&& same_places(before.targets, after.targets)
}

/// Whether the relay request is one that a hit of `p` on `t` queues: `p`
/// carries a chain with jumps left and collides with `t`; the request starts
/// where `t` is, with the damage reduced by the falloff, one jump less, and
/// the owner, range and falloff of `p`; and its memory is that of `p`,
/// whatever `p` hit since, and last of all `t`; for a projectile without
/// pierce that is the memory of `p` and `t`, nothing else.
pub open spec fn chain_by(r: ChainSpawnRequestView, p: LiveProjectileView, t: Target) -> bool {
    &&& collides(p, t)
    &&& p.bundle.chain_lightning is Some
    &&& ({
        let c = p.bundle.chain_lightning->0;
        &&& c.jumps_remaining > 0
        &&& r.position == t.position
        &&& r.damage == scale_spec(p.bundle.projectile.damage as int, c.damage_falloff as int) as u32
        &&& r.jumps + 1 == c.jumps_remaining
        &&& r.range == c.jump_range
        &&& r.falloff == c.damage_falloff
        &&& r.owner == p.bundle.projectile.owner
        &&& r.already_hit.len() > c.already_hit.len()
        &&& extends(r.already_hit, c.already_hit)
        &&& r.already_hit.last() == t.entity
        &&& p.bundle.projectile.pierce_count == 0 ==> r.already_hit == c.already_hit.push(t.entity)
    })
}

/// Whether the hit record is that of a hit of `p` on one of the targets, one
/// that `p` collides with.
pub open spec fn hit_origin(h: ProjectileHitEvent, p: LiveProjectileView, targets: Seq<Target>) -> bool {
    exists|j: int|
        0 <= j < targets.len() && collides(p, #[trigger] targets[j]) && h == hit_event(p, targets[j])
}

/// Whether the explosion is the one that a hit of `p` on one of the targets
/// queues: centred on `p`, with the radius and damage of its tag, and the
/// target hit left out.
pub open spec fn explosion_origin(e: ExplosionRequest, p: LiveProjectileView, targets: Seq<Target>) -> bool {
    exists|j: int|
        0 <= j < targets.len() && collides(p, #[trigger] targets[j]) && queued_explosion(
            p,
            targets[j],
        ) == Some(e)
}

/// Whether the relay request is one that a hit of `p` on one of the targets
/// queues.
pub open spec fn chain_origin(r: ChainSpawnRequestView, p: LiveProjectileView, targets: Seq<Target>) -> bool {
    exists|j: int| 0 <= j < targets.len() && chain_by(r, p, #[trigger] targets[j])
}

/// Whether the split request is the one that a hit of `p` on one of the
/// targets queues.
pub open spec fn split_origin(r: SplitSpawnRequest, p: LiveProjectileView, targets: Seq<Target>) -> bool {
    exists|j: int|
        0 <= j < targets.len() && collides(p, #[trigger] targets[j]) && queued_split(p, targets[j])
            == Some(r)
}

/// Whether everything that the scan added between `before` and `after` comes
/// from a hit of `p` on one of the targets.
pub open spec fn from_one(p: LiveProjectileView, before: ScanView, after: ScanView) -> bool {
    &&& grown(before, after)
    &&& forall|x: int|
        before.hits.len() <= x < after.hits.len() ==> hit_origin(
            #[trigger] after.hits[x],
            p,
            before.targets,
        )
    &&& forall|x: int|
        before.queues.explosions.len() <= x < after.queues.explosions.len() ==> explosion_origin(
            #[trigger] after.queues.explosions[x],
            p,
            before.targets,
        )
    &&& forall|x: int|
        before.queues.chain_spawns.len() <= x < after.queues.chain_spawns.len() ==> chain_origin(
            #[trigger] after.queues.chain_spawns[x],
            p,
            before.targets,
        )
    &&& forall|x: int|
        before.queues.split_spawns.len() <= x < after.queues.split_spawns.len() ==> split_origin(
            #[trigger] after.queues.split_spawns[x],
            p,
            before.targets,
        )
}

/// Whether `q` is `p` after some hits of one scan that left it in flight: the
/// same projectile at the same place with the same damage and tags, its
/// chain's memory grown; only a projectile with pierce is ever changed so.
spec fn earlier(p: LiveProjectileView, q: LiveProjectileView) -> bool {
    &&& q == p || p.bundle.projectile.pierce_count > 0
    &&& q.entity == p.entity
    &&& q.bundle.position == p.bundle.position
    &&& q.bundle.projectile.damage == p.bundle.projectile.damage
    &&& q.bundle.projectile.owner == p.bundle.projectile.owner
    &&& q.bundle.explosive == p.bundle.explosive
    &&& q.bundle.splitter == p.bundle.splitter
    &&& match (p.bundle.chain_lightning, q.bundle.chain_lightning) {
        (Some(c), Some(d)) => d.jumps_remaining == c.jumps_remaining && d.jump_range
            == c.jump_range && d.damage_falloff == c.damage_falloff && extends(
            d.already_hit,
            c.already_hit,
        ),
        (None, None) => true,
        _ => false,
    }
}

/// What a later state of a projectile does to a target, the earlier state
/// does to the same target.
proof fn lemma_carry_one(p: LiveProjectileView, q: LiveProjectileView, s: Target, t: Target)
    requires
        earlier(p, q),
        s.entity == t.entity,
        s.position == t.position,
    ensures
        collides(q, t) ==> collides(p, s),
        hit_event(q, t) == hit_event(p, s),
        queued_explosion(q, t) == queued_explosion(p, s),
        queued_split(q, t) == queued_split(p, s),
        forall|r: ChainSpawnRequestView| #[trigger] chain_by(r, q, t) ==> chain_by(r, p, s),
{
    if p.bundle.chain_lightning is Some {
        let c = p.bundle.chain_lightning->0;
        let d = q.bundle.chain_lightning->0;
        if c.already_hit.contains(t.entity) {
            let i = choose|i: int| 0 <= i < c.already_hit.len() && c.already_hit[i] == t.entity;
            assert(d.already_hit.subrange(0, c.already_hit.len() as int)[i] == d.already_hit[i]);
            assert(d.already_hit.contains(t.entity));
        }
        assert forall|r: ChainSpawnRequestView| #[trigger] chain_by(r, q, t) implies chain_by(
            r,
            p,
            s,
        ) by {
            assert(r.already_hit.subrange(0, c.already_hit.len() as int) =~= r.already_hit.subrange(
                0,
                d.already_hit.len() as int,
            ).subrange(0, c.already_hit.len() as int));
        }
    }
}

/// What comes from a hit of a later state of a projectile on targets that
/// have not moved comes from a hit of the earlier state.
proof fn lemma_carry(p: LiveProjectileView, q: LiveProjectileView, a: Seq<Target>, b: Seq<Target>)
    requires
        earlier(p, q),
        same_places(a, b),
    ensures
        forall|h: ProjectileHitEvent| #[trigger] hit_origin(h, q, b) ==> hit_origin(h, p, a),
        forall|e: ExplosionRequest| #[trigger] explosion_origin(e, q, b) ==> explosion_origin(e, p, a),
        forall|r: ChainSpawnRequestView| #[trigger] chain_origin(r, q, b) ==> chain_origin(r, p, a),
        forall|r: SplitSpawnRequest| #[trigger] split_origin(r, q, b) ==> split_origin(r, p, a),
{
    assert forall|h: ProjectileHitEvent| #[trigger] hit_origin(h, q, b) implies hit_origin(h, p, a) by {
        let j = choose|j: int|
            0 <= j < b.len() && collides(q, #[trigger] b[j]) && h == hit_event(q, b[j]);
        lemma_carry_one(p, q, a[j], b[j]);
    }
    assert forall|e: ExplosionRequest| #[trigger] explosion_origin(e, q, b) implies explosion_origin(
        e,
        p,
        a,
    ) by {
        let j = choose|j: int|
            0 <= j < b.len() && collides(q, #[trigger] b[j]) && queued_explosion(q, b[j]) == Some(e);
        lemma_carry_one(p, q, a[j], b[j]);
    }
    assert forall|r: ChainSpawnRequestView| #[trigger] chain_origin(r, q, b) implies chain_origin(
        r,
        p,
        a,
    ) by {
        let j = choose|j: int| 0 <= j < b.len() && chain_by(r, q, #[trigger] b[j]);
        lemma_carry_one(p, q, a[j], b[j]);
    }
    assert forall|r: SplitSpawnRequest| #[trigger] split_origin(r, q, b) implies split_origin(
        r,
        p,
        a,
    ) by {
        let j = choose|j: int|
            0 <= j < b.len() && collides(q, #[trigger] b[j]) && queued_split(q, b[j]) == Some(r);
        lemma_carry_one(p, q, a[j], b[j]);
    }
}

/// A list that begins with a list that begins with a third begins with the
/// third.
proof fn lemma_extends_twice<T>(long: Seq<T>, middle: Seq<T>, short: Seq<T>)
    requires
        extends(long, middle),
        extends(middle, short),
    ensures
        extends(long, short),
        forall|x: int| 0 <= x < middle.len() ==> long[x] == middle[x],
{
    assert(long.subrange(0, short.len() as int) =~= long.subrange(0, middle.len() as int).subrange(
        0,
        short.len() as int,
    ));
    assert forall|x: int| 0 <= x < middle.len() implies long[x] == middle[x] by {
        assert(long.subrange(0, middle.len() as int)[x] == long[x]);
    }
}

/// One hit only adds to the records and queues, and what it adds comes from
/// the hit.
proof fn lemma_hit_origins(p: LiveProjectileView, st: ScanView, k: int)
    requires
        0 <= k < st.targets.len(),
        collides(p, st.targets[k]),
    ensures
        from_one(p, st, record_hit(st, p, k)),
        !after_hit(p, st.targets[k]).despawn ==> earlier(p, after_hit(p, st.targets[k])),
{
    let t = st.targets[k];
    let next = record_hit(st, p, k);
    assert(next.hits.subrange(0, st.hits.len() as int) =~= st.hits);
    assert(next.queues.explosions.subrange(0, st.queues.explosions.len() as int)
        =~= st.queues.explosions);
    assert(next.queues.chain_spawns.subrange(0, st.queues.chain_spawns.len() as int)
        =~= st.queues.chain_spawns);
    assert(next.queues.split_spawns.subrange(0, st.queues.split_spawns.len() as int)
        =~= st.queues.split_spawns);
    if p.bundle.chain_lightning is Some {
        let c = p.bundle.chain_lightning->0;
        let d = after_hit(p, t).bundle.chain_lightning->0;
        assert(d.already_hit.subrange(0, c.already_hit.len() as int) =~= c.already_hit);
        if queued_chain(p, t) is Some {
            let r = queued_chain(p, t)->0;
            assert(r.already_hit.subrange(0, c.already_hit.len() as int) =~= c.already_hit);
            assert(chain_by(r, p, st.targets[k]));
        }
    }
    assert forall|x: int| st.hits.len() <= x < next.hits.len() implies hit_origin(
        #[trigger] next.hits[x],
        p,
        st.targets,
    ) by {
        assert(next.hits[x] == hit_event(p, st.targets[k]));
    }
    assert forall|x: int|
        st.queues.explosions.len() <= x < next.queues.explosions.len() implies explosion_origin(
        #[trigger] next.queues.explosions[x],
        p,
        st.targets,
    ) by {
        assert(queued_explosion(p, st.targets[k]) == Some(next.queues.explosions[x]));
    }
    assert forall|x: int|
        st.queues.chain_spawns.len() <= x < next.queues.chain_spawns.len() implies chain_origin(
        #[trigger] next.queues.chain_spawns[x],
        p,
        st.targets,
    ) by {
        assert(queued_chain(p, st.targets[k]) == Some(next.queues.chain_spawns[x]));
        assert(chain_by(next.queues.chain_spawns[x], p, st.targets[k]));
    }
    assert forall|x: int|
        st.queues.split_spawns.len() <= x < next.queues.split_spawns.len() implies split_origin(
        #[trigger] next.queues.split_spawns[x],
        p,
        st.targets,
    ) by {
        assert(queued_split(p, st.targets[k]) == Some(next.queues.split_spawns[x]));
    }
}

/// Nothing added is a scan that only added.
proof fn lemma_from_one_nothing(p: LiveProjectileView, st: ScanView)
    ensures
        from_one(p, st, st),
{
    assert(st.hits.subrange(0, st.hits.len() as int) =~= st.hits);
    assert(st.queues.explosions.subrange(0, st.queues.explosions.len() as int)
        =~= st.queues.explosions);
    assert(st.queues.chain_spawns.subrange(0, st.queues.chain_spawns.len() as int)
        =~= st.queues.chain_spawns);
    assert(st.queues.split_spawns.subrange(0, st.queues.split_spawns.len() as int)
        =~= st.queues.split_spawns);
}

/// Two stretches of a scan, one after the other, both of hits of `p`: the
/// first by `p` as it was, the second by a later state of it.
proof fn lemma_from_one_twice(
    p: LiveProjectileView,
    q: LiveProjectileView,
    st: ScanView,
    next: ScanView,
    end: ScanView,
)
    requires
        from_one(p, st, next),
        from_one(q, next, end),
        earlier(p, q),
    ensures
        from_one(p, st, end),
{
    lemma_carry(p, q, st.targets, next.targets);
    lemma_extends_twice(end.hits, next.hits, st.hits);
    lemma_extends_twice(end.queues.explosions, next.queues.explosions, st.queues.explosions);
    lemma_extends_twice(end.queues.chain_spawns, next.queues.chain_spawns, st.queues.chain_spawns);
    lemma_extends_twice(end.queues.split_spawns, next.queues.split_spawns, st.queues.split_spawns);
    assert(same_places(st.targets, end.targets)) by {
        assert forall|j: int|
            #![trigger st.targets[j]]
            #![trigger end.targets[j]]
            0 <= j < st.targets.len() implies st.targets[j].entity == end.targets[j].entity
            && st.targets[j].position == end.targets[j].position by {
            assert(next.targets[j].entity == end.targets[j].entity);
        }
    }
    assert forall|x: int| st.hits.len() <= x < end.hits.len() implies hit_origin(
        #[trigger] end.hits[x],
        p,
        st.targets,
    ) by {
        if x < next.hits.len() {
            assert(hit_origin(next.hits[x], p, st.targets));
        } else {
            assert(hit_origin(end.hits[x], q, next.targets));
        }
    }
    assert forall|x: int|
        st.queues.explosions.len() <= x < end.queues.explosions.len() implies explosion_origin(
        #[trigger] end.queues.explosions[x],
        p,
        st.targets,
    ) by {
        if x < next.queues.explosions.len() {
            assert(explosion_origin(next.queues.explosions[x], p, st.targets));
        } else {
            assert(explosion_origin(end.queues.explosions[x], q, next.targets));
        }
    }
    assert forall|x: int|
        st.queues.chain_spawns.len() <= x < end.queues.chain_spawns.len() implies chain_origin(
        #[trigger] end.queues.chain_spawns[x],
        p,
        st.targets,
    ) by {
        if x < next.queues.chain_spawns.len() {
            assert(chain_origin(next.queues.chain_spawns[x], p, st.targets));
        } else {
            assert(chain_origin(end.queues.chain_spawns[x], q, next.targets));
        }
    }
    assert forall|x: int|
        st.queues.split_spawns.len() <= x < end.queues.split_spawns.len() implies split_origin(
        #[trigger] end.queues.split_spawns[x],
        p,
        st.targets,
    ) by {
        if x < next.queues.split_spawns.len() {
            assert(split_origin(next.queues.split_spawns[x], p, st.targets));
        } else {
            assert(split_origin(end.queues.split_spawns[x], q, next.targets));
        }
    }
}

/// The scan of one projectile only adds to the records and queues, and
/// every record and request that it adds comes from a hit of that projectile
/// on a target that it collides with.
pub proof fn lemma_scan_from_origins(p: LiveProjectileView, st: ScanView, k: int)
    requires
        0 <= k <= st.targets.len(),
        !p.despawn,
    ensures
        from_one(p, st, scan_from(p, st, k).1),
    decreases st.targets.len() - k,
{
    if k < st.targets.len() {
        if collides(p, st.targets[k]) {
            let hit = after_hit(p, st.targets[k]);
            let next = record_hit(st, p, k);
            lemma_hit_origins(p, st, k);
            if hit.despawn {
                assert(scan_from(p, st, k).1 == next);
            } else {
                lemma_scan_from_origins(hit, next, k + 1);
                let end = scan_from(hit, next, k + 1).1;
                assert(scan_from(p, st, k).1 == end);
                lemma_from_one_twice(p, hit, st, next, end);
            }
        } else {
            lemma_scan_from_origins(p, st, k + 1);
            assert(scan_from(p, st, k).1 == scan_from(p, st, k + 1).1);
        }
    } else {
        assert(scan_from(p, st, k).1 == st);
        lemma_from_one_nothing(p, st);
    }
}

/// Whether the hit record is that of a hit of one of the projectiles from
/// index `i` on, one that was in flight, on one of the targets.
pub open spec fn hit_source(
    h: ProjectileHitEvent,
    ps: Seq<LiveProjectileView>,
    i: int,
    targets: Seq<Target>,
) -> bool {
    exists|m: int|
        i <= m < ps.len() && !(#[trigger] ps[m]).despawn && hit_origin(h, ps[m], targets)
}

/// Whether the explosion was queued by a hit of one of the projectiles from
/// index `i` on.
pub open spec fn explosion_source(
    e: ExplosionRequest,
    ps: Seq<LiveProjectileView>,
    i: int,
    targets: Seq<Target>,
) -> bool {
    exists|m: int|
        i <= m < ps.len() && !(#[trigger] ps[m]).despawn && explosion_origin(e, ps[m], targets)
}

/// Whether the relay request was queued by a hit of one of the projectiles
/// from index `i` on.
pub open spec fn chain_source(
    r: ChainSpawnRequestView,
    ps: Seq<LiveProjectileView>,
    i: int,
    targets: Seq<Target>,
) -> bool {
    exists|m: int|
        i <= m < ps.len() && !(#[trigger] ps[m]).despawn && chain_origin(r, ps[m], targets)
}

/// Whether the split request was queued by a hit of one of the projectiles
/// from index `i` on.
pub open spec fn split_source(
    r: SplitSpawnRequest,
    ps: Seq<LiveProjectileView>,
    i: int,
    targets: Seq<Target>,
) -> bool {
    exists|m: int|
        i <= m < ps.len() && !(#[trigger] ps[m]).despawn && split_origin(r, ps[m], targets)
}

/// Whether everything that the scan added between `before` and `after` comes
/// from a hit of one of the projectiles from index `i` on.
pub open spec fn from_all(ps: Seq<LiveProjectileView>, i: int, before: ScanView, after: ScanView) -> bool {
    &&& grown(before, after)
    &&& forall|x: int|
        before.hits.len() <= x < after.hits.len() ==> hit_source(
            #[trigger] after.hits[x],
            ps,
            i,
            before.targets,
        )
    &&& forall|x: int|
        before.queues.explosions.len() <= x < after.queues.explosions.len() ==> explosion_source(
            #[trigger] after.queues.explosions[x],
            ps,
            i,
            before.targets,
        )
    &&& forall|x: int|
        before.queues.chain_spawns.len() <= x < after.queues.chain_spawns.len() ==> chain_source(
            #[trigger] after.queues.chain_spawns[x],
            ps,
            i,
            before.targets,
        )
    &&& forall|x: int|
        before.queues.split_spawns.len() <= x < after.queues.split_spawns.len() ==> split_source(
            #[trigger] after.queues.split_spawns[x],
            ps,
            i,
            before.targets,
        )
}

/// A projectile is no later than itself.
proof fn lemma_earlier_self(p: LiveProjectileView)
    ensures
        earlier(p, p),
{
    if p.bundle.chain_lightning is Some {
        let c = p.bundle.chain_lightning->0;
        assert(c.already_hit.subrange(0, c.already_hit.len() as int) =~= c.already_hit);
    }
}

/// What comes from a projectile of the rest of a scan, held against targets
/// that have not moved, comes from a projectile of the whole.
proof fn lemma_carry_rest(
    ps: Seq<LiveProjectileView>,
    rest: Seq<LiveProjectileView>,
    i: int,
    a: Seq<Target>,
    b: Seq<Target>,
)
    requires
        0 <= i < ps.len(),
        rest.len() == ps.len(),
        forall|m: int| i < m < ps.len() ==> #[trigger] rest[m] == ps[m],
        same_places(a, b),
    ensures
        forall|h: ProjectileHitEvent| #[trigger]
            hit_source(h, rest, i + 1, b) ==> hit_source(h, ps, i, a),
        forall|e: ExplosionRequest| #[trigger]
            explosion_source(e, rest, i + 1, b) ==> explosion_source(e, ps, i, a),
        forall|r: ChainSpawnRequestView| #[trigger]
            chain_source(r, rest, i + 1, b) ==> chain_source(r, ps, i, a),
        forall|r: SplitSpawnRequest| #[trigger]
            split_source(r, rest, i + 1, b) ==> split_source(r, ps, i, a),
{
    assert forall|h: ProjectileHitEvent| #[trigger] hit_source(h, rest, i + 1, b) implies hit_source(
        h,
        ps,
        i,
        a,
    ) by {
        let m = choose|m: int|
            i + 1 <= m < rest.len() && !(#[trigger] rest[m]).despawn && hit_origin(h, rest[m], b);
        lemma_earlier_self(ps[m]);
        lemma_carry(ps[m], ps[m], a, b);
    }
    assert forall|e: ExplosionRequest| #[trigger]
        explosion_source(e, rest, i + 1, b) implies explosion_source(e, ps, i, a) by {
        let m = choose|m: int|
            i + 1 <= m < rest.len() && !(#[trigger] rest[m]).despawn && explosion_origin(
                e,
                rest[m],
                b,
            );
        lemma_earlier_self(ps[m]);
        lemma_carry(ps[m], ps[m], a, b);
    }
    assert forall|r: ChainSpawnRequestView| #[trigger]
        chain_source(r, rest, i + 1, b) implies chain_source(r, ps, i, a) by {
        let m = choose|m: int|
            i + 1 <= m < rest.len() && !(#[trigger] rest[m]).despawn && chain_origin(r, rest[m], b);
        lemma_earlier_self(ps[m]);
        lemma_carry(ps[m], ps[m], a, b);
    }
    assert forall|r: SplitSpawnRequest| #[trigger]
        split_source(r, rest, i + 1, b) implies split_source(r, ps, i, a) by {
        let m = choose|m: int|
            i + 1 <= m < rest.len() && !(#[trigger] rest[m]).despawn && split_origin(r, rest[m], b);
        lemma_earlier_self(ps[m]);
        lemma_carry(ps[m], ps[m], a, b);
    }
}

/// The whole scan only adds to the records and queues, and every record and
/// request that it adds comes from a hit of one of the projectiles that were
/// in flight on a target that it collides with.
pub proof fn lemma_scan_all_origins(ps: Seq<LiveProjectileView>, st: ScanView, i: int)
    requires
        0 <= i <= ps.len(),
    ensures
        from_all(ps, i, st, scan_all(ps, st, i).1),
    decreases ps.len() - i,
{
    if i < ps.len() {
        let (p, next) = scan_one(ps[i], st);
        let rest = ps.update(i, p);
        if ps[i].despawn {
            lemma_from_one_nothing(ps[i], st);
        } else {
            lemma_scan_from_origins(ps[i], st, 0);
        }
        assert(from_one(ps[i], st, next));
        lemma_scan_all_origins(rest, next, i + 1);
        let end = scan_all(rest, next, i + 1).1;
        assert(scan_all(ps, st, i).1 == end);
        lemma_carry_rest(ps, rest, i, st.targets, next.targets);
        lemma_extends_twice(end.hits, next.hits, st.hits);
        lemma_extends_twice(end.queues.explosions, next.queues.explosions, st.queues.explosions);
        lemma_extends_twice(end.queues.chain_spawns, next.queues.chain_spawns, st.queues.chain_spawns);
        lemma_extends_twice(end.queues.split_spawns, next.queues.split_spawns, st.queues.split_spawns);
        assert(same_places(st.targets, end.targets)) by {
            assert forall|j: int|
                #![trigger st.targets[j]]
                #![trigger end.targets[j]]
                0 <= j < st.targets.len() implies st.targets[j].entity == end.targets[j].entity
                && st.targets[j].position == end.targets[j].position by {
                assert(next.targets[j].entity == end.targets[j].entity);
            }
        }
        assert forall|x: int| st.hits.len() <= x < end.hits.len() implies hit_source(
            #[trigger] end.hits[x],
            ps,
            i,
            st.targets,
        ) by {
            if x < next.hits.len() {
                assert(hit_origin(next.hits[x], ps[i], st.targets));
            } else {
                assert(hit_source(end.hits[x], rest, i + 1, next.targets));
            }
        }
        assert forall|x: int|
            st.queues.explosions.len() <= x < end.queues.explosions.len() implies explosion_source(
            #[trigger] end.queues.explosions[x],
            ps,
            i,
            st.targets,
        ) by {
            if x < next.queues.explosions.len() {
                assert(explosion_origin(next.queues.explosions[x], ps[i], st.targets));
            } else {
                assert(explosion_source(end.queues.explosions[x], rest, i + 1, next.targets));
            }
        }
        assert forall|x: int|
            st.queues.chain_spawns.len() <= x < end.queues.chain_spawns.len() implies chain_source(
            #[trigger] end.queues.chain_spawns[x],
            ps,
            i,
            st.targets,
        ) by {
            if x < next.queues.chain_spawns.len() {
                assert(chain_origin(next.queues.chain_spawns[x], ps[i], st.targets));
            } else {
                assert(chain_source(end.queues.chain_spawns[x], rest, i + 1, next.targets));
            }
        }
        assert forall|x: int|
            st.queues.split_spawns.len() <= x < end.queues.split_spawns.len() implies split_source(
            #[trigger] end.queues.split_spawns[x],
            ps,
            i,
            st.targets,
        ) by {
            if x < next.queues.split_spawns.len() {
                assert(split_origin(next.queues.split_spawns[x], ps[i], st.targets));
            } else {
                assert(split_source(end.queues.split_spawns[x], rest, i + 1, next.targets));
            }
        }
    } else {
        assert(scan_all(ps, st, i).1 == st);
        assert(st.hits.subrange(0, st.hits.len() as int) =~= st.hits);
        assert(st.queues.explosions.subrange(0, st.queues.explosions.len() as int)
            =~= st.queues.explosions);
        assert(st.queues.chain_spawns.subrange(0, st.queues.chain_spawns.len() as int)
            =~= st.queues.chain_spawns);
        assert(st.queues.split_spawns.subrange(0, st.queues.split_spawns.len() as int)
            =~= st.queues.split_spawns);
    }
}

/// The state in which the scan of the projectiles over the targets ends.
pub open spec fn scanned(ps: Seq<LiveProjectileView>, targets: Seq<Target>) -> ScanView {
    scan_all(ps, scan_start(targets), 0).1
}

/// The targets as a whole collision step leaves them: after the scan, and
/// after every explosion that the scan queued.
pub open spec fn resolved(ps: Seq<LiveProjectileView>, targets: Seq<Target>) -> Seq<Target> {
    all_blasted(scanned(ps, targets).targets, scanned(ps, targets).queues.explosions)
}

/// A target that none of the first `n` explosions reaches is left as it was.
pub proof fn lemma_out_of_every_blast(t: Target, explosions: Seq<ExplosionRequest>, n: int)
    requires
        0 <= n <= explosions.len(),
        forall|y: int| 0 <= y < n ==> !in_blast(#[trigger] explosions[y], t),
    ensures
        blasted(t, explosions, n) == t,
    decreases n,
{
    if n > 0 {
        lemma_out_of_every_blast(t, explosions, n - 1);
    }
}

/// A target that one of the first `n` explosions reaches, and no other, is
/// left as that one explosion leaves it.
pub proof fn lemma_single_blast(t: Target, explosions: Seq<ExplosionRequest>, n: int, x: int)
    requires
        0 <= x < n <= explosions.len(),
        forall|y: int| 0 <= y < n && y != x ==> !in_blast(#[trigger] explosions[y], t),
    ensures
        blasted(t, explosions, n) == blast(explosions[x], t),
    decreases n,
{
    if n - 1 == x {
        lemma_out_of_every_blast(t, explosions, n - 1);
    } else {
        lemma_single_blast(t, explosions, n - 1, x);
        assert(!in_blast(explosions[n - 1], t));
    }
}

/// A target that no hit record of the step names, and that lies at or beyond
/// the radius of every explosion that the step queued, or was the one hit
/// where it went off, is exactly as it was after the whole step: its health
/// and its speed.
pub proof fn lemma_unreached_target_is_spared(
    ps: Seq<LiveProjectileView>,
    targets: Seq<Target>,
    j: int,
)
    requires
        0 <= j < targets.len(),
        hit_count(scanned(ps, targets).hits, targets[j].entity, 0) == 0,
        forall|y: int|
            0 <= y < scanned(ps, targets).queues.explosions.len() ==> !in_blast(
                #[trigger] scanned(ps, targets).queues.explosions[y],
                targets[j],
            ),
    ensures
        resolved(ps, targets)[j] == targets[j],
{
    let st = scanned(ps, targets);
    lemma_scan_all(ps, scan_start(targets), 0);
    lemma_scan_all_tallies(ps, scan_start(targets), 0);
    assert(accounted(scan_start(targets), st, j, none_freezes(ps, 0)));
    lemma_out_of_every_blast(targets[j], st.queues.explosions, st.queues.explosions.len() as int);
}

/// A target that no projectile in flight collides with, and that lies at or
/// beyond the blast radius of every explosive projectile in flight, is
/// exactly as it was after the whole step, however many projectiles and
/// targets there are.
pub proof fn lemma_distant_target_is_spared(
    ps: Seq<LiveProjectileView>,
    targets: Seq<Target>,
    j: int,
)
    requires
        0 <= j < targets.len(),
        distinct_targets(targets),
        forall|m: int|
            0 <= m < ps.len() && !(#[trigger] ps[m]).despawn ==> !collides(ps[m], targets[j]),
        forall|m: int|
            0 <= m < ps.len() && !(#[trigger] ps[m]).despawn && ps[m].bundle.explosive is Some
                ==> dist_sq_spec(ps[m].bundle.position, targets[j].position)
                >= ps[m].bundle.explosive->0.radius * ps[m].bundle.explosive->0.radius,
    ensures
        resolved(ps, targets)[j] == targets[j],
{
    let st = scanned(ps, targets);
    let e = targets[j].entity;
    lemma_scan_all_origins(ps, scan_start(targets), 0);
    lemma_unnamed(ps, targets, j, 0);
    assert forall|y: int| 0 <= y < st.queues.explosions.len() implies !in_blast(
        #[trigger] st.queues.explosions[y],
        targets[j],
    ) by {
        let x = st.queues.explosions[y];
        assert(explosion_source(x, ps, 0, targets));
        let m = choose|m: int|
            0 <= m < ps.len() && !(#[trigger] ps[m]).despawn && explosion_origin(x, ps[m], targets);
        assert(x.center == ps[m].bundle.position);
    }
    lemma_unreached_target_is_spared(ps, targets, j);
}

/// Where no projectile in flight collides with a target, no hit record of
/// the scan names it.
proof fn lemma_unnamed(ps: Seq<LiveProjectileView>, targets: Seq<Target>, j: int, from: int)
    requires
        0 <= j < targets.len(),
        0 <= from,
        distinct_targets(targets),
        from_all(ps, 0, scan_start(targets), scanned(ps, targets)),
        forall|m: int|
            0 <= m < ps.len() && !(#[trigger] ps[m]).despawn ==> !collides(ps[m], targets[j]),
    ensures
        hit_count(scanned(ps, targets).hits, targets[j].entity, from) == 0,
    decreases scanned(ps, targets).hits.len() - from,
{
    let st = scanned(ps, targets);
    if from < st.hits.len() {
        lemma_unnamed(ps, targets, j, from + 1);
        let h = st.hits[from];
        assert(hit_source(h, ps, 0, targets));
        let m = choose|m: int|
            0 <= m < ps.len() && !(#[trigger] ps[m]).despawn && hit_origin(h, ps[m], targets);
        let k = choose|k: int|
            0 <= k < targets.len() && collides(ps[m], #[trigger] targets[k]) && h == hit_event(
                ps[m],
                targets[k],
            );
        if k < j {
            assert(targets[k].entity != targets[j].entity);
        } else if j < k {
            assert(targets[j].entity != targets[k].entity);
        }
    }
}

/// A target that no hit record of the step names and that exactly one of the
/// queued explosions reaches loses what that explosion deals at its
/// distance, the full damage at the centre and less in a straight line out
/// to the radius, and nothing else; the explosion is centred where an
/// explosive projectile in flight hit, with the radius and damage of its
/// tag.
pub proof fn lemma_one_blast_reaches(
    ps: Seq<LiveProjectileView>,
    targets: Seq<Target>,
    j: int,
    x: int,
)
    requires
        0 <= j < targets.len(),
        hit_count(scanned(ps, targets).hits, targets[j].entity, 0) == 0,
        0 <= x < scanned(ps, targets).queues.explosions.len(),
        in_blast(scanned(ps, targets).queues.explosions[x], targets[j]),
        forall|y: int|
            0 <= y < scanned(ps, targets).queues.explosions.len() && y != x ==> !in_blast(
                #[trigger] scanned(ps, targets).queues.explosions[y],
                targets[j],
            ),
    ensures
        ({
            let e = scanned(ps, targets).queues.explosions[x];
            &&& resolved(ps, targets)[j] == (Target {
                health: targets[j].health.after_damage(
                    explosion_damage(e, dist_sq_spec(e.center, targets[j].position)) as u32,
                ),
                ..targets[j]
            })
            &&& explosion_source(e, ps, 0, targets)
        }),
{
    let st = scanned(ps, targets);
    lemma_scan_all(ps, scan_start(targets), 0);
    lemma_scan_all_tallies(ps, scan_start(targets), 0);
    lemma_scan_all_origins(ps, scan_start(targets), 0);
    assert(accounted(scan_start(targets), st, j, none_freezes(ps, 0)));
    lemma_single_blast(targets[j], st.queues.explosions, st.queues.explosions.len() as int, x);
    assert(explosion_source(st.queues.explosions[x], ps, 0, targets));
}

/// Direct hits add up. Where no projectile in flight is explosive and no two
/// targets are the same entity, a whole step takes from each target the
/// damage of every hit record that names it, and stops at zero; where every
/// projectile in flight deals the same damage, that is the damage times the
/// number of hits on the target. A target that no record names is as it was,
/// and without a freezing projectile no speed changes.
pub proof fn lemma_direct_hits_add_up(
    ps: Seq<LiveProjectileView>,
    targets: Seq<Target>,
    j: int,
    damage: u32,
)
    requires
        0 <= j < targets.len(),
        distinct_targets(targets),
        forall|m: int|
            0 <= m < ps.len() && !(#[trigger] ps[m]).despawn ==> ps[m].bundle.explosive is None,
    ensures
        ({
            let hits = scanned(ps, targets).hits;
            let after = resolved(ps, targets)[j];
            let named = hit_count(hits, targets[j].entity, 0);
            &&& after.health == drained(targets[j].health, dealt(hits, targets[j].entity, 0))
            &&& after.entity == targets[j].entity
            &&& after.position == targets[j].position
            &&& named == 0 ==> after == targets[j]
            &&& none_freezes(ps, 0) ==> after.speed == targets[j].speed
            &&& (forall|m: int|
                0 <= m < ps.len() && !(#[trigger] ps[m]).despawn ==> ps[m].bundle.projectile.damage
                    == damage) ==> after.health == drained(targets[j].health, damage * named)
        }),
{
    let st = scanned(ps, targets);
    let start = scan_start(targets);
    lemma_scan_all(ps, start, 0);
    lemma_scan_all_tallies(ps, start, 0);
    lemma_scan_all_origins(ps, start, 0);
    assert(accounted(start, st, j, none_freezes(ps, 0)));
    if st.queues.explosions.len() > 0 {
        let x = st.queues.explosions[0];
        assert(explosion_source(x, ps, 0, targets));
        let m = choose|m: int|
            0 <= m < ps.len() && !(#[trigger] ps[m]).despawn && explosion_origin(x, ps[m], targets);
        assert(false);
    }
    if forall|m: int|
        0 <= m < ps.len() && !(#[trigger] ps[m]).despawn ==> ps[m].bundle.projectile.damage
            == damage {
        assert forall|x: int| 0 <= x < st.hits.len() implies (#[trigger] st.hits[x]).damage
            == damage by {
            assert(hit_source(st.hits[x], ps, 0, targets));
            let m = choose|m: int|
                0 <= m < ps.len() && !(#[trigger] ps[m]).despawn && hit_origin(
                    st.hits[x],
                    ps[m],
                    targets,
                );
        }
        lemma_equal_hits(st.hits, targets[j].entity, 0, damage);
    }
}

/// What a hit can bring about: the hit itself, and the effects it queues.
pub enum Effect {
    Hit,
    Explosion,
    Relay,
    Split,
}

/// Whether a hit of the projectile brings the effect about: every hit is
/// recorded; an explosive projectile queues an explosion, a chain with jumps
/// left a relay, a splitter with splits left a split.
pub open spec fn can_cause(p: LiveProjectileView, effect: Effect) -> bool {
    match effect {
        Effect::Hit => true,
        Effect::Explosion => p.bundle.explosive is Some,
        Effect::Relay => p.bundle.chain_lightning is Some
            && p.bundle.chain_lightning->0.jumps_remaining > 0,
        Effect::Split => p.bundle.splitter is Some && p.bundle.splitter->0.splits_remaining > 0,
    }
}

/// How many records or requests of the effect the scan added between
/// `before` and `after`.
pub open spec fn added(before: ScanView, after: ScanView, effect: Effect) -> int {
    match effect {
        Effect::Hit => after.hits.len() - before.hits.len(),
        Effect::Explosion => after.queues.explosions.len() - before.queues.explosions.len(),
        Effect::Relay => after.queues.chain_spawns.len() - before.queues.chain_spawns.len(),
        Effect::Split => after.queues.split_spawns.len() - before.queues.split_spawns.len(),
    }
}

/// The most that the projectiles from index `i` on can add of an effect in
/// one scan: for each one in flight that can cause it, one more than its
/// pierce.
pub open spec fn budget(ps: Seq<LiveProjectileView>, i: int, effect: Effect) -> int
    decreases ps.len() - i,
{
    if i < 0 || i >= ps.len() {
        0
    } else {
        budget(ps, i + 1, effect) + if !ps[i].despawn && can_cause(ps[i], effect) {
            ps[i].bundle.projectile.pierce_count + 1
        } else {
            0int
        }
    }
}

/// The number of projectiles in flight from index `i` on that can cause the
/// effect.
pub open spec fn capable(ps: Seq<LiveProjectileView>, i: int, effect: Effect) -> int
    decreases ps.len() - i,
{
    if i < 0 || i >= ps.len() {
        0
    } else {
        capable(ps, i + 1, effect) + if !ps[i].despawn && can_cause(ps[i], effect) {
            1int
        } else {
            0int
        }
    }
}

/// The budget looks only at the projectiles from `i` on. It is nothing where
/// none in flight can cause the effect, and where none in flight has pierce
/// it is the number of those that can.
pub proof fn lemma_budget(
    a: Seq<LiveProjectileView>,
    b: Seq<LiveProjectileView>,
    i: int,
    effect: Effect,
)
    requires
        0 <= i <= a.len(),
        a.len() == b.len(),
        forall|m: int| i <= m < a.len() ==> #[trigger] a[m] == b[m],
    ensures
        budget(a, i, effect) == budget(b, i, effect),
        0 <= capable(a, i, effect) <= a.len() - i,
        capable(a, i, effect) <= budget(a, i, effect),
        (forall|m: int| i <= m < a.len() && !(#[trigger] a[m]).despawn ==> !can_cause(a[m], effect))
            ==> budget(a, i, effect) == 0,
        (forall|m: int|
            i <= m < a.len() && !(#[trigger] a[m]).despawn ==> a[m].bundle.projectile.pierce_count
                == 0) ==> budget(a, i, effect) == capable(a, i, effect),
    decreases a.len() - i,
{
    if i < a.len() {
        lemma_budget(a, b, i + 1, effect);
        assert(a[i] == b[i]);
    }
}

/// The scan of one projectile adds of each effect at most one more than the
/// projectile's pierce, and nothing of an effect that it cannot cause.
pub proof fn lemma_scan_from_budget(p: LiveProjectileView, st: ScanView, k: int, effect: Effect)
    requires
        0 <= k <= st.targets.len(),
        !p.despawn,
    ensures
        0 <= added(st, scan_from(p, st, k).1, effect) <= if can_cause(p, effect) {
            p.bundle.projectile.pierce_count + 1
        } else {
            0int
        },
{
    let end = scan_from(p, st, k).1;
    lemma_scan_from(p, st, k);
    lemma_scan_from_origins(p, st, k);
    if added(st, end, effect) > 0 {
        match effect {
            Effect::Hit => {},
            Effect::Explosion => {
                let x = end.queues.explosions[st.queues.explosions.len() as int];
                assert(explosion_origin(x, p, st.targets));
            },
            Effect::Relay => {
                let x = end.queues.chain_spawns[st.queues.chain_spawns.len() as int];
                assert(chain_origin(x, p, st.targets));
            },
            Effect::Split => {
                let x = end.queues.split_spawns[st.queues.split_spawns.len() as int];
                assert(split_origin(x, p, st.targets));
            },
        }
    }
}

/// The whole scan adds of each effect no more than the budget of its
/// projectiles.
pub proof fn lemma_scan_all_budget(ps: Seq<LiveProjectileView>, st: ScanView, i: int, effect: Effect)
    requires
        0 <= i <= ps.len(),
    ensures
        0 <= added(st, scan_all(ps, st, i).1, effect) <= budget(ps, i, effect),
    decreases ps.len() - i,
{
    if i < ps.len() {
        let (p, next) = scan_one(ps[i], st);
        let rest = ps.update(i, p);
        if !ps[i].despawn {
            lemma_scan_from_budget(ps[i], st, 0, effect);
        }
        lemma_scan_all_budget(rest, next, i + 1, effect);
        lemma_budget(rest, ps, i + 1, effect);
        assert(scan_all(ps, st, i).1 == scan_all(rest, next, i + 1).1);
    } else {
        assert(scan_all(ps, st, i).1 == st);
    }
}

/// There is at most one relay for each request.
pub proof fn lemma_relays_bounded(requests: Seq<ChainSpawnRequestView>, targets: Seq<Target>, n: int)
    requires
        0 <= n <= requests.len(),
    ensures
        relays(requests, targets, n).len() <= n,
    decreases n,
{
    if n > 0 {
        lemma_relays_bounded(requests, targets, n - 1);
    }
}

/// Every relay is the relay of one of the requests.
pub proof fn lemma_relay_members(
    requests: Seq<ChainSpawnRequestView>,
    targets: Seq<Target>,
    n: int,
    y: int,
)
    requires
        0 <= n <= requests.len(),
        0 <= y < relays(requests, targets, n).len(),
    ensures
        exists|x: int|
            0 <= x < n && relay(#[trigger] requests[x], targets) == Some(
                relays(requests, targets, n)[y],
            ),
    decreases n,
{
    if n > 0 {
        let before = relays(requests, targets, n - 1);
        if y < before.len() {
            lemma_relay_members(requests, targets, n - 1, y);
            let x = choose|x: int|
                0 <= x < n - 1 && relay(#[trigger] requests[x], targets) == Some(before[y]);
            assert(relay(requests[x], targets) == Some(relays(requests, targets, n)[y]));
        } else {
            assert(relay(requests[n - 1], targets) == Some(relays(requests, targets, n)[y]));
        }
    }
}

/// The number of fragments that the first `n` requests ask for.
pub open spec fn fragments_asked(requests: Seq<SplitSpawnRequest>, n: int) -> int
    decreases n,
{
    if n <= 0 {
        0
    } else {
        fragments_asked(requests, n - 1) + requests[n - 1].count
    }
}

/// Each request gets exactly as many fragments as it counts, and every
/// fragment is one of those of a request.
pub proof fn lemma_fragment_members(requests: Seq<SplitSpawnRequest>, n: int, y: int)
    requires
        0 <= n <= requests.len(),
    ensures
        fragments(requests, n).len() == fragments_asked(requests, n),
        0 <= y < fragments(requests, n).len() ==> exists|x: int, i: int|
            0 <= x < n && 0 <= i < requests[x].count && fragments(requests, n)[y]
                == #[trigger] fragment(requests[x], i),
    decreases n,
{
    if n > 0 {
        let before = fragments(requests, n - 1);
        lemma_fragment_members(requests, n - 1, y);
        if 0 <= y < fragments(requests, n).len() {
            if y < before.len() {
                let (x, i) = choose|x: int, i: int|
                    0 <= x < n - 1 && 0 <= i < requests[x].count && before[y]
                        == #[trigger] fragment(requests[x], i);
                assert(fragments(requests, n)[y] == fragment(requests[x], i));
            } else {
                assert(fragments(requests, n)[y] == fragment(requests[n - 1], y - before.len()));
            }
        }
    }
}

/// The fan of a split: the first fragment is turned half the arc to one
/// side, each next one a step further, and none beyond half the arc to the
/// other side.
pub proof fn lemma_fan(count: u32, i: int)
    requires
        0 <= i < count,
    ensures
        fan_turn(count, 0) == -FAN_HALF_ARC,
        -FAN_HALF_ARC <= fan_turn(count, i) <= FAN_HALF_ARC,
        fan_turn(count, i + 1) - fan_turn(count, i) == fan_step(count),
{
    let step = fan_step(count);
    if count > 1 {
        let gaps = count - 1;
        assert(0 <= step && step * gaps <= FAN_ARC) by (nonlinear_arith)
            requires
                step == FAN_ARC as int / gaps,
                gaps > 0,
                FAN_ARC == 1_047_198,
        ;
        assert(0 <= step * i <= step * gaps) by (nonlinear_arith)
            requires
                0 <= i <= gaps,
                0 <= step,
        ;
    }
    assert(step * (i + 1) == step * i + step) by (nonlinear_arith);
}

/// The relay of a request that a hit of `p` on `t` queued. It starts where
/// `t` is, owned by the owner of `p`, with the damage of `p` reduced by the
/// falloff, one jump less than `p` had, the range and falloff of `p`, and
/// without pierce. It remembers what `p` remembered and `t`; where `p` has no
/// pierce it remembers nothing else, and no target twice where `p` did not.
/// The target it flies at is none of those: it is the nearest target within
/// the jump range that the chain has not hit, the first in scan order of
/// several equally near.
pub proof fn lemma_relay_of_hit(
    r: ChainSpawnRequestView,
    p: LiveProjectileView,
    t: Target,
    targets: Seq<Target>,
)
    requires
        chain_by(r, p, t),
        relay(r, targets) is Some,
    ensures
        ({
            let order = relay(r, targets)->0;
            let parent = p.bundle.chain_lightning->0;
            let k = relay_target(r, targets)->0;
            &&& order.bundle.position == t.position
            &&& is_heading(order.bundle.velocity.direction)
            &&& order.bundle.projectile.owner == p.bundle.projectile.owner
            &&& order.bundle.projectile.pierce_count == 0
            &&& order.bundle.projectile.damage == scale_spec(
                p.bundle.projectile.damage as int,
                parent.damage_falloff as int,
            )
            &&& order.bundle.chain_lightning is Some
            &&& order.bundle.chain_lightning->0.jumps_remaining + 1 == parent.jumps_remaining
            &&& order.bundle.chain_lightning->0.jump_range == parent.jump_range
            &&& order.bundle.chain_lightning->0.damage_falloff == parent.damage_falloff
            &&& order.bundle.chain_lightning->0.already_hit == r.already_hit
            &&& p.bundle.projectile.pierce_count == 0 ==> r.already_hit == parent.already_hit.push(
                t.entity,
            )
            &&& p.bundle.projectile.pierce_count == 0 && parent.already_hit.no_duplicates()
                ==> r.already_hit.no_duplicates()
            &&& r.already_hit.contains(t.entity)
            &&& forall|e: u64| parent.already_hit.contains(e) ==> r.already_hit.contains(e)
            &&& relay_target(r, targets) is Some
            &&& 0 <= k < targets.len()
            &&& targets[k].entity != t.entity
            &&& !parent.already_hit.contains(targets[k].entity)
            &&& eligible(targets[k], t.position, r.already_hit, Some(r.range))
            &&& forall|j: int|
                0 <= j < targets.len() && eligible(
                    #[trigger] targets[j],
                    t.position,
                    r.already_hit,
                    Some(r.range),
                ) ==> dist_sq_spec(t.position, targets[k].position) <= dist_sq_spec(
                    t.position,
                    targets[j].position,
                )
            &&& forall|j: int|
                0 <= j < k && eligible(#[trigger] targets[j], t.position, r.already_hit, Some(r.range))
                    ==> dist_sq_spec(t.position, targets[k].position) < dist_sq_spec(
                    t.position,
                    targets[j].position,
                )
        }),
{
    let parent = p.bundle.chain_lightning->0;
    lemma_nearest(targets, targets.len() as int, r.position, r.already_hit, Some(r.range));
    let toward = direction_to_spec(r.position, targets[relay_target(r, targets)->0].position);
    lemma_normalized_is_heading(toward.x as int, toward.y as int);
    assert(r.already_hit[r.already_hit.len() - 1] == t.entity);
    if p.bundle.projectile.pierce_count == 0 && parent.already_hit.no_duplicates() {
        let grown = parent.already_hit.push(t.entity);
        assert forall|i: int, j: int|
            0 <= i < grown.len() && 0 <= j < grown.len() && i != j implies grown[i] != grown[j] by {
            if i < parent.already_hit.len() && j < parent.already_hit.len() {
            } else if i < parent.already_hit.len() {
                assert(parent.already_hit.contains(grown[i]));
            } else {
                assert(parent.already_hit.contains(grown[j]));
            }
        }
    }
    assert forall|e: u64| parent.already_hit.contains(e) implies r.already_hit.contains(e) by {
        let i = choose|i: int| 0 <= i < parent.already_hit.len() && parent.already_hit[i] == e;
        assert(r.already_hit.subrange(0, parent.already_hit.len() as int)[i] == r.already_hit[i]);
    }
}

/// A request gets no relay exactly where no target is left to jump to: none
/// within the jump range that the chain has not hit.
pub proof fn lemma_relay_needs_target(r: ChainSpawnRequestView, targets: Seq<Target>)
    ensures
        relay(r, targets) is None <==> forall|j: int|
            0 <= j < targets.len() ==> !eligible(
                #[trigger] targets[j],
                r.position,
                r.already_hit,
                Some(r.range),
            ),
{
    lemma_nearest(targets, targets.len() as int, r.position, r.already_hit, Some(r.range));
}

/// The relays that a whole step spawns.
pub open spec fn step_relays(ps: Seq<LiveProjectileView>, targets: Seq<Target>) -> Seq<SpawnOrderView> {
    relays(
        scanned(ps, targets).queues.chain_spawns,
        resolved(ps, targets),
        scanned(ps, targets).queues.chain_spawns.len() as int,
    )
}

/// The fragments that a whole step spawns.
pub open spec fn step_fragments(ps: Seq<LiveProjectileView>, targets: Seq<Target>) -> Seq<
    SpawnOrderView,
> {
    fragments(
        scanned(ps, targets).queues.split_spawns,
        scanned(ps, targets).queues.split_spawns.len() as int,
    )
}

/// The counts of a whole step. Of each effect there is no more than the
/// budget of the projectiles: nothing where no projectile in flight can
/// cause it, and where none in flight has pierce at most one for each
/// projectile that can. So a projectile without pierce makes at most one
/// hit, and sets off at most one explosion, one relay and one split. There
/// are no more relays than relay requests, and exactly as many fragments as
/// the split requests count.
pub proof fn lemma_step_counts(ps: Seq<LiveProjectileView>, targets: Seq<Target>, effect: Effect)
    ensures
        0 <= added(scan_start(targets), scanned(ps, targets), effect) <= budget(ps, 0, effect),
        (forall|m: int|
            0 <= m < ps.len() && !(#[trigger] ps[m]).despawn ==> !can_cause(ps[m], effect))
            ==> added(scan_start(targets), scanned(ps, targets), effect) == 0,
        (forall|m: int|
            0 <= m < ps.len() && !(#[trigger] ps[m]).despawn ==> ps[m].bundle.projectile.pierce_count
                == 0) ==> added(scan_start(targets), scanned(ps, targets), effect) <= capable(
            ps,
            0,
            effect,
        ) <= ps.len(),
        step_relays(ps, targets).len() <= scanned(ps, targets).queues.chain_spawns.len(),
        step_fragments(ps, targets).len() == fragments_asked(
            scanned(ps, targets).queues.split_spawns,
            scanned(ps, targets).queues.split_spawns.len() as int,
        ),
{
    let st = scanned(ps, targets);
    lemma_scan_all_budget(ps, scan_start(targets), 0, effect);
    lemma_budget(ps, ps, 0, effect);
    lemma_relays_bounded(
        st.queues.chain_spawns,
        resolved(ps, targets),
        st.queues.chain_spawns.len() as int,
    );
    lemma_fragment_members(st.queues.split_spawns, st.queues.split_spawns.len() as int, 0);
}

/// Every relay that a step spawns carries on the chain of a projectile that
/// was in flight, had jumps left, and hit a target that its chain did not
/// remember: it is the relay of a request that such a hit queued.
pub proof fn lemma_step_relay(ps: Seq<LiveProjectileView>, targets: Seq<Target>, y: int)
    requires
        0 <= y < step_relays(ps, targets).len(),
    ensures
        exists|x: int|
            0 <= x < scanned(ps, targets).queues.chain_spawns.len() && relay(
                #[trigger] scanned(ps, targets).queues.chain_spawns[x],
                resolved(ps, targets),
            ) == Some(step_relays(ps, targets)[y]) && chain_source(
                scanned(ps, targets).queues.chain_spawns[x],
                ps,
                0,
                targets,
            ),
{
    let st = scanned(ps, targets);
    let queue = st.queues.chain_spawns;
    lemma_scan_all_origins(ps, scan_start(targets), 0);
    lemma_relay_members(queue, resolved(ps, targets), queue.len() as int, y);
    let x = choose|x: int|
        0 <= x < queue.len() && relay(#[trigger] queue[x], resolved(ps, targets)) == Some(
            step_relays(ps, targets)[y],
        );
    assert(chain_source(queue[x], ps, 0, targets));
}

/// Every fragment that a step spawns is one of the fan of a split request
/// that the hit of a splitter in flight queued: it starts at the target hit,
/// with the damage reduced, one split less, and a turn within the fan.
pub proof fn lemma_step_fragment(ps: Seq<LiveProjectileView>, targets: Seq<Target>, y: int)
    requires
        0 <= y < step_fragments(ps, targets).len(),
    ensures
        exists|x: int, i: int|
            0 <= x < scanned(ps, targets).queues.split_spawns.len() && 0 <= i < scanned(
                ps,
                targets,
            ).queues.split_spawns[x].count && step_fragments(ps, targets)[y] == #[trigger] fragment(
                scanned(ps, targets).queues.split_spawns[x],
                i,
            ) && split_source(scanned(ps, targets).queues.split_spawns[x], ps, 0, targets),
{
    let st = scanned(ps, targets);
    let queue = st.queues.split_spawns;
    lemma_scan_all_origins(ps, scan_start(targets), 0);
    lemma_fragment_members(queue, queue.len() as int, y);
    let (x, i) = choose|x: int, i: int|
        0 <= x < queue.len() && 0 <= i < queue[x].count && step_fragments(ps, targets)[y]
            == #[trigger] fragment(queue[x], i);
    assert(split_source(queue[x], ps, 0, targets));
}

/// No hit record of a step names a target that the projectile which made it
/// remembered when the step began, and every record is that of a projectile
/// in flight on a target it collides with.
pub proof fn lemma_step_hit(ps: Seq<LiveProjectileView>, targets: Seq<Target>, x: int)
    requires
        0 <= x < scanned(ps, targets).hits.len(),
    ensures
        hit_source(scanned(ps, targets).hits[x], ps, 0, targets),
{
    lemma_scan_all_origins(ps, scan_start(targets), 0);
}

/// Fragment `i` of the split that a hit of `p` on `t` queues. It starts where
/// `t` is, headed the way from `p` to `t` and turned within the fan, a step
/// from the next fragment, owned by the owner of `p`, with the damage of `p`
/// times the multiplier and without pierce. It can split again, once less than `p`, unless `p` was on its last
/// split.
pub proof fn lemma_fragment_of_hit(p: LiveProjectileView, t: Target, i: int)
    requires
        queued_split(p, t) is Some,
        0 <= i < p.bundle.splitter->0.split_count,
    ensures
        ({
            let tag = p.bundle.splitter->0;
            let f = fragment(queued_split(p, t)->0, i);
            let way = direction_to_spec(p.bundle.position, t.position);
            &&& tag.splits_remaining > 0
            &&& f.bundle.position == t.position
            &&& f.bundle.velocity.direction == normalize_spec(way.x as int, way.y as int)
            &&& is_heading(f.bundle.velocity.direction)
            &&& f.turn == fan_turn(tag.split_count, i)
            &&& -FAN_HALF_ARC <= f.turn <= FAN_HALF_ARC
            &&& i + 1 < tag.split_count ==> fragment(queued_split(p, t)->0, i + 1).turn - f.turn
                == fan_step(tag.split_count)
            &&& f.bundle.projectile.owner == p.bundle.projectile.owner
            &&& f.bundle.projectile.pierce_count == 0
            &&& f.bundle.projectile.damage == scale_spec(
                p.bundle.projectile.damage as int,
                tag.damage_multiplier as int,
            )
            &&& f.bundle.splitter == if tag.splits_remaining > 1 {
                Some(
                    Splitter {
                        splits_remaining: (tag.splits_remaining - 1) as u32,
                        split_count: tag.split_count,
                        damage_multiplier: tag.damage_multiplier,
                    },
                )
            } else {
                None
            }
        }),
{
    let way = direction_to_spec(p.bundle.position, t.position);
    lemma_normalized_is_heading(way.x as int, way.y as int);
    lemma_fan(p.bundle.splitter->0.split_count, i);
    if i + 1 < p.bundle.splitter->0.split_count {
        lemma_fan(p.bundle.splitter->0.split_count, i + 1);
    }
}

/// The first target from index `k` on that the projectile collides with.
pub open spec fn first_struck(p: LiveProjectileView, targets: Seq<Target>, k: int) -> Option<int>
    decreases targets.len() - k,
{
    if k < 0 || k >= targets.len() {
        None
    } else if collides(p, targets[k]) {
        Some(k)
    } else {
        first_struck(p, targets, k + 1)
    }
}

/// What `first_struck` finds is a target that the projectile collides with,
/// and it collides with none before it; it finds none only where there is
/// none. Targets that have not moved give the same answer.
pub proof fn lemma_first_struck(p: LiveProjectileView, a: Seq<Target>, b: Seq<Target>, k: int)
    requires
        0 <= k,
        same_places(a, b),
    ensures
        first_struck(p, a, k) == first_struck(p, b, k),
        match first_struck(p, a, k) {
            Some(j) => k <= j < a.len() && collides(p, a[j]) && forall|x: int|
                k <= x < j ==> !collides(p, #[trigger] a[x]),
            None => forall|x: int| k <= x < a.len() ==> !collides(p, #[trigger] a[x]),
        },
    decreases a.len() - k,
{
    if k < a.len() {
        assert(a[k].entity == b[k].entity && a[k].position == b[k].position);
        if !collides(p, a[k]) {
            lemma_first_struck(p, a, b, k + 1);
        }
    }
}

/// A projectile without pierce hits the first target in scan order that it
/// collides with, that one only, and is spent; where it collides with none,
/// nothing happens.
pub proof fn lemma_single_hit(p: LiveProjectileView, st: ScanView, k: int)
    requires
        0 <= k <= st.targets.len(),
        !p.despawn,
        p.bundle.projectile.pierce_count == 0,
    ensures
        scan_from(p, st, k) == match first_struck(p, st.targets, k) {
            Some(j) => (after_hit(p, st.targets[j]), record_hit(st, p, j)),
            None => (p, st),
        },
    decreases st.targets.len() - k,
{
    if k < st.targets.len() && !collides(p, st.targets[k]) {
        lemma_single_hit(p, st, k + 1);
    }
}

/// In a whole scan, a projectile in flight without pierce hits the first
/// target in scan order that it collides with, whatever the projectiles
/// before it did: there is a hit record for it, and the projectile is spent.
/// Where it collides with no target it is left as it was.
pub proof fn lemma_scan_all_single_hit(ps: Seq<LiveProjectileView>, st: ScanView, i: int, m: int)
    requires
        0 <= i <= m < ps.len(),
        !ps[m].despawn,
        ps[m].bundle.projectile.pierce_count == 0,
    ensures
        ({
            let (qs, end) = scan_all(ps, st, i);
            match first_struck(ps[m], st.targets, 0) {
                Some(j) => qs[m] == after_hit(ps[m], st.targets[j]) && qs[m].despawn && exists|x: int|
                    st.hits.len() <= x < end.hits.len() && #[trigger] end.hits[x] == hit_event(
                        ps[m],
                        st.targets[j],
                    ),
                None => qs[m] == ps[m],
            }
        }),
    decreases ps.len() - i,
{
    let (p, next) = scan_one(ps[i], st);
    let rest = ps.update(i, p);
    let (qs, end) = scan_all(rest, next, i + 1);
    assert(scan_all(ps, st, i) == (qs, end));
    lemma_scan_all(rest, next, i + 1);
    lemma_scan_all_origins(rest, next, i + 1);
    if ps[i].despawn {
        lemma_from_one_nothing(ps[i], st);
    } else {
        lemma_scan_from_origins(ps[i], st, 0);
    }
    lemma_first_struck(ps[m], st.targets, next.targets, 0);
    if i == m {
        lemma_single_hit(ps[m], st, 0);
        assert(qs[m] == rest[m]);
        if first_struck(ps[m], st.targets, 0) is Some {
            let j = first_struck(ps[m], st.targets, 0)->0;
            let x = st.hits.len() as int;
            assert(next.hits[x] == hit_event(ps[m], st.targets[j]));
            assert(end.hits.subrange(0, next.hits.len() as int)[x] == end.hits[x]);
        }
    } else {
        lemma_scan_all_single_hit(rest, next, i + 1, m);
        assert(rest[m] == ps[m]);
        if first_struck(ps[m], st.targets, 0) is Some {
            let j = first_struck(ps[m], st.targets, 0)->0;
            assert(next.targets[j].entity == st.targets[j].entity);
            let x = choose|x: int|
                next.hits.len() <= x < end.hits.len() && #[trigger] end.hits[x] == hit_event(
                    ps[m],
                    next.targets[j],
                );
            assert(st.hits.len() <= x < end.hits.len() && end.hits[x] == hit_event(
                ps[m],
                st.targets[j],
            ));
        }
    }
}

/// In a whole step, every projectile in flight without pierce hits exactly
/// the first target in scan order that is closer to it than the collision
/// radius and that its chain does not remember: the hit is on record, and
/// the projectile is marked. One that collides with no target flies on.
pub proof fn lemma_step_single_hit(ps: Seq<LiveProjectileView>, targets: Seq<Target>, m: int)
    requires
        0 <= m < ps.len(),
        !ps[m].despawn,
        ps[m].bundle.projectile.pierce_count == 0,
    ensures
        ({
            let after = scan_all(ps, scan_start(targets), 0).0[m];
            match first_struck(ps[m], targets, 0) {
                Some(j) => after == after_hit(ps[m], targets[j]) && after.despawn && exists|x: int|
                    0 <= x < scanned(ps, targets).hits.len() && #[trigger] scanned(
                        ps,
                        targets,
                    ).hits[x] == hit_event(ps[m], targets[j]),
                None => after == ps[m],
            }
        }),
{
    let start = scan_start(targets);
    let (qs, end) = scan_all(ps, start, 0);
    lemma_scan_all_single_hit(ps, start, 0, m);
    lemma_scan_all(ps, start, 0);
    lemma_first_struck(ps[m], targets, targets, 0);
    if first_struck(ps[m], targets, 0) is Some {
        let j = first_struck(ps[m], targets, 0)->0;
        let x = choose|x: int|
            0 <= x < end.hits.len() && #[trigger] end.hits[x] == hit_event(ps[m], start.targets[j]);
        assert(scanned(ps, targets).hits[x] == hit_event(ps[m], targets[j]));
    }
}

} // verus!
