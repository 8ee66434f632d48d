//! The collision scan: which projectile hits which target, the direct damage
//! of each hit, and the effects a hit queues for later.

use vstd::prelude::*;
use crate::creatures::components::Target;
use crate::fixed::{scale, scale_spec};
use crate::geometry::{direction_to, direction_to_spec, dist_sq, dist_sq_spec, Vector};
use crate::weapons::components::{
    projectile_views, ChainLightningView, LiveProjectile, LiveProjectileView, Projectile,
    ProjectileBundleView,
};
use crate::weapons::targeting::contains_entity;

verus! {

/// A projectile hits a target that is closer to it than this.
pub const COLLISION_RADIUS: u32 = 20_000;

/// A projectile hit a target.
#[derive(Debug, Clone, Copy, PartialEq, Eq, Structural)]
pub struct ProjectileHitEvent {
    pub projectile: u64,
    pub target: u64,
    pub damage: u32,
    pub position: Vector,
}

/// Area damage waiting to be applied: every live target but `primary` that is
/// closer to `center` than `radius` takes a share of `damage`.
#[derive(Debug, Clone, Copy, PartialEq, Eq, Structural)]
pub struct ExplosionRequest {
    pub center: Vector,
    pub radius: u32,
    pub damage: u32,
    pub primary: u64,
}

/// A chain relay waiting to be spawned at `position`.
#[derive(Debug)]
pub struct ChainSpawnRequest {
    pub position: Vector,
    pub damage: u32,
    pub jumps: u32,
    pub range: u32,
    pub falloff: u32,
    pub already_hit: Vec<u64>,
    pub owner: u64,
}

/// The mathematical content of a [`ChainSpawnRequest`].
pub struct ChainSpawnRequestView {
    pub position: Vector,
    pub damage: u32,
    pub jumps: u32,
    pub range: u32,
    pub falloff: u32,
    pub already_hit: Seq<u64>,
    pub owner: u64,
}

impl View for ChainSpawnRequest {
    type V = ChainSpawnRequestView;

    open spec fn view(&self) -> ChainSpawnRequestView {
        ChainSpawnRequestView {
            position: self.position,
            damage: self.damage,
            jumps: self.jumps,
            range: self.range,
            falloff: self.falloff,
            already_hit: self.already_hit@,
            owner: self.owner,
        }
    }
}

/// Fragments waiting to be spawned at `position`, fanned around `direction`.
#[derive(Debug, Clone, Copy, PartialEq, Eq, Structural)]
pub struct SplitSpawnRequest {
    pub position: Vector,
    pub direction: Vector,
    pub damage: u32,
    pub splits: u32,
    pub count: u32,
    pub multiplier: u32,
    pub owner: u64,
}

/// The effects that the hits of a scan have queued, each list in the order of
/// the hits.
#[derive(Debug)]
pub struct EffectQueues {
    pub explosions: Vec<ExplosionRequest>,
    pub chain_spawns: Vec<ChainSpawnRequest>,
    pub split_spawns: Vec<SplitSpawnRequest>,
}

/// The views of a list of chain requests.
pub open spec fn chain_request_views(requests: Seq<ChainSpawnRequest>) -> Seq<ChainSpawnRequestView> {
    Seq::new(requests.len(), |i: int| requests[i]@)
}

/// The mathematical content of [`EffectQueues`].
pub struct EffectQueuesView {
    pub explosions: Seq<ExplosionRequest>,
    pub chain_spawns: Seq<ChainSpawnRequestView>,
    pub split_spawns: Seq<SplitSpawnRequest>,
}

impl View for EffectQueues {
    type V = EffectQueuesView;

    open spec fn view(&self) -> EffectQueuesView {
        EffectQueuesView {
            explosions: self.explosions@,
            chain_spawns: chain_request_views(self.chain_spawns@),
            split_spawns: self.split_spawns@,
        }
    }
}

/// Everything a scan changes or produces: the targets, the hit events, and
/// the queued effects.
pub struct ScanView {
    pub targets: Seq<Target>,
    pub hits: Seq<ProjectileHitEvent>,
    pub queues: EffectQueuesView,
}

/// The state before the first hit of a scan over `targets`.
pub open spec fn scan_start(targets: Seq<Target>) -> ScanView {
    ScanView {
        targets,
        hits: Seq::empty(),
        queues: EffectQueuesView {
            explosions: Seq::empty(),
            chain_spawns: Seq::empty(),
            split_spawns: Seq::empty(),
        },
    }
}

/// `s` with `x` appended where there is one.
pub open spec fn push_some<T>(s: Seq<T>, x: Option<T>) -> Seq<T> {
    match x {
        Some(v) => s.push(v),
        None => s,
    }
}

/// Whether the projectile hits the target: the target was not hit along the
/// projectile's chain before, and it is closer than the collision radius.
pub open spec fn collides(p: LiveProjectileView, t: Target) -> bool {
    &&& match p.bundle.chain_lightning {
        Some(c) => !c.already_hit.contains(t.entity),
        None => true,
    }
    &&& dist_sq_spec(p.bundle.position, t.position) < COLLISION_RADIUS * COLLISION_RADIUS
}

/// The target after the direct hit: it loses the projectile's damage, and a
/// freezing projectile slows it.
pub open spec fn struck(p: LiveProjectileView, t: Target) -> Target {
    Target {
        health: t.health.after_damage(p.bundle.projectile.damage),
        speed: match p.bundle.freezing {
            Some(f) => t.speed.slowed(f.slow_amount),
            None => t.speed,
        },
        ..t
    }
}

/// The record of the hit.
pub open spec fn hit_event(p: LiveProjectileView, t: Target) -> ProjectileHitEvent {
    ProjectileHitEvent {
        projectile: p.entity,
        target: t.entity,
        damage: p.bundle.projectile.damage,
        position: p.bundle.position,
    }
}

/// The area damage that the hit of an explosive projectile queues: centred on
/// the projectile, with the target hit as the one left out.
pub open spec fn queued_explosion(p: LiveProjectileView, t: Target) -> Option<ExplosionRequest> {
    match p.bundle.explosive {
        Some(e) => Some(
            ExplosionRequest {
                center: p.bundle.position,
                radius: e.radius,
                damage: e.damage,
                primary: t.entity,
            },
        ),
        None => None,
    }
}

/// The relay that the hit of a chain projectile with jumps left queues: from
/// the target hit, with the damage reduced, one jump less, and the target
/// added to those already hit.
pub open spec fn queued_chain(p: LiveProjectileView, t: Target) -> Option<ChainSpawnRequestView> {
    match p.bundle.chain_lightning {
        Some(c) => if c.jumps_remaining > 0 {
            Some(
                ChainSpawnRequestView {
                    position: t.position,
                    damage: scale_spec(
                        p.bundle.projectile.damage as int,
                        c.damage_falloff as int,
                    ) as u32,
                    jumps: (c.jumps_remaining - 1) as u32,
                    range: c.jump_range,
                    falloff: c.damage_falloff,
                    already_hit: c.already_hit.push(t.entity),
                    owner: p.bundle.projectile.owner,
                },
            )
        } else {
            None
        },
        None => None,
    }
}

/// The fragments that the hit of a splitter with splits left queues: at the
/// target hit, fanned around the direction from projectile to target, with
/// the damage reduced and one split less.
pub open spec fn queued_split(p: LiveProjectileView, t: Target) -> Option<SplitSpawnRequest> {
    match p.bundle.splitter {
        Some(s) => if s.splits_remaining > 0 {
            Some(
                SplitSpawnRequest {
                    position: t.position,
                    direction: direction_to_spec(p.bundle.position, t.position),
                    damage: scale_spec(
                        p.bundle.projectile.damage as int,
                        s.damage_multiplier as int,
                    ) as u32,
                    splits: (s.splits_remaining - 1) as u32,
                    count: s.split_count,
                    multiplier: s.damage_multiplier,
                    owner: p.bundle.projectile.owner,
                },
            )
        } else {
            None
        },
        None => None,
    }
}

/// The projectile after the hit. A chain with jumps left remembers the
/// target. A projectile with pierce left spends one and flies on; one without
/// is marked for removal.
pub open spec fn after_hit(p: LiveProjectileView, t: Target) -> LiveProjectileView {
    let chain = match p.bundle.chain_lightning {
        Some(c) => if c.jumps_remaining > 0 {
            Some(ChainLightningView { already_hit: c.already_hit.push(t.entity), ..c })
        } else {
            Some(c)
        },
        None => None,
    };
    if p.bundle.projectile.pierce_count > 0 {
        LiveProjectileView {
            bundle: ProjectileBundleView {
                projectile: Projectile {
                    pierce_count: (p.bundle.projectile.pierce_count - 1) as u32,
                    ..p.bundle.projectile
                },
                chain_lightning: chain,
                ..p.bundle
            },
            ..p
        }
    } else {
        LiveProjectileView {
            bundle: ProjectileBundleView { chain_lightning: chain, ..p.bundle },
            despawn: true,
            ..p
        }
    }
}

/// The state after the projectile hit the target at index `k`.
pub open spec fn record_hit(st: ScanView, p: LiveProjectileView, k: int) -> ScanView {
    let t = st.targets[k];
    ScanView {
        targets: st.targets.update(k, struck(p, t)),
        hits: st.hits.push(hit_event(p, t)),
        queues: EffectQueuesView {
            explosions: push_some(st.queues.explosions, queued_explosion(p, t)),
            chain_spawns: push_some(st.queues.chain_spawns, queued_chain(p, t)),
            split_spawns: push_some(st.queues.split_spawns, queued_split(p, t)),
        },
    }
}

/// The scan of one projectile over the targets from index `k` on, in order:
/// each target it collides with is hit, until a hit leaves the projectile
/// marked for removal.
pub open spec fn scan_from(p: LiveProjectileView, st: ScanView, k: int) -> (LiveProjectileView, ScanView)
    decreases st.targets.len() - k,
{
    if k < 0 || k >= st.targets.len() {
        (p, st)
    } else if collides(p, st.targets[k]) {
        let hit = after_hit(p, st.targets[k]);
        if hit.despawn {
            (hit, record_hit(st, p, k))
        } else {
            scan_from(hit, record_hit(st, p, k), k + 1)
        }
    } else {
        scan_from(p, st, k + 1)
    }
}

/// The scan of one projectile: a marked one is passed over.
pub open spec fn scan_one(p: LiveProjectileView, st: ScanView) -> (LiveProjectileView, ScanView) {
    if p.despawn {
        (p, st)
    } else {
        scan_from(p, st, 0)
    }
}

/// The scan of the projectiles from index `i` on, one after the other, each
/// over the targets as the earlier ones left them.
pub open spec fn scan_all(ps: Seq<LiveProjectileView>, st: ScanView, i: int) -> (
    Seq<LiveProjectileView>,
    ScanView,
)
    decreases ps.len() - i,
{
    if i < 0 || i >= ps.len() {
        (ps, st)
    } else {
        let (p, next) = scan_one(ps[i], st);
        scan_all(ps.update(i, p), next, i + 1)
    }
}

/// What a scan produced besides the changes to projectiles and targets.
#[derive(Debug)]
pub struct ScanOutcome {
    pub hits: Vec<ProjectileHitEvent>,
    pub queues: EffectQueues,
}

/// Whether the projectile hits the target.
fn check_collision(p: &LiveProjectile, t: &Target) -> (r: bool)
    ensures
        r == collides(p@, *t),
{
    let seen: bool = match &p.bundle.chain_lightning {
        Some(c) => contains_entity(&c.already_hit, t.entity),
        None => false,
    };
    if seen {
        false
    } else {
        let reach: u128 = COLLISION_RADIUS as u128;
        assert(reach == 20_000);
        dist_sq(p.bundle.position, t.position) < reach * reach
    }
}

/// Applies the direct hit to the target.
fn strike(p: &LiveProjectile, t: Target) -> (r: Target)
    ensures
        r == struck(p@, t),
{
    let mut health = t.health;
    health.damage(p.bundle.projectile.damage);
    let mut speed = t.speed;
    match p.bundle.freezing {
        Some(f) => {
            speed.slow(f.slow_amount);
        },
        None => {},
    }
    Target { entity: t.entity, position: t.position, health, speed }
}

/// Queues the effects of the hit.
fn queue_effects(p: &LiveProjectile, t: Target, queues: &mut EffectQueues)
    ensures
        final(queues)@ == (EffectQueuesView {
            explosions: push_some(old(queues)@.explosions, queued_explosion(p@, t)),
            chain_spawns: push_some(old(queues)@.chain_spawns, queued_chain(p@, t)),
            split_spawns: push_some(old(queues)@.split_spawns, queued_split(p@, t)),
        }),
{
    match p.bundle.explosive {
        Some(e) => {
            queues.explosions.push(
                ExplosionRequest {
                    center: p.bundle.position,
                    radius: e.radius,
                    damage: e.damage,
                    primary: t.entity,
                },
            );
        },
        None => {},
    }
    match &p.bundle.chain_lightning {
        Some(c) => {
            if c.jumps_remaining > 0 {
                let mut already_hit = c.already_hit.clone();
                already_hit.push(t.entity);
                let ghost earlier = chain_request_views(queues.chain_spawns@);
                let request = ChainSpawnRequest {
                    position: t.position,
                    damage: scale(p.bundle.projectile.damage, c.damage_falloff),
                    jumps: c.jumps_remaining - 1,
                    range: c.jump_range,
                    falloff: c.damage_falloff,
                    already_hit,
                    owner: p.bundle.projectile.owner,
                };
                queues.chain_spawns.push(request);
                assert(chain_request_views(queues.chain_spawns@) =~= earlier.push(request@));
            }
        },
        None => {},
    }
    match p.bundle.splitter {
        Some(s) => {
            if s.splits_remaining > 0 {
                queues.split_spawns.push(
                    SplitSpawnRequest {
                        position: t.position,
                        direction: direction_to(p.bundle.position, t.position),
                        damage: scale(p.bundle.projectile.damage, s.damage_multiplier),
                        splits: s.splits_remaining - 1,
                        count: s.split_count,
                        multiplier: s.damage_multiplier,
                        owner: p.bundle.projectile.owner,
                    },
                );
            }
        },
        None => {},
    }
}

/// Books the hit on the projectile: the chain's memory, and pierce or removal.
fn spend(p: &mut LiveProjectile, t: Target)
    ensures
        final(p)@ == after_hit(old(p)@, t),
{
    match &mut p.bundle.chain_lightning {
        Some(c) => {
            if c.jumps_remaining > 0 {
                c.already_hit.push(t.entity);
            }
        },
        None => {},
    }
    if p.bundle.projectile.pierce_count > 0 {
        p.bundle.projectile.pierce_count = p.bundle.projectile.pierce_count - 1;
    } else {
        p.despawn = true;
    }
}

/// Scans one projectile over all targets.
fn scan_projectile(
    p: &mut LiveProjectile,
    targets: &mut Vec<Target>,
    hits: &mut Vec<ProjectileHitEvent>,
    queues: &mut EffectQueues,
)
    ensures
        (final(p)@, ScanView { targets: final(targets)@, hits: final(hits)@, queues: final(queues)@ })
            == scan_one(
            old(p)@,
            ScanView { targets: old(targets)@, hits: old(hits)@, queues: old(queues)@ },
        ),
{
    if p.despawn {
        return ;
    }
    let ghost goal = scan_one(
        p@,
        ScanView { targets: targets@, hits: hits@, queues: queues@ },
    );
    let mut k: usize = 0;
    while k < targets.len()
        invariant
            k <= targets.len(),
            goal == scan_one(
                old(p)@,
                ScanView { targets: old(targets)@, hits: old(hits)@, queues: old(queues)@ },
            ),
            goal == scan_from(
                p@,
                ScanView { targets: targets@, hits: hits@, queues: queues@ },
                k as int,
            ),
        decreases targets.len() - k,
    {
        let t = targets[k];
        if check_collision(p, &t) {
            let ghost st = ScanView { targets: targets@, hits: hits@, queues: queues@ };
            let ghost before = p@;
            hits.push(
                ProjectileHitEvent {
                    projectile: p.entity,
                    target: t.entity,
                    damage: p.bundle.projectile.damage,
                    position: p.bundle.position,
                },
            );
            queue_effects(p, t, queues);
            let hurt = strike(p, t);
            targets[k] = hurt;
            spend(p, t);
            assert(ScanView { targets: targets@, hits: hits@, queues: queues@ } == record_hit(
                st,
                before,
                k as int,
            ));
            if p.despawn {
                return ;
            }
        }
        k += 1;
    }
}

/// Scans every projectile that is not marked over the live targets. Each hit
/// damages its target at once; what else it sets off is queued, to be
/// resolved when the scan is over.
pub fn scan_collisions(projectiles: &mut Vec<LiveProjectile>, targets: &mut Vec<Target>) -> (out:
    ScanOutcome)
    ensures
        (
            projectile_views(final(projectiles)@),
            ScanView { targets: final(targets)@, hits: out.hits@, queues: out.queues@ },
        ) == scan_all(projectile_views(old(projectiles)@), scan_start(old(targets)@), 0),
{
    let mut hits: Vec<ProjectileHitEvent> = Vec::new();
    let mut queues = EffectQueues {
        explosions: Vec::new(),
        chain_spawns: Vec::new(),
        split_spawns: Vec::new(),
    };
    assert(queues@ == scan_start(targets@).queues) by {
        assert(chain_request_views(queues.chain_spawns@) =~= Seq::empty());
    }
    let ghost goal = scan_all(projectile_views(projectiles@), scan_start(targets@), 0);
    let mut i: usize = 0;
    while i < projectiles.len()
        invariant
            i <= projectiles.len(),
            goal == scan_all(
                projectile_views(projectiles@),
                ScanView { targets: targets@, hits: hits@, queues: queues@ },
                i as int,
            ),
        decreases projectiles.len() - i,
    {
        let ghost earlier = projectile_views(projectiles@);
        scan_projectile(&mut projectiles[i], targets, &mut hits, &mut queues);
        assert(projectile_views(projectiles@) =~= earlier.update(i as int, projectiles@[i as int]@));
        i += 1;
    }
    ScanOutcome { hits, queues }
}

} // verus!
