//! The effects that hits have queued, resolved after the scan: area damage,
//! chain relays and fragments.

use vstd::prelude::*;
use crate::creatures::components::Target;
use crate::fixed::{int_sqrt, isqrt, lemma_product_bound, mul_div, mul_div_spec};
use crate::geometry::{direction_to, direction_to_spec, dist_sq, dist_sq_spec};
use crate::weapons::collision::{
    chain_request_views, push_some, ChainSpawnRequest, ChainSpawnRequestView, ExplosionRequest,
    SplitSpawnRequest,
};
use crate::weapons::components::{
    order_views, plain_bundle, ChainLightning, ChainLightningView, ProjectileBundle,
    ProjectileBundleView, SpawnOrder, SpawnOrderView, Splitter, WeaponId,
};
use crate::weapons::targeting::{find_nearest, nearest};

verus! {

/// Speed of a chain relay: fast, and short-lived.
pub const RELAY_SPEED: u32 = 800_000;

/// Lifetime of a chain relay, in milliseconds.
pub const RELAY_LIFETIME: u32 = 500;

/// Speed of a fragment.
pub const FRAGMENT_SPEED: u32 = 500_000;

/// Lifetime of a fragment, in milliseconds.
pub const FRAGMENT_LIFETIME: u32 = 1500;

/// The arc that the fragments of one split are fanned across: a sixth of a
/// turn, in millionths of a radian.
pub const FAN_ARC: i64 = 1_047_198;

/// Half the arc of a fan.
pub const FAN_HALF_ARC: i64 = 523_599;

/// The damage of an explosion at a point whose squared distance from the
/// centre is `d`, for `d` below the squared radius: the full damage at the
/// centre, falling off in a straight line to nothing at the radius.
pub open spec fn explosion_damage(e: ExplosionRequest, d: int) -> int {
    mul_div_spec(e.damage as int, e.radius - int_sqrt(d), e.radius as int)
}

/// Whether the explosion reaches the target: the target is not the one hit
/// directly, and it is closer to the centre than the radius.
pub open spec fn in_blast(e: ExplosionRequest, t: Target) -> bool {
    t.entity != e.primary && dist_sq_spec(e.center, t.position) < e.radius * e.radius
}

/// The target after the explosion.
pub open spec fn blast(e: ExplosionRequest, t: Target) -> Target {
    if in_blast(e, t) {
        Target {
            health: t.health.after_damage(
                explosion_damage(e, dist_sq_spec(e.center, t.position)) as u32,
            ),
            ..t
        }
    } else {
        t
    }
}

/// The target after the first `n` of the explosions, in their order.
pub open spec fn blasted(t: Target, explosions: Seq<ExplosionRequest>, n: int) -> Target
    decreases n,
{
    if n <= 0 {
        t
    } else {
        blast(explosions[n - 1], blasted(t, explosions, n - 1))
    }
}

/// Applies one explosion to one target.
fn apply_blast(e: ExplosionRequest, t: Target) -> (r: Target)
    ensures
        r == blast(e, t),
{
    if t.entity == e.primary {
        return t;
    }
    proof {
        lemma_product_bound(e.radius as int, e.radius as int, u32::MAX as int, u32::MAX as int);
    }
    let d: u128 = dist_sq(e.center, t.position);
    if d < (e.radius as u128) * (e.radius as u128) {
        let distance: u64 = isqrt(d);
        proof {
            if distance >= e.radius {
                crate::fixed::lemma_square_monotonic(e.radius as int, distance as int);
            }
        }
        let amount: u32 = mul_div(e.damage, e.radius - (distance as u32), e.radius);
        let mut health = t.health;
        health.damage(amount);
        Target { entity: t.entity, position: t.position, health, speed: t.speed }
    } else {
        t
    }
}

/// Applies the queued explosions, in their order, to every live target.
pub fn apply_explosions(explosions: &Vec<ExplosionRequest>, targets: &mut Vec<Target>)
    ensures
        final(targets)@.len() == old(targets)@.len(),
        forall|j: int|
            0 <= j < old(targets)@.len() ==> #[trigger] final(targets)@[j] == blasted(
                old(targets)@[j],
                explosions@,
                explosions@.len() as int,
            ),
{
    let ghost before = targets@;
    let mut i: usize = 0;
    while i < explosions.len()
        invariant
            i <= explosions.len(),
            targets@.len() == before.len(),
            forall|j: int|
                0 <= j < before.len() ==> #[trigger] targets@[j] == blasted(
                    before[j],
                    explosions@,
                    i as int,
                ),
        decreases explosions.len() - i,
    {
        let e = explosions[i];
        let ghost round = targets@;
        let mut j: usize = 0;
        while j < targets.len()
            invariant
                j <= targets.len(),
                targets@.len() == round.len(),
                forall|m: int| 0 <= m < j ==> #[trigger] targets@[m] == blast(e, round[m]),
                forall|m: int| j <= m < round.len() ==> #[trigger] targets@[m] == round[m],
            decreases targets.len() - j,
        {
            let t = apply_blast(e, targets[j]);
            targets[j] = t;
            j += 1;
        }
        i += 1;
    }
}

/// The target that a relay jumps to: the nearest live target within the jump
/// range that the chain has not hit.
pub open spec fn relay_target(request: ChainSpawnRequestView, targets: Seq<Target>) -> Option<int> {
    nearest(
        targets,
        targets.len() as int,
        request.position,
        request.already_hit,
        Some(request.range),
    )
}

/// The relay spawned for a request: none where no target is left to jump
/// to; else a projectile toward that target, carrying the chain on.
pub open spec fn relay(request: ChainSpawnRequestView, targets: Seq<Target>) -> Option<
    SpawnOrderView,
> {
    match relay_target(request, targets) {
        None => None,
        Some(k) => Some(
            SpawnOrderView {
                bundle: ProjectileBundleView {
                    chain_lightning: Some(
                        ChainLightningView {
                            jumps_remaining: request.jumps,
                            jump_range: request.range,
                            damage_falloff: request.falloff,
                            already_hit: request.already_hit,
                        },
                    ),
                    ..plain_bundle(
                        WeaponId::ChainReactor,
                        request.damage,
                        request.owner,
                        request.position,
                        direction_to_spec(request.position, targets[k].position),
                        RELAY_SPEED,
                        RELAY_LIFETIME,
                    )
                },
                turn: 0,
            },
        ),
    }
}

/// The relays of the first `n` requests, in their order.
pub open spec fn relays(requests: Seq<ChainSpawnRequestView>, targets: Seq<Target>, n: int) -> Seq<
    SpawnOrderView,
>
    decreases n,
{
    if n <= 0 {
        Seq::empty()
    } else {
        push_some(relays(requests, targets, n - 1), relay(requests[n - 1], targets))
    }
}

/// Appends the relay of each queued request that finds a target.
pub fn spawn_chain_relays(
    requests: &Vec<ChainSpawnRequest>,
    targets: &Vec<Target>,
    orders: &mut Vec<SpawnOrder>,
)
    ensures
        order_views(final(orders)@) == order_views(old(orders)@) + relays(
            chain_request_views(requests@),
            targets@,
            requests@.len() as int,
        ),
{
    let ghost start = order_views(orders@);
    let mut i: usize = 0;
    assert(order_views(orders@) =~= start + Seq::empty());
    while i < requests.len()
        invariant
            i <= requests.len(),
            order_views(orders@) == start + relays(chain_request_views(requests@), targets@, i as int),
        decreases requests.len() - i,
    {
        let request = &requests[i];
        let ghost earlier = order_views(orders@);
        let ghost so_far = relays(chain_request_views(requests@), targets@, i as int);
        match find_nearest(targets, request.position, &request.already_hit, Some(request.range)) {
            Some(k) => {
                let direction = direction_to(request.position, targets[k].position);
                let mut bundle = ProjectileBundle::new(
                    WeaponId::ChainReactor,
                    request.damage,
                    request.owner,
                    request.position,
                    direction,
                    RELAY_SPEED,
                    RELAY_LIFETIME,
                );
                bundle.chain_lightning = Some(
                    ChainLightning {
                        jumps_remaining: request.jumps,
                        jump_range: request.range,
                        damage_falloff: request.falloff,
                        already_hit: request.already_hit.clone(),
                    },
                );
                let order = SpawnOrder { bundle, turn: 0 };
                assert(Some(order@) == relay(request@, targets@));
                orders.push(order);
                assert(order_views(orders@) =~= earlier.push(order@));
                assert(earlier.push(order@) =~= start + so_far.push(order@));
            },
            None => {},
        }
        i += 1;
    }
}

/// The angle between neighbouring fragments of a split into `count`.
pub open spec fn fan_step(count: u32) -> int {
    if count > 1 {
        FAN_ARC as int / (count - 1)
    } else {
        FAN_ARC as int
    }
}

/// The turn of fragment `i` of a split into `count`, off the direction of the
/// hit: the fragments start half the arc to one side and are a step apart.
pub open spec fn fan_turn(count: u32, i: int) -> int {
    -FAN_HALF_ARC + fan_step(count) * i
}

/// Fragment `i` of a split: turned within the fan, with the request's damage,
/// and able to split again where the request has splits left.
pub open spec fn fragment(request: SplitSpawnRequest, i: int) -> SpawnOrderView {
    SpawnOrderView {
        bundle: ProjectileBundleView {
            splitter: if request.splits > 0 {
                Some(
                    Splitter {
                        splits_remaining: request.splits,
                        split_count: request.count,
                        damage_multiplier: request.multiplier,
                    },
                )
            } else {
                None
            },
            ..plain_bundle(
                WeaponId::SplitterGun,
                request.damage,
                request.owner,
                request.position,
                request.direction,
                FRAGMENT_SPEED,
                FRAGMENT_LIFETIME,
            )
        },
        turn: fan_turn(request.count, i) as i64,
    }
}

/// The fragments of one split, as many as the request counts.
pub open spec fn fragments_of(request: SplitSpawnRequest) -> Seq<SpawnOrderView> {
    Seq::new(request.count as nat, |i: int| fragment(request, i))
}

/// The fragments of the first `n` requests, in their order.
pub open spec fn fragments(requests: Seq<SplitSpawnRequest>, n: int) -> Seq<SpawnOrderView>
    decreases n,
{
    if n <= 0 {
        Seq::empty()
    } else {
        fragments(requests, n - 1) + fragments_of(requests[n - 1])
    }
}

/// Appends the fragments of each queued split.
pub fn spawn_split_fragments(requests: &Vec<SplitSpawnRequest>, orders: &mut Vec<SpawnOrder>)
    ensures
        order_views(final(orders)@) == order_views(old(orders)@) + fragments(
            requests@,
            requests@.len() as int,
        ),
{
    let ghost start = order_views(orders@);
    let mut i: usize = 0;
    assert(order_views(orders@) =~= start + Seq::empty());
    while i < requests.len()
        invariant
            i <= requests.len(),
            order_views(orders@) == start + fragments(requests@, i as int),
        decreases requests.len() - i,
    {
        let request = requests[i];
        let ghost so_far = fragments(requests@, i as int);
        assert(FAN_ARC == 1_047_198 && FAN_HALF_ARC == 523_599);
        let step: i64 = if request.count > 1 {
            FAN_ARC / ((request.count - 1) as i64)
        } else {
            FAN_ARC
        };
        assert(0 <= step <= FAN_ARC && step == fan_step(request.count)) by {
            if request.count > 1 {
                vstd::arithmetic::div_mod::lemma_div_is_ordered_by_denominator(
                    FAN_ARC as int,
                    1,
                    (request.count - 1) as int,
                );
                vstd::arithmetic::div_mod::lemma_div_pos_is_pos(
                    FAN_ARC as int,
                    (request.count - 1) as int,
                );
            }
        }
        let mut n: u32 = 0;
        assert(order_views(orders@) =~= start + so_far + fragments_of(request).subrange(0, 0));
        while n < request.count
            invariant
                n <= request.count,
                0 <= step <= FAN_ARC,
                FAN_ARC == 1_047_198,
                FAN_HALF_ARC == 523_599,
                step == fan_step(request.count),
                order_views(orders@) == start + so_far + fragments_of(request).subrange(0, n as int),
            decreases request.count - n,
        {
            proof {
                lemma_product_bound(step as int, n as int, FAN_ARC as int, u32::MAX as int);
            }
            let turn: i64 = -FAN_HALF_ARC + step * (n as i64);
            let mut bundle = ProjectileBundle::new(
                WeaponId::SplitterGun,
                request.damage,
                request.owner,
                request.position,
                request.direction,
                FRAGMENT_SPEED,
                FRAGMENT_LIFETIME,
            );
            if request.splits > 0 {
                bundle.splitter = Some(Splitter::new(request.splits, request.count, request.multiplier));
            }
            let order = SpawnOrder { bundle, turn };
            let ghost earlier = order_views(orders@);
            assert(order@ == fragment(request, n as int));
            orders.push(order);
            assert(order_views(orders@) =~= earlier.push(order@));
            assert(fragments_of(request).subrange(0, n as int).push(order@) =~= fragments_of(
                request,
            ).subrange(0, n + 1));
            assert(earlier.push(order@) =~= start + so_far + fragments_of(request).subrange(
                0,
                n + 1,
            ));
            n += 1;
        }
        assert(fragments_of(request).subrange(0, request.count as int) =~= fragments_of(request));
        assert(start + so_far + fragments_of(request) =~= start + (so_far + fragments_of(request)));
        i += 1;
    }
}

} // verus!
