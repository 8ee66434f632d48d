//! Finding targets: the one a projectile remembers, and the nearest one.

use vstd::prelude::*;
use crate::creatures::components::Target;
use crate::geometry::{dist_sq, dist_sq_spec, Vector};

verus! {

/// Whether `list` holds `entity`.
pub fn contains_entity(list: &Vec<u64>, entity: u64) -> (r: bool)
    ensures
        r == list@.contains(entity),
{
    let mut i: usize = 0;
    while i < list.len()
        invariant
            i <= list.len(),
            forall|j: int| 0 <= j < i ==> list@[j] != entity,
        decreases list.len() - i,
    {
        if list[i] == entity {
            return true;
        }
        i += 1;
    }
    false
}

/// Whether a point at squared distance `d` lies closer than `reach`, where
/// there is a limit at all.
pub open spec fn within(d: int, reach: Option<u32>) -> bool {
    match reach {
        Some(r) => d < r * r,
        None => true,
    }
}

/// Whether `t` may be chosen from `from`: it is not excluded, and it lies
/// within reach.
pub open spec fn eligible(t: Target, from: Vector, excluded: Seq<u64>, reach: Option<u32>) -> bool {
    !excluded.contains(t.entity) && within(dist_sq_spec(from, t.position), reach)
}

/// The index of the nearest eligible target among the first `n`, the first
/// one where several are equally near; `None` where none is eligible.
pub open spec fn nearest(
    targets: Seq<Target>,
    n: int,
    from: Vector,
    excluded: Seq<u64>,
    reach: Option<u32>,
) -> Option<int>
    decreases n,
{
    if n <= 0 {
        None
    } else {
        let earlier = nearest(targets, n - 1, from, excluded, reach);
        let t = targets[n - 1];
        if eligible(t, from, excluded, reach) && (earlier is None || dist_sq_spec(from, t.position)
            < dist_sq_spec(from, targets[earlier->0].position)) {
            Some(n - 1)
        } else {
            earlier
        }
    }
}

/// What `nearest` finds is an eligible target, no eligible target is nearer,
/// and every eligible target before it is farther; it finds nothing only
/// where no target is eligible.
pub proof fn lemma_nearest(
    targets: Seq<Target>,
    n: int,
    from: Vector,
    excluded: Seq<u64>,
    reach: Option<u32>,
)
    requires
        0 <= n <= targets.len(),
    ensures
        match nearest(targets, n, from, excluded, reach) {
            Some(k) => {
                &&& 0 <= k < n
                &&& eligible(targets[k], from, excluded, reach)
                &&& forall|j: int|
                    0 <= j < n && eligible(#[trigger] targets[j], from, excluded, reach)
                        ==> dist_sq_spec(from, targets[k].position) <= dist_sq_spec(
                        from,
                        targets[j].position,
                    )
                &&& forall|j: int|
                    0 <= j < k && eligible(#[trigger] targets[j], from, excluded, reach)
                        ==> dist_sq_spec(from, targets[k].position) < dist_sq_spec(
                        from,
                        targets[j].position,
                    )
            },
            None => forall|j: int|
                0 <= j < n ==> !eligible(#[trigger] targets[j], from, excluded, reach),
        },
    decreases n,
{
    if n > 0 {
        lemma_nearest(targets, n - 1, from, excluded, reach);
    }
}

/// Searches all targets for the nearest eligible one.
pub fn find_nearest(
    targets: &Vec<Target>,
    from: Vector,
    excluded: &Vec<u64>,
    reach: Option<u32>,
) -> (r: Option<usize>)
    ensures
        match r {
            Some(k) => nearest(targets@, targets@.len() as int, from, excluded@, reach) == Some(
                k as int,
            ) && k < targets@.len(),
            None => nearest(targets@, targets@.len() as int, from, excluded@, reach) is None,
        },
{
    let mut best: Option<usize> = None;
    let mut best_dist: u128 = 0;
    let mut i: usize = 0;
    while i < targets.len()
        invariant
            i <= targets.len(),
            match best {
                Some(k) => nearest(targets@, i as int, from, excluded@, reach) == Some(k as int)
                    && k < i && best_dist == dist_sq_spec(from, targets@[k as int].position),
                None => nearest(targets@, i as int, from, excluded@, reach) is None,
            },
        decreases targets.len() - i,
    {
        let t = targets[i];
        let d: u128 = dist_sq(from, t.position);
        let reachable: bool = match reach {
            Some(r) => {
                proof {
                    crate::fixed::lemma_product_bound(
                        r as int,
                        r as int,
                        u32::MAX as int,
                        u32::MAX as int,
                    );
                }
                d < (r as u128) * (r as u128)
            },
            None => true,
        };
        if reachable && !contains_entity(excluded, t.entity) {
            if best.is_none() || d < best_dist {
                best = Some(i);
                best_dist = d;
            }
        }
        i += 1;
    }
    best
}

/// The index of the first target from `from` on that is the given entity.
pub open spec fn first_with_entity(targets: Seq<Target>, entity: u64, from: int) -> Option<int>
    decreases targets.len() - from,
{
    if from < 0 || from >= targets.len() {
        None
    } else if targets[from].entity == entity {
        Some(from)
    } else {
        first_with_entity(targets, entity, from + 1)
    }
}

/// Looks a remembered target up among the live ones.
pub fn find_entity(targets: &Vec<Target>, entity: u64) -> (r: Option<usize>)
    ensures
        match r {
            Some(k) => first_with_entity(targets@, entity, 0) == Some(k as int) && k
                < targets@.len() && targets@[k as int].entity == entity,
            None => first_with_entity(targets@, entity, 0) is None,
        },
{
    let mut i: usize = 0;
    while i < targets.len()
        invariant
            i <= targets.len(),
            first_with_entity(targets@, entity, 0) == first_with_entity(targets@, entity, i as int),
        decreases targets.len() - i,
    {
        if targets[i].entity == entity {
            return Some(i);
        }
        i += 1;
    }
    None
}

} // verus!
