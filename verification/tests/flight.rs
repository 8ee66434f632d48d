use crimsonland::creatures::components::{CreatureHealth, CreatureSpeed, Target};
use crimsonland::geometry::Vector;
use crimsonland::weapons::components::{Homing, LiveProjectile, ProjectileBundle, WeaponId};
use crimsonland::weapons::systems::{
    cleanup_projectiles, despawn_all_projectiles, homing_projectile_update, projectile_lifetime,
    projectile_movement,
};
use crimsonland::weapons::targeting::{contains_entity, find_entity, find_nearest};

fn v(x: i32, y: i32) -> Vector {
    Vector { x, y }
}

fn shot(entity: u64, position: Vector, direction: Vector, speed: u32, lifetime: u32) -> LiveProjectile {
    LiveProjectile {
        entity,
        bundle: ProjectileBundle::new(WeaponId::Pistol, 15_000, 1, position, direction, speed, lifetime),
        despawn: false,
    }
}

fn missile(position: Vector, direction: Vector, target: Option<u64>) -> LiveProjectile {
    let mut p = shot(9, position, direction, 350_000, 5000);
    p.bundle.homing = Some(Homing { turn_rate: 3000, target });
    p
}

fn creature(entity: u64, x: i32, y: i32) -> Target {
    Target { entity, position: v(x, y), health: CreatureHealth::new(100_000), speed: CreatureSpeed(40_000) }
}

#[test]
fn movement_advances_every_projectile() {
    let mut ps = vec![
        shot(1, v(0, 0), v(1, 0), 800_000, 2000),
        shot(2, v(100, 100), v(-3, -4), 500_000, 2000),
        shot(3, v(7, 7), v(0, 0), 500_000, 2000),
    ];
    ps[2].despawn = true;
    projectile_movement(&mut ps, 16);
    assert_eq!(ps[0].bundle.position, v(12_800, 0));
    assert_eq!(ps[1].bundle.position, v(100 - 4800, 100 - 6400));
    assert_eq!(ps[2].bundle.position, v(7, 7));
    assert_eq!(ps.len(), 3);
    assert_eq!(ps[0].bundle.lifetime.remaining, 2000);
    assert_eq!(ps[0].bundle.velocity.speed, 800_000);
}

#[test]
fn movement_of_nothing() {
    let mut ps: Vec<LiveProjectile> = Vec::new();
    projectile_movement(&mut ps, 16);
    assert!(ps.is_empty());
}

#[test]
fn lifetime_marks_but_does_not_remove() {
    let mut ps = vec![
        shot(1, v(0, 0), v(1, 0), 800_000, 17),
        shot(2, v(0, 0), v(1, 0), 800_000, 16),
        shot(3, v(0, 0), v(1, 0), 800_000, 5),
        shot(4, v(0, 0), v(1, 0), 800_000, 0),
    ];
    projectile_lifetime(&mut ps, 16);
    assert_eq!(ps.len(), 4);
    assert_eq!(ps[0].bundle.lifetime.remaining, 1);
    assert!(!ps[0].despawn);
    assert_eq!(ps[1].bundle.lifetime.remaining, 0);
    assert!(ps[1].despawn);
    assert_eq!(ps[2].bundle.lifetime.remaining, 0);
    assert!(ps[2].despawn);
    assert!(ps[3].despawn);
}

#[test]
fn lifetime_leaves_marked_projectiles_alone() {
    let mut ps = vec![shot(1, v(0, 0), v(1, 0), 800_000, 500)];
    ps[0].despawn = true;
    projectile_lifetime(&mut ps, 16);
    assert_eq!(ps[0].bundle.lifetime.remaining, 500);
    assert!(ps[0].despawn);
}

#[test]
fn cleanup_removes_the_marked_and_keeps_the_order() {
    let mut ps = vec![
        shot(1, v(1, 0), v(1, 0), 1, 1),
        shot(2, v(2, 0), v(1, 0), 1, 1),
        shot(3, v(3, 0), v(1, 0), 1, 1),
        shot(4, v(4, 0), v(1, 0), 1, 1),
        shot(5, v(5, 0), v(1, 0), 1, 1),
    ];
    ps[0].despawn = true;
    ps[3].despawn = true;
    let removed = cleanup_projectiles(&mut ps);
    assert_eq!(removed, vec![1, 4]);
    assert_eq!(ps.iter().map(|p| p.entity).collect::<Vec<_>>(), vec![2, 3, 5]);
    assert_eq!(ps[2].bundle.position, v(5, 0));
    let removed = cleanup_projectiles(&mut ps);
    assert!(removed.is_empty());
    assert_eq!(ps.len(), 3);
}

#[test]
fn cleanup_keeps_the_chain_memory() {
    let mut p = shot(1, v(0, 0), v(1, 0), 1, 1);
    let mut chain = crimsonland::weapons::components::ChainLightning::new(3, 150_000, 800);
    chain.already_hit.push(42);
    chain.already_hit.push(43);
    p.bundle.chain_lightning = Some(chain);
    let mut ps = vec![p];
    cleanup_projectiles(&mut ps);
    let tag = ps[0].bundle.chain_lightning.as_ref().unwrap();
    assert_eq!(tag.already_hit, vec![42, 43]);
    assert_eq!(tag.jumps_remaining, 3);
}

#[test]
fn despawn_all_empties_the_list() {
    let mut ps = vec![shot(3, v(0, 0), v(1, 0), 1, 1), shot(1, v(0, 0), v(1, 0), 1, 1)];
    let removed = despawn_all_projectiles(&mut ps);
    assert_eq!(removed, vec![3, 1]);
    assert!(ps.is_empty());
}

#[test]
fn nearest_target_wins() {
    let targets = vec![creature(1, 50_000, 0), creature(2, 0, 30_000), creature(3, -40_000, 0)];
    assert_eq!(find_nearest(&targets, v(0, 0), &Vec::new(), None), Some(1));
    assert_eq!(find_nearest(&targets, v(45_000, 0), &Vec::new(), None), Some(0));
}

#[test]
fn first_of_equally_near_targets_wins() {
    let targets = vec![creature(1, 50_000, 0), creature(2, 0, 30_000), creature(3, -30_000, 0), creature(4, 0, -30_000)];
    assert_eq!(find_nearest(&targets, v(0, 0), &Vec::new(), None), Some(1));
    let targets = vec![creature(3, -30_000, 0), creature(2, 0, 30_000)];
    assert_eq!(find_nearest(&targets, v(0, 0), &Vec::new(), None), Some(0));
}

#[test]
fn nearest_skips_excluded_and_out_of_reach() {
    let targets = vec![creature(1, 50_000, 0), creature(2, 0, 30_000), creature(3, -40_000, 0)];
    assert_eq!(find_nearest(&targets, v(0, 0), &vec![2], None), Some(2));
    assert_eq!(find_nearest(&targets, v(0, 0), &vec![2, 3], None), Some(0));
    assert_eq!(find_nearest(&targets, v(0, 0), &vec![1, 2, 3], None), None);
    assert_eq!(find_nearest(&targets, v(0, 0), &vec![2], Some(40_000)), None);
    assert_eq!(find_nearest(&targets, v(0, 0), &vec![2], Some(40_001)), Some(2));
    assert_eq!(find_nearest(&targets, v(0, 0), &Vec::new(), Some(0)), None);
    assert_eq!(find_nearest(&Vec::new(), v(0, 0), &Vec::new(), None), None);
}

#[test]
fn find_entity_returns_the_first_match() {
    let targets = vec![creature(1, 0, 0), creature(2, 0, 0), creature(2, 5, 5)];
    assert_eq!(find_entity(&targets, 2), Some(1));
    assert_eq!(find_entity(&targets, 1), Some(0));
    assert_eq!(find_entity(&targets, 3), None);
    assert!(contains_entity(&vec![4, 5, 6], 6));
    assert!(!contains_entity(&vec![4, 5, 6], 7));
}

#[test]
fn homing_picks_the_nearest_target_and_turns_toward_it() {
    let targets = vec![creature(1, 500_000, 0), creature(2, 0, 100_000)];
    let mut ps = vec![missile(v(0, 0), v(1000, 0), None)];
    homing_projectile_update(&mut ps, &targets, 100);
    assert_eq!(ps[0].bundle.homing, Some(Homing { turn_rate: 3000, target: Some(2) }));
    assert_eq!(ps[0].bundle.velocity.direction, v(919, 393));
    assert_eq!(ps[0].bundle.velocity.speed, 350_000);
    assert_eq!(ps[0].bundle.position, v(0, 0));
}

#[test]
fn homing_keeps_a_live_target_even_if_another_is_nearer() {
    let targets = vec![creature(1, 500_000, 0), creature(2, 0, 100_000)];
    let mut ps = vec![missile(v(0, 0), v(0, 1000), Some(1))];
    homing_projectile_update(&mut ps, &targets, 1000);
    assert_eq!(ps[0].bundle.homing, Some(Homing { turn_rate: 3000, target: Some(1) }));
    assert_eq!(ps[0].bundle.velocity.direction, v(1000, 0));
}

#[test]
fn homing_forgets_a_target_that_is_gone() {
    let targets = vec![creature(1, 500_000, 0), creature(2, 0, 100_000)];
    let mut ps = vec![missile(v(0, 0), v(1000, 0), Some(77))];
    homing_projectile_update(&mut ps, &targets, 1000);
    assert_eq!(ps[0].bundle.homing, Some(Homing { turn_rate: 3000, target: Some(2) }));
    assert_eq!(ps[0].bundle.velocity.direction, v(0, 1000));
}

#[test]
fn homing_without_targets_flies_on() {
    let mut ps = vec![missile(v(0, 0), v(600, 800), Some(77))];
    homing_projectile_update(&mut ps, &Vec::new(), 100);
    assert_eq!(ps[0].bundle.homing, Some(Homing { turn_rate: 3000, target: None }));
    assert_eq!(ps[0].bundle.velocity.direction, v(600, 800));
    assert_eq!(ps[0].bundle.velocity.speed, 350_000);
}

#[test]
fn homing_never_changes_the_speed() {
    let targets = vec![creature(1, -123_456, 654_321), creature(2, 99_000, -100_000)];
    let mut ps = vec![missile(v(10, 20), v(1000, 0), None)];
    for tick in 0..200u32 {
        homing_projectile_update(&mut ps, &targets, tick % 40);
        assert_eq!(ps[0].bundle.velocity.speed, 350_000);
        projectile_movement(&mut ps, 16);
    }
    assert_eq!(ps[0].bundle.homing.unwrap().target, Some(2));
}

#[test]
fn steering_turns_at_most_all_the_way() {
    let targets = vec![creature(1, 0, 100_000)];
    let mut ps = vec![missile(v(0, 0), v(1000, 0), None)];
    homing_projectile_update(&mut ps, &targets, 5000);
    assert_eq!(ps[0].bundle.velocity.direction, v(0, 1000));
}

#[test]
fn steering_leaves_plain_projectiles_alone() {
    let targets = vec![creature(1, 0, 100_000)];
    let mut ps = vec![shot(1, v(0, 0), v(1, 0), 800_000, 2000)];
    homing_projectile_update(&mut ps, &targets, 100);
    assert_eq!(ps[0].bundle.velocity.direction, v(1000, 0));
    assert!(ps[0].bundle.homing.is_none());
}

#[test]
fn steering_at_a_target_on_top_of_the_projectile() {
    let targets = vec![creature(1, 0, 0)];
    let mut ps = vec![missile(v(0, 0), v(1000, 0), None)];
    homing_projectile_update(&mut ps, &targets, 100);
    assert_eq!(ps[0].bundle.velocity.direction, v(1000, 0));
    assert_eq!(ps[0].bundle.velocity.speed, 350_000);
}

#[test]
fn steering_keeps_the_heading_where_the_turn_cancels() {
    let targets = vec![creature(1, -100_000, 0)];
    let mut ps = vec![missile(v(0, 0), v(1000, 0), None)];
    ps[0].bundle.homing = Some(Homing { turn_rate: 1000, target: None });
    homing_projectile_update(&mut ps, &targets, 500);
    assert_eq!(ps[0].bundle.velocity.direction, v(1000, 0));
    assert_eq!(ps[0].bundle.velocity.speed, 350_000);
    assert_eq!(ps[0].bundle.homing.unwrap().target, Some(1));
    homing_projectile_update(&mut ps, &targets, 501);
    assert_eq!(ps[0].bundle.velocity.direction, v(-1000, 0));
}

#[test]
fn steering_all_the_way_to_a_target_on_top_keeps_the_heading() {
    let targets = vec![creature(1, 30, 40)];
    let mut ps = vec![missile(v(30, 40), v(0, -1000), None)];
    homing_projectile_update(&mut ps, &targets, 5000);
    assert_eq!(ps[0].bundle.velocity.direction, v(0, -1000));
    projectile_movement(&mut ps, 100);
    assert_eq!(ps[0].bundle.position, v(30, 40 - 35_000));
}

#[test]
fn steering_leaves_a_projectile_at_rest_at_rest() {
    let targets = vec![creature(1, 50_000, 0)];
    let mut ps = vec![missile(v(0, 0), v(0, 0), None)];
    ps[0].bundle.velocity.speed = 100_000;
    homing_projectile_update(&mut ps, &targets, 1000);
    assert_eq!(ps[0].bundle.velocity.direction, v(0, 0));
    assert_eq!(ps[0].bundle.velocity.speed, 100_000);
    assert_eq!(ps[0].bundle.homing.unwrap().target, Some(1));
    projectile_movement(&mut ps, 1000);
    assert_eq!(ps[0].bundle.position, v(0, 0));
}

#[test]
fn steering_keeps_the_length_of_the_heading() {
    let targets = vec![creature(1, -123_456, 654_321), creature(2, 99_000, -100_000)];
    let mut ps = vec![missile(v(10, 20), v(3, -4), None), missile(v(-500, 7), v(-1, 0), Some(1))];
    for tick in 0..300u32 {
        homing_projectile_update(&mut ps, &targets, tick % 50);
        for p in &ps {
            let d = p.bundle.velocity.direction;
            let length_sq = (d.x as i64) * (d.x as i64) + (d.y as i64) * (d.y as i64);
            assert!((998 * 998..=1_000_002).contains(&length_sq));
            assert_eq!(p.bundle.velocity.speed, 350_000);
        }
        projectile_movement(&mut ps, 16);
    }
}
