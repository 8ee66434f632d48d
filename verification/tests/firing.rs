use crimsonland::geometry::Vector;
use crimsonland::perks::components::{ModifierSet, PerkBonuses, PerkId, PerkInventory};
use crimsonland::weapons::components::{
    EquippedWeapon, Explosive, Freezing, Homing, ProjectileBundle, Splitter, WeaponId,
};
use crimsonland::weapons::registry::{WeaponData, WeaponRegistry};
use crimsonland::weapons::systems::{fire_weapon_system, make_pellet, FireWeaponEvent};

fn v(x: i32, y: i32) -> Vector {
    Vector { x, y }
}

fn neutral() -> ModifierSet {
    ModifierSet::resolve(&PerkBonuses::default())
}

fn fire(weapon: &mut EquippedWeapon, bonuses: &PerkBonuses) -> crimsonland::weapons::systems::FireOutcome {
    let registry = WeaponRegistry::new();
    fire_weapon_system(1, v(5000, -5000), v(3000, 4000), true, weapon, &registry, &ModifierSet::resolve(bonuses), 16)
}

#[test]
fn fire_weapon_event_can_be_created() {
    let event = FireWeaponEvent {
        shooter: u64::MAX,
        position: v(0, 0),
        direction: v(1000, 0),
        weapon_id: WeaponId::Pistol,
    };
    assert_eq!(event.weapon_id, WeaponId::Pistol);
}

#[test]
fn pistol_fires_one_plain_projectile() {
    let mut weapon = EquippedWeapon::default();
    let out = fire(&mut weapon, &PerkBonuses::default());
    assert_eq!(out.orders.len(), 1);
    assert_eq!(weapon.ammo, None);
    assert_eq!(weapon.fire_cooldown, 200);
    let order = &out.orders[0];
    assert!(order.turn >= -50_000 && order.turn <= 50_000);
    let b = &order.bundle;
    assert_eq!(b.projectile.weapon_id, WeaponId::Pistol);
    assert_eq!(b.projectile.damage, 15_000);
    assert_eq!(b.projectile.owner, 1);
    assert_eq!(b.projectile.pierce_count, 0);
    assert_eq!(b.velocity.direction, v(600, 800));
    assert_eq!(b.velocity.speed, 800_000);
    assert_eq!(b.lifetime.remaining, 2000);
    assert_eq!(b.position, v(5000, -5000));
    assert!(b.homing.is_none() && b.explosive.is_none() && b.chain_lightning.is_none());
    assert!(b.splitter.is_none() && b.freezing.is_none());
    assert_eq!(
        out.event,
        Some(FireWeaponEvent {
            shooter: 1,
            position: v(5000, -5000),
            direction: v(3000, 4000),
            weapon_id: WeaponId::Pistol,
        })
    );
}

#[test]
fn shotgun_blast_costs_one_round() {
    let mut weapon = EquippedWeapon::new(WeaponId::Shotgun, Some(50));
    let out = fire(&mut weapon, &PerkBonuses::default());
    assert_eq!(out.orders.len(), 8);
    assert_eq!(weapon.ammo, Some(49));
    assert_eq!(weapon.fire_cooldown, 500);
    for order in &out.orders {
        assert_eq!(order.bundle.projectile.damage, 8000);
        assert_eq!(order.bundle.lifetime.remaining, 800);
        assert!(order.turn >= -300_000 && order.turn <= 300_000);
    }
}

#[test]
fn not_firing_is_a_no_op() {
    let mut weapon = EquippedWeapon::new(WeaponId::Shotgun, Some(50));
    let registry = WeaponRegistry::new();
    let out = fire_weapon_system(1, v(0, 0), v(1000, 0), false, &mut weapon, &registry, &ModifierSet::resolve(&PerkBonuses::default()), 16);
    assert!(out.orders.is_empty());
    assert!(out.event.is_none());
    assert_eq!(weapon, EquippedWeapon::new(WeaponId::Shotgun, Some(50)));
}

#[test]
fn firing_on_cooldown_is_a_no_op_but_time_passes() {
    let mut weapon = EquippedWeapon { fire_cooldown: 200, ..EquippedWeapon::new(WeaponId::Shotgun, Some(50)) };
    let out = fire(&mut weapon, &PerkBonuses::default());
    assert!(out.orders.is_empty());
    assert!(out.event.is_none());
    assert_eq!(weapon.ammo, Some(50));
    assert_eq!(weapon.fire_cooldown, 184);
}

#[test]
fn cooldown_that_runs_out_in_the_tick_lets_the_weapon_fire() {
    let mut weapon = EquippedWeapon { fire_cooldown: 16, ..EquippedWeapon::default() };
    let out = fire(&mut weapon, &PerkBonuses::default());
    assert_eq!(out.orders.len(), 1);
    assert_eq!(weapon.fire_cooldown, 200);
}

#[test]
fn firing_empty_or_reloading_is_a_no_op() {
    let mut empty = EquippedWeapon { ammo: Some(0), ..EquippedWeapon::new(WeaponId::Uzi, Some(200)) };
    let out = fire(&mut empty, &PerkBonuses::default());
    assert!(out.orders.is_empty());
    assert_eq!(empty.ammo, Some(0));
    assert_eq!(empty.fire_cooldown, 0);
    let mut reloading = EquippedWeapon { reload_timer: 1000, ..EquippedWeapon::new(WeaponId::Uzi, Some(200)) };
    let out = fire(&mut reloading, &PerkBonuses::default());
    assert!(out.orders.is_empty());
    assert_eq!(reloading.ammo, Some(200));
    assert_eq!(reloading.reload_timer, 984);
}

#[test]
fn unknown_weapon_skips_the_shot() {
    let registry = WeaponRegistry { weapons: Vec::new() };
    let mut weapon = EquippedWeapon::new(WeaponId::Shotgun, Some(50));
    let out = fire_weapon_system(1, v(0, 0), v(1000, 0), true, &mut weapon, &registry, &ModifierSet::resolve(&PerkBonuses::default()), 16);
    assert!(out.orders.is_empty());
    assert!(out.event.is_none());
    assert!(out.unknown_weapon);
    assert_eq!(weapon.ammo, Some(50));
    assert_eq!(weapon.fire_cooldown, 0);
    let idle = fire_weapon_system(1, v(0, 0), v(1000, 0), false, &mut weapon, &registry, &ModifierSet::resolve(&PerkBonuses::default()), 16);
    assert!(!idle.unknown_weapon);
    let known = fire(&mut weapon, &PerkBonuses::default());
    assert!(!known.unknown_weapon);
    assert_eq!(known.orders.len(), 8);
}

#[test]
fn zero_spread_fires_straight() {
    let mut weapon = EquippedWeapon::new(WeaponId::GaussGun, Some(30));
    for _ in 0..20 {
        weapon.fire_cooldown = 0;
        let out = fire(&mut weapon, &PerkBonuses::default());
        assert_eq!(out.orders.len(), 1);
        assert_eq!(out.orders[0].turn, 0);
        assert_eq!(out.orders[0].bundle.projectile.pierce_count, 10);
    }
    assert_eq!(weapon.ammo, Some(10));
    assert_eq!(weapon.fire_cooldown, 666);
}

#[test]
fn accuracy_narrows_the_cone() {
    let bonuses = PerkBonuses::calculate(&PerkInventory::with_perk(PerkId::Sharpshooter));
    for _ in 0..50 {
        let mut weapon = EquippedWeapon::new(WeaponId::Shotgun, Some(50));
        let out = fire(&mut weapon, &bonuses);
        for order in &out.orders {
            assert!(order.turn >= -150_000 && order.turn <= 150_000);
        }
    }
}

#[test]
fn accuracy_never_closes_the_cone() {
    let bonuses = PerkBonuses { accuracy_bonus: 5000, ..PerkBonuses::default() };
    let mut seen_off_axis = false;
    for _ in 0..50 {
        let mut weapon = EquippedWeapon::new(WeaponId::Shotgun, Some(50));
        let out = fire(&mut weapon, &bonuses);
        for order in &out.orders {
            assert!(order.turn >= -30_000 && order.turn <= 30_000);
            seen_off_axis = seen_off_axis || order.turn != 0;
        }
    }
    assert!(seen_off_axis);
}

#[test]
fn spread_is_drawn_anew_for_each_pellet() {
    let mut turns = Vec::new();
    for _ in 0..50 {
        let mut weapon = EquippedWeapon::new(WeaponId::Shotgun, Some(50));
        let out = fire(&mut weapon, &PerkBonuses::default());
        for order in &out.orders {
            turns.push(order.turn);
        }
    }
    assert_eq!(turns.len(), 400);
    assert!(turns.iter().any(|t| *t != -300_000));
    assert!(turns.iter().any(|t| *t != 300_000));
    assert!(turns.iter().any(|t| *t != turns[0]));
    assert!(turns.iter().any(|t| *t < 0) && turns.iter().any(|t| *t > 0));
}

#[test]
fn crit_rolls_are_made_for_each_pellet() {
    let bonuses = PerkBonuses { crit_chance: 500, crit_multiplier: 3000, ..PerkBonuses::default() };
    let mut plain = 0;
    let mut critical = 0;
    for _ in 0..50 {
        let mut weapon = EquippedWeapon::new(WeaponId::Shotgun, Some(50));
        let out = fire(&mut weapon, &bonuses);
        for order in &out.orders {
            match order.bundle.projectile.damage {
                8000 => plain += 1,
                24_000 => critical += 1,
                other => panic!("damage {}", other),
            }
        }
    }
    assert_eq!(plain + critical, 400);
    assert!(plain > 0 && critical > 0);
}

#[test]
fn certain_crit_always_crits_and_no_chance_never() {
    let always = PerkBonuses { crit_chance: 1000, ..PerkBonuses::default() };
    let never = PerkBonuses { crit_chance: 0, crit_multiplier: 9000, ..PerkBonuses::default() };
    for _ in 0..50 {
        let mut weapon = EquippedWeapon::new(WeaponId::Shotgun, Some(50));
        for order in &fire(&mut weapon, &always).orders {
            assert_eq!(order.bundle.projectile.damage, 16_000);
        }
        let mut weapon = EquippedWeapon::new(WeaponId::Shotgun, Some(50));
        for order in &fire(&mut weapon, &never).orders {
            assert_eq!(order.bundle.projectile.damage, 8000);
        }
    }
}

#[test]
fn perks_scale_damage_lifetime_and_cooldown() {
    let mut inv = PerkInventory::new();
    inv.add_perk(PerkId::UraniumFilledBullets);
    inv.add_perk(PerkId::BarrelGreaser);
    inv.add_perk(PerkId::Fastshot);
    let bonuses = PerkBonuses::calculate(&inv);
    let mut weapon = EquippedWeapon::default();
    let out = fire(&mut weapon, &bonuses);
    assert_eq!(out.orders[0].bundle.projectile.damage, 42_000);
    assert_eq!(out.orders[0].bundle.lifetime.remaining, 2600);
    assert_eq!(out.orders[0].bundle.velocity.speed, 800_000);
    assert_eq!(weapon.fire_cooldown, 176);
}

#[test]
fn reload_that_ends_in_the_tick_uses_the_ammo_multiplier() {
    let bonuses = PerkBonuses { ammo_multiplier: 1500, ..PerkBonuses::default() };
    let mut weapon = EquippedWeapon { ammo: Some(0), reload_timer: 10, ..EquippedWeapon::new(WeaponId::Shotgun, Some(50)) };
    let out = fire(&mut weapon, &bonuses);
    assert_eq!(out.orders.len(), 8);
    assert_eq!(weapon.ammo, Some(74));
    assert_eq!(weapon.reload_timer, 0);
}

fn data(id: WeaponId) -> WeaponData {
    WeaponRegistry::new().get(id).unwrap().clone()
}

#[test]
fn make_pellet_decides_the_crit_by_the_roll() {
    let modifiers = ModifierSet { crit_chance: 500, crit_multiplier: 2000, ..neutral() };
    let pistol = data(WeaponId::Pistol);
    let hit = make_pellet(1, v(0, 0), v(1000, 0), WeaponId::Pistol, &pistol, &modifiers, 123, 499);
    assert_eq!(hit.bundle.projectile.damage, 30_000);
    assert_eq!(hit.turn, 123);
    let miss = make_pellet(1, v(0, 0), v(1000, 0), WeaponId::Pistol, &pistol, &modifiers, -7, 500);
    assert_eq!(miss.bundle.projectile.damage, 15_000);
    assert_eq!(miss.turn, -7);
    let none = ModifierSet { crit_chance: 0, ..modifiers };
    let low = make_pellet(1, v(0, 0), v(1000, 0), WeaponId::Pistol, &pistol, &none, 0, 0);
    assert_eq!(low.bundle.projectile.damage, 15_000);
}

#[test]
fn pellets_carry_the_capabilities_of_their_weapon() {
    let m = neutral();
    let rocket = make_pellet(1, v(0, 0), v(0, 1), WeaponId::RocketLauncher, &data(WeaponId::RocketLauncher), &m, 0, 999);
    assert_eq!(rocket.bundle.explosive, Some(Explosive { radius: 80_000, damage: 100_000 }));
    assert!(rocket.bundle.homing.is_none());
    assert_eq!(rocket.bundle.velocity.direction, v(0, 1000));

    let missile = make_pellet(1, v(0, 0), v(0, 1), WeaponId::HomingMissile, &data(WeaponId::HomingMissile), &m, 0, 999);
    assert_eq!(missile.bundle.homing, Some(Homing { turn_rate: 3000, target: None }));
    assert_eq!(missile.bundle.explosive, Some(Explosive { radius: 60_000, damage: 80_000 }));

    let chain = make_pellet(1, v(0, 0), v(0, 1), WeaponId::ChainReactor, &data(WeaponId::ChainReactor), &m, 0, 999);
    let tag = chain.bundle.chain_lightning.as_ref().unwrap();
    assert_eq!(tag.jumps_remaining, 5);
    assert_eq!(tag.jump_range, 150_000);
    assert_eq!(tag.damage_falloff, 800);
    assert!(tag.already_hit.is_empty());
    assert_eq!(chain.bundle.explosive, Some(Explosive { radius: 40_000, damage: 20_000 }));

    let splitter = make_pellet(1, v(0, 0), v(0, 1), WeaponId::SplitterGun, &data(WeaponId::SplitterGun), &m, 0, 999);
    assert_eq!(splitter.bundle.splitter, Some(Splitter { splits_remaining: 2, split_count: 3, damage_multiplier: 600 }));

    let freeze = make_pellet(1, v(0, 0), v(0, 1), WeaponId::FreezeRay, &data(WeaponId::FreezeRay), &m, 0, 999);
    assert_eq!(freeze.bundle.freezing, Some(Freezing { slow_amount: 300, duration: 3000 }));
    assert!(freeze.bundle.splitter.is_none() && freeze.bundle.chain_lightning.is_none());

    let plasma = make_pellet(1, v(0, 0), v(0, 1), WeaponId::PlasmaRifle, &data(WeaponId::PlasmaRifle), &m, 0, 999);
    assert_eq!(plasma.bundle.projectile.pierce_count, 2);
}

#[test]
fn explosive_damage_follows_a_crit() {
    let m = ModifierSet { crit_chance: 1000, crit_multiplier: 2000, ..neutral() };
    let rocket = make_pellet(1, v(0, 0), v(0, 1), WeaponId::RocketLauncher, &data(WeaponId::RocketLauncher), &m, 0, 0);
    assert_eq!(rocket.bundle.projectile.damage, 200_000);
    assert_eq!(rocket.bundle.explosive, Some(Explosive { radius: 80_000, damage: 200_000 }));
}

#[test]
fn zero_aim_gives_a_projectile_without_direction() {
    let order = make_pellet(1, v(0, 0), v(0, 0), WeaponId::Pistol, &data(WeaponId::Pistol), &neutral(), 0, 0);
    assert_eq!(order.bundle.velocity.direction, v(0, 0));
    assert_eq!(order.bundle.velocity.speed, 800_000);
}

#[test]
fn launch_sets_the_heading_and_keeps_the_speed() {
    let order = make_pellet(1, v(0, 0), v(1000, 0), WeaponId::Pistol, &data(WeaponId::Pistol), &neutral(), 40_000, 0);
    let bundle = order.launch(v(999_200, 39_989));
    assert_eq!(bundle.velocity.direction, v(999, 39));
    assert_eq!(bundle.velocity.speed, 800_000);
    assert_eq!(bundle.projectile.damage, 15_000);
}

#[test]
fn basic_bundle_has_no_pierce_and_no_capabilities() {
    let b = ProjectileBundle::new(WeaponId::Uzi, 10_000, 7, v(1, 2), v(0, -20), 700_000, 1500);
    assert_eq!(b.projectile.weapon_id, WeaponId::Uzi);
    assert_eq!(b.projectile.damage, 10_000);
    assert_eq!(b.projectile.owner, 7);
    assert_eq!(b.projectile.pierce_count, 0);
    assert_eq!(b.velocity.direction, v(0, -1000));
    assert_eq!(b.velocity.speed, 700_000);
    assert_eq!(b.lifetime.remaining, 1500);
    assert_eq!(b.position, v(1, 2));
    assert!(b.homing.is_none() && b.explosive.is_none() && b.chain_lightning.is_none());
    assert!(b.splitter.is_none() && b.freezing.is_none());
}
