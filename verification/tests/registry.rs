use crimsonland::weapons::components::WeaponId;
use crimsonland::weapons::registry::{WeaponData, WeaponRegistry};

const ALL: [WeaponId; 28] = [
    WeaponId::Pistol,
    WeaponId::PocketRocket,
    WeaponId::Magnum,
    WeaponId::Uzi,
    WeaponId::Smg,
    WeaponId::DualSmg,
    WeaponId::AssaultRifle,
    WeaponId::MachineGun,
    WeaponId::Minigun,
    WeaponId::Shotgun,
    WeaponId::DoubleBarrel,
    WeaponId::Jackhammer,
    WeaponId::Blowtorch,
    WeaponId::Flamethrower,
    WeaponId::PlasmaRifle,
    WeaponId::PulseGun,
    WeaponId::IonRifle,
    WeaponId::GaussGun,
    WeaponId::GaussShotgun,
    WeaponId::ShrinkRay,
    WeaponId::FreezeRay,
    WeaponId::RocketLauncher,
    WeaponId::HomingMissile,
    WeaponId::GrenadeLauncher,
    WeaponId::BladeCannon,
    WeaponId::ChainReactor,
    WeaponId::SplitterGun,
    WeaponId::InfernoCannon,
];

fn test_weapon(id: WeaponId, fire_rate: u32) -> WeaponData {
    WeaponData {
        id,
        name: "Test".into(),
        damage: 10_000,
        fire_rate,
        projectile_speed: 500_000,
        spread: 0,
        projectiles_per_shot: 1,
        ammo_capacity: None,
        reload_time: 1000,
        projectile_lifetime: 2000,
        pierce_count: 0,
        homing: false,
        explosive_radius: 0,
    }
}

#[test]
fn weapon_registry_has_all_weapons() {
    let registry = WeaponRegistry::new();
    assert!(!registry.weapons.is_empty());
    assert!(registry.get(WeaponId::Pistol).is_some());
    assert!(registry.get(WeaponId::Shotgun).is_some());
    assert!(registry.get(WeaponId::RocketLauncher).is_some());
}

#[test]
fn weapon_data_fire_cooldown_calculated_correctly() {
    let weapon = test_weapon(WeaponId::Pistol, 5000);
    assert_eq!(weapon.fire_cooldown(), 200);
}

#[test]
fn pistol_has_infinite_ammo() {
    let registry = WeaponRegistry::new();
    let pistol = registry.get(WeaponId::Pistol).unwrap();
    assert!(pistol.ammo_capacity.is_none());
}

#[test]
fn rocket_launcher_is_explosive() {
    let registry = WeaponRegistry::new();
    let rocket = registry.get(WeaponId::RocketLauncher).unwrap();
    assert!(rocket.is_explosive());
}

#[test]
fn homing_missile_has_homing() {
    let registry = WeaponRegistry::new();
    let homing = registry.get(WeaponId::HomingMissile).unwrap();
    assert!(homing.homing);
}

#[test]
fn registry_knows_every_weapon_once() {
    let registry = WeaponRegistry::new();
    assert_eq!(registry.weapons.len(), 28);
    for id in ALL {
        let data = registry.get(id).unwrap();
        assert_eq!(data.id, id);
        assert_eq!(registry.weapons.iter().filter(|w| w.id == id).count(), 1);
    }
}

#[test]
fn default_registry_is_the_built_in_table() {
    let registry = WeaponRegistry::default();
    assert_eq!(registry.weapons.len(), 28);
    assert_eq!(registry.weapons[0].id, WeaponId::Pistol);
    assert_eq!(registry.weapons[27].id, WeaponId::InfernoCannon);
}

#[test]
fn unknown_weapon_is_none() {
    let registry = WeaponRegistry { weapons: vec![test_weapon(WeaponId::Uzi, 1000)] };
    assert!(registry.get(WeaponId::Pistol).is_none());
    assert!(registry.get(WeaponId::Uzi).is_some());
    let empty = WeaponRegistry { weapons: Vec::new() };
    for id in ALL {
        assert!(empty.get(id).is_none());
    }
}

#[test]
fn lookup_returns_the_first_entry() {
    let mut second = test_weapon(WeaponId::Uzi, 2000);
    second.name = "Second".into();
    let registry = WeaponRegistry {
        weapons: vec![test_weapon(WeaponId::Smg, 1000), test_weapon(WeaponId::Uzi, 1000), second],
    };
    let found = registry.get(WeaponId::Uzi).unwrap();
    assert_eq!(found.name, "Test");
    assert_eq!(found.fire_rate, 1000);
}

#[test]
fn register_all_weapons_replaces_the_contents() {
    let mut registry = WeaponRegistry { weapons: vec![test_weapon(WeaponId::Uzi, 1)] };
    registry.register_all_weapons();
    assert_eq!(registry.weapons.len(), 28);
    assert_eq!(registry.get(WeaponId::Uzi).unwrap().fire_rate, 15_000);
}

#[test]
fn pistol_data() {
    let registry = WeaponRegistry::new();
    let pistol = registry.get(WeaponId::Pistol).unwrap();
    assert_eq!(pistol.name, "Pistol");
    assert_eq!(pistol.damage, 15_000);
    assert_eq!(pistol.fire_rate, 5000);
    assert_eq!(pistol.projectile_speed, 800_000);
    assert_eq!(pistol.spread, 50);
    assert_eq!(pistol.projectiles_per_shot, 1);
    assert_eq!(pistol.reload_time, 0);
    assert_eq!(pistol.projectile_lifetime, 2000);
    assert_eq!(pistol.pierce_count, 0);
    assert!(!pistol.homing);
    assert_eq!(pistol.explosive_radius, 0);
    assert!(!pistol.is_explosive());
    assert_eq!(pistol.fire_cooldown(), 200);
}

#[test]
fn shotgun_and_rocket_data() {
    let registry = WeaponRegistry::new();
    let shotgun = registry.get(WeaponId::Shotgun).unwrap();
    assert_eq!(shotgun.damage, 8000);
    assert_eq!(shotgun.projectiles_per_shot, 8);
    assert_eq!(shotgun.ammo_capacity, Some(50));
    assert_eq!(shotgun.spread, 300);
    assert_eq!(shotgun.projectile_lifetime, 800);
    assert_eq!(shotgun.fire_cooldown(), 500);
    let rocket = registry.get(WeaponId::RocketLauncher).unwrap();
    assert_eq!(rocket.name, "Rocket Launcher");
    assert_eq!(rocket.damage, 100_000);
    assert_eq!(rocket.explosive_radius, 80_000);
    assert_eq!(rocket.ammo_capacity, Some(20));
    assert_eq!(rocket.fire_cooldown(), 1000);
    let gauss = registry.get(WeaponId::GaussGun).unwrap();
    assert_eq!(gauss.spread, 0);
    assert_eq!(gauss.pierce_count, 10);
    assert_eq!(gauss.fire_rate, 1500);
    assert_eq!(gauss.fire_cooldown(), 666);
}

#[test]
fn fire_cooldown_without_fire_rate_is_one_second() {
    assert_eq!(test_weapon(WeaponId::Pistol, 0).fire_cooldown(), 1000);
    assert_eq!(test_weapon(WeaponId::Pistol, 30_000).fire_cooldown(), 33);
    assert_eq!(test_weapon(WeaponId::Pistol, 2_000_000).fire_cooldown(), 0);
}
