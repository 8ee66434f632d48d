use crimsonland::weapons::components::{EquippedWeapon, Lifetime, WeaponId, WeaponPhase};

fn pistol() -> EquippedWeapon {
    EquippedWeapon::default()
}

#[test]
fn equipped_weapon_default_is_pistol() {
    let weapon = EquippedWeapon::default();
    assert_eq!(weapon.weapon_id, WeaponId::Pistol);
    assert!(weapon.ammo.is_none());
}

#[test]
fn equipped_weapon_can_fire_when_ready() {
    let weapon = EquippedWeapon::default();
    assert!(weapon.can_fire());
}

#[test]
fn equipped_weapon_cannot_fire_on_cooldown() {
    let weapon = EquippedWeapon { fire_cooldown: 500, ..pistol() };
    assert!(!weapon.can_fire());
}

#[test]
fn equipped_weapon_cannot_fire_without_ammo() {
    let weapon = EquippedWeapon { ammo: Some(0), ..pistol() };
    assert!(!weapon.can_fire());
}

#[test]
fn equipped_weapon_consume_ammo_decrements() {
    let mut weapon = EquippedWeapon { ammo: Some(10), ..pistol() };
    weapon.consume_ammo();
    assert_eq!(weapon.ammo, Some(9));
}

#[test]
fn equipped_weapon_consume_ammo_clamps_to_zero() {
    let mut weapon = EquippedWeapon { ammo: Some(0), ..pistol() };
    weapon.consume_ammo();
    assert_eq!(weapon.ammo, Some(0));
}

#[test]
fn lifetime_expires_correctly() {
    let mut lifetime = Lifetime::new(1000);
    assert!(!lifetime.is_expired());
    lifetime.tick(500);
    assert!(!lifetime.is_expired());
    lifetime.tick(600);
    assert!(lifetime.is_expired());
}

#[test]
fn lifetime_stops_at_zero() {
    let mut lifetime = Lifetime::new(10);
    lifetime.tick(4_000_000_000);
    assert_eq!(lifetime.remaining, 0);
    lifetime.tick(1);
    assert_eq!(lifetime.remaining, 0);
}

#[test]
fn zero_lifetime_is_expired_at_once() {
    assert!(Lifetime::new(0).is_expired());
}

#[test]
fn new_weapon_is_full_and_ready() {
    let weapon = EquippedWeapon::new(WeaponId::Shotgun, Some(50));
    assert_eq!(weapon.ammo, Some(50));
    assert_eq!(weapon.max_ammo, Some(50));
    assert_eq!(weapon.fire_cooldown, 0);
    assert_eq!(weapon.reload_timer, 0);
    assert_eq!(weapon.phase(), WeaponPhase::Ready);
    assert!(weapon.has_ammo());
    assert!(!weapon.is_reloading());
}

#[test]
fn phases_follow_timers_and_ammo() {
    let ready = EquippedWeapon::new(WeaponId::Uzi, Some(3));
    assert_eq!(ready.phase(), WeaponPhase::Ready);
    let cooling = EquippedWeapon { fire_cooldown: 1, ..ready };
    assert_eq!(cooling.phase(), WeaponPhase::OnCooldown);
    let empty = EquippedWeapon { ammo: Some(0), fire_cooldown: 7, ..ready };
    assert_eq!(empty.phase(), WeaponPhase::Empty);
    let reloading = EquippedWeapon { ammo: Some(0), reload_timer: 1, ..ready };
    assert_eq!(reloading.phase(), WeaponPhase::Reloading);
    for weapon in [ready, cooling, empty, reloading] {
        assert_eq!(weapon.can_fire(), weapon.phase() == WeaponPhase::Ready);
    }
}

#[test]
fn register_shot_books_one_round_and_one_cooldown() {
    let mut weapon = EquippedWeapon::new(WeaponId::Shotgun, Some(50));
    weapon.register_shot(500, 1000);
    assert_eq!(weapon.ammo, Some(49));
    assert_eq!(weapon.fire_cooldown, 500);
    assert_eq!(weapon.phase(), WeaponPhase::OnCooldown);
}

#[test]
fn cooldown_is_divided_by_the_fire_rate_multiplier() {
    let mut weapon = pistol();
    weapon.register_shot(200, 2000);
    assert_eq!(weapon.fire_cooldown, 100);
    let mut weapon = pistol();
    weapon.register_shot(200, 1136);
    assert_eq!(weapon.fire_cooldown, 176);
    let mut weapon = pistol();
    weapon.register_shot(200, 500);
    assert_eq!(weapon.fire_cooldown, 400);
}

#[test]
fn fire_rate_multiplier_of_zero_never_cools_down() {
    let mut weapon = pistol();
    weapon.register_shot(200, 0);
    assert_eq!(weapon.fire_cooldown, u32::MAX);
    assert_eq!(weapon.ammo, None);
}

#[test]
fn last_round_leaves_the_weapon_empty() {
    let mut weapon = EquippedWeapon::new(WeaponId::Magnum, Some(1));
    weapon.register_shot(500, 1000);
    assert_eq!(weapon.ammo, Some(0));
    assert_eq!(weapon.phase(), WeaponPhase::Empty);
    weapon.tick(500, 1000);
    assert_eq!(weapon.phase(), WeaponPhase::Empty);
    assert!(!weapon.can_fire());
}

#[test]
fn start_reload_needs_finite_ammo() {
    let mut infinite = pistol();
    infinite.start_reload(2000);
    assert_eq!(infinite, pistol());
    let mut finite = EquippedWeapon::new(WeaponId::Uzi, Some(200));
    finite.ammo = Some(12);
    finite.start_reload(2000);
    assert_eq!(finite.reload_timer, 2000);
    assert!(finite.is_reloading());
    assert!(!finite.can_fire());
    assert_eq!(finite.phase(), WeaponPhase::Reloading);
}

#[test]
fn start_reload_does_not_restart_a_reload() {
    let mut weapon = EquippedWeapon::new(WeaponId::Uzi, Some(200));
    weapon.start_reload(2000);
    weapon.tick(500, 1000);
    weapon.start_reload(2000);
    assert_eq!(weapon.reload_timer, 1500);
}

#[test]
fn finish_reload_restores_capacity() {
    let mut weapon = EquippedWeapon::new(WeaponId::Uzi, Some(200));
    weapon.ammo = Some(0);
    weapon.start_reload(1500);
    weapon.finish_reload();
    assert_eq!(weapon.ammo, Some(200));
    assert_eq!(weapon.reload_timer, 0);
    assert_eq!(weapon.phase(), WeaponPhase::Ready);
}

#[test]
fn finish_reload_leaves_infinite_ammo_alone() {
    let mut weapon = pistol();
    weapon.reload_timer = 5;
    weapon.finish_reload();
    assert_eq!(weapon, pistol());
}

#[test]
fn tick_runs_the_cooldown_down() {
    let mut weapon = EquippedWeapon { fire_cooldown: 200, ..pistol() };
    weapon.tick(16, 1000);
    assert_eq!(weapon.fire_cooldown, 184);
    assert_eq!(weapon.phase(), WeaponPhase::OnCooldown);
    weapon.tick(184, 1000);
    assert_eq!(weapon.fire_cooldown, 0);
    assert_eq!(weapon.phase(), WeaponPhase::Ready);
    weapon.tick(16, 1000);
    assert_eq!(weapon.fire_cooldown, 0);
}

#[test]
fn reload_that_runs_out_fills_capacity_times_multiplier() {
    let mut weapon = EquippedWeapon::new(WeaponId::Uzi, Some(200));
    weapon.ammo = Some(3);
    weapon.start_reload(1000);
    weapon.tick(999, 1250);
    assert_eq!(weapon.ammo, Some(3));
    assert_eq!(weapon.reload_timer, 1);
    weapon.tick(1, 1250);
    assert_eq!(weapon.ammo, Some(250));
    assert_eq!(weapon.reload_timer, 0);
    assert_eq!(weapon.phase(), WeaponPhase::Ready);
}

#[test]
fn weapon_id_default_is_pistol() {
    assert_eq!(WeaponId::default(), WeaponId::Pistol);
}
