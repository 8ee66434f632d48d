use crimsonland::perks::components::{PerkBonuses, PerkId, PerkInventory};
use crimsonland::perks::systems::{apply_perk_effects, PerkSelectedEvent};
use crimsonland::player::resources::PlayerConfig;
use crimsonland::player::components::{Experience, Firing, Health, Invincibility, MoveSpeed, Player};
use crimsonland::geometry::Vector;
use crimsonland::weapons::components::{EquippedWeapon, WeaponId};
use crimsonland::player::systems::{
    apply_player_damage, check_player_death, grant_experience_on_kill, player_aim,
    player_movement, player_shooting, resolve_player_damage, DamageOutcome, PlayerDamageEvent, PlayerDeathEvent,
    PlayerLevelUpEvent,
};

#[test]
fn health_new_creates_full_health() {
    let health = Health::new(100_000);
    assert_eq!(health.current, 100_000);
    assert_eq!(health.max, 100_000);
}

#[test]
fn health_damage_reduces_current() {
    let mut health = Health::new(100_000);
    health.damage(30_000);
    assert_eq!(health.current, 70_000);
}

#[test]
fn health_damage_clamps_to_zero() {
    let mut health = Health::new(100_000);
    health.damage(150_000);
    assert_eq!(health.current, 0);
}

#[test]
fn health_heal_increases_current() {
    let mut health = Health::new(100_000);
    health.current = 50_000;
    health.heal(30_000);
    assert_eq!(health.current, 80_000);
}

#[test]
fn health_heal_clamps_to_max() {
    let mut health = Health::new(100_000);
    health.current = 90_000;
    health.heal(50_000);
    assert_eq!(health.current, 100_000);
}

#[test]
fn health_is_dead_when_zero() {
    let mut health = Health::new(100_000);
    assert!(!health.is_dead());
    health.damage(100_000);
    assert!(health.is_dead());
}

#[test]
fn health_percentage_correct() {
    let mut health = Health::new(100_000);
    assert_eq!(health.percentage(), 1000);
    health.damage(25_000);
    assert_eq!(health.percentage(), 750);
}

#[test]
fn health_heal_never_exceeds_max() {
    let mut health = Health { current: 80_000, max: 100_000 };
    health.heal(50_000);
    assert_eq!(health.current, 100_000);
    let mut health = Health { current: u32::MAX - 1, max: u32::MAX };
    health.heal(u32::MAX);
    assert_eq!(health.current, u32::MAX);
}

#[test]
fn health_default_is_one_hundred() {
    assert_eq!(Health::default(), Health { current: 100_000, max: 100_000 });
    assert_eq!(Health { current: 1, max: 0 }.percentage(), 0);
}

#[test]
fn experience_add_accumulates() {
    let mut exp = Experience::new();
    exp.add(50);
    assert_eq!(exp.current, 50);
    assert_eq!(exp.level, 1);
}

#[test]
fn experience_level_up_on_threshold() {
    let mut exp = Experience::new();
    let leveled_up = exp.add(100);
    assert!(leveled_up);
    assert_eq!(exp.level, 2);
}

#[test]
fn experience_carries_over_excess() {
    let mut exp = Experience::new();
    exp.add(120);
    assert_eq!(exp.level, 2);
    assert_eq!(exp.current, 20);
}

#[test]
fn experience_accumulates() {
    let mut exp = Experience::new();
    assert!(!exp.add(50));
    assert!(!exp.add(30));
    assert_eq!(exp.current, 80);
}

#[test]
fn level_up_at_threshold() {
    let mut exp = Experience::new();
    assert!(exp.add(120));
    assert_eq!(exp.to_next_level, 120);
}

#[test]
fn each_level_takes_a_fifth_more() {
    let mut exp = Experience::new();
    let mut thresholds = Vec::new();
    for _ in 0..5 {
        let need = exp.to_next_level - exp.current;
        assert!(exp.add(need));
        thresholds.push(exp.to_next_level);
    }
    assert_eq!(thresholds, vec![120, 144, 172, 206, 247]);
    assert_eq!(exp.level, 6);
    assert_eq!(exp.current, 0);
}

#[test]
fn one_add_raises_one_level_at_most() {
    let mut exp = Experience::new();
    assert!(exp.add(1000));
    assert_eq!(exp.level, 2);
    assert_eq!(exp.current, 900);
    assert_eq!(exp.to_next_level, 120);
}

#[test]
fn experience_progress() {
    let mut exp = Experience::new();
    assert_eq!(exp.progress(), 0);
    exp.add(25);
    assert_eq!(exp.progress(), 250);
    assert_eq!(Experience { current: 5, level: 1, to_next_level: 0 }.progress(), 0);
    assert_eq!(Experience::default(), Experience::new());
}

#[test]
fn invincibility_ticks_down() {
    let mut inv = Invincibility::new(1000);
    assert!(inv.is_active());
    inv.tick(500);
    assert!(inv.is_active());
    inv.tick(600);
    assert!(!inv.is_active());
}

#[test]
fn defaults() {
    assert_eq!(Player::default().index, 0);
    assert_eq!(MoveSpeed::default(), MoveSpeed(200_000));
    assert_eq!(Firing::default(), Firing { is_firing: false, cooldown_timer: 0 });
}

#[test]
fn player_damage_event_can_be_created() {
    let event = PlayerDamageEvent { player_entity: u64::MAX, damage: 10_000, source: None };
    assert_eq!(event.damage, 10_000);
}

#[test]
fn player_death_event_can_be_created() {
    let event = PlayerDeathEvent { player_entity: u64::MAX };
    assert_eq!(event.player_entity, u64::MAX);
}

#[test]
fn player_level_up_event_can_be_created() {
    let event = PlayerLevelUpEvent { player_entity: u64::MAX, new_level: 5 };
    assert_eq!(event.new_level, 5);
}

#[test]
fn protected_player_takes_nothing() {
    let mut health = Health::new(100_000);
    let outcome = resolve_player_damage(&mut health, true, &PerkBonuses::default(), 10_000, 0);
    assert_eq!(outcome, DamageOutcome::Ignored);
    assert_eq!(health.current, 100_000);
}

#[test]
fn dodge_is_decided_by_the_roll() {
    let bonuses = PerkBonuses { dodge_chance: 200, ..PerkBonuses::default() };
    let mut health = Health::new(100_000);
    assert_eq!(resolve_player_damage(&mut health, false, &bonuses, 10_000, 199), DamageOutcome::Dodged);
    assert_eq!(health.current, 100_000);
    assert_eq!(
        resolve_player_damage(&mut health, false, &bonuses, 10_000, 200),
        DamageOutcome::Taken { amount: 10_000 }
    );
    assert_eq!(health.current, 90_000);
    let none = PerkBonuses::default();
    assert_eq!(
        resolve_player_damage(&mut health, false, &none, 10_000, 0),
        DamageOutcome::Taken { amount: 10_000 }
    );
}

#[test]
fn damage_reduction_takes_its_share() {
    let bonuses = PerkBonuses { damage_reduction: 333, ..PerkBonuses::default() };
    let mut health = Health::new(100_000);
    assert_eq!(
        resolve_player_damage(&mut health, false, &bonuses, 30_000, 999),
        DamageOutcome::Taken { amount: 20_010 }
    );
    assert_eq!(health.current, 79_990);
    let all = PerkBonuses { damage_reduction: 5000, ..PerkBonuses::default() };
    assert_eq!(
        resolve_player_damage(&mut health, false, &all, 30_000, 999),
        DamageOutcome::Taken { amount: 0 }
    );
    assert_eq!(health.current, 79_990);
}

#[test]
fn rolled_damage_dodges_sometimes() {
    let bonuses = PerkBonuses { dodge_chance: 500, ..PerkBonuses::default() };
    let mut dodged = 0;
    let mut taken = 0;
    for _ in 0..400 {
        let mut health = Health::new(100_000);
        match apply_player_damage(&mut health, false, &bonuses, 10_000) {
            DamageOutcome::Dodged => {
                dodged += 1;
                assert_eq!(health.current, 100_000);
            }
            DamageOutcome::Taken { amount } => {
                taken += 1;
                assert_eq!(amount, 10_000);
                assert_eq!(health.current, 90_000);
            }
            DamageOutcome::Ignored => panic!("not protected"),
        }
    }
    assert!(dodged > 0 && taken > 0);
}

#[test]
fn rolled_damage_without_or_with_certain_dodge() {
    let mut health = Health::new(100_000);
    for _ in 0..50 {
        let outcome = apply_player_damage(&mut health, false, &PerkBonuses::default(), 1000);
        assert_eq!(outcome, DamageOutcome::Taken { amount: 1000 });
    }
    assert_eq!(health.current, 50_000);
    let sure = PerkBonuses { dodge_chance: 1000, ..PerkBonuses::default() };
    for _ in 0..50 {
        assert_eq!(apply_player_damage(&mut health, false, &sure, 1000), DamageOutcome::Dodged);
        assert_eq!(apply_player_damage(&mut health, true, &sure, 1000), DamageOutcome::Ignored);
    }
    assert_eq!(health.current, 50_000);
}

#[test]
fn kills_grant_experience_times_the_multiplier() {
    let mut exp = Experience::new();
    let bonuses = PerkBonuses { exp_multiplier: 1300, ..PerkBonuses::default() };
    assert_eq!(grant_experience_on_kill(&mut exp, &bonuses, 50), None);
    assert_eq!(exp.current, 65);
    assert_eq!(grant_experience_on_kill(&mut exp, &bonuses, 30), Some(2));
    assert_eq!(exp, Experience { current: 4, level: 2, to_next_level: 120 });
    assert_eq!(grant_experience_on_kill(&mut exp, &PerkBonuses::default(), 10), None);
    assert_eq!(exp.current, 14);
}

#[test]
fn perks_regenerate_and_rescale_health() {
    let mut inv = PerkInventory::new();
    inv.add_perk(PerkId::Regeneration);
    inv.add_perk(PerkId::LongDistanceRunner);
    let mut health = Health { current: 50_000, max: 100_000 };
    let (bonuses, speed) = apply_perk_effects(&inv, &mut health, &PlayerConfig::default(), 500);
    assert_eq!(bonuses, PerkBonuses::calculate(&inv));
    assert_eq!(health, Health { current: 51_000, max: 100_000 });
    assert_eq!(speed, MoveSpeed(280_000));

    inv.add_perk(PerkId::ThickSkinned);
    let (_, _) = apply_perk_effects(&inv, &mut health, &PlayerConfig::default(), 0);
    assert_eq!(health, Health { current: 34_017, max: 66_700 });
    let (_, _) = apply_perk_effects(&inv, &mut health, &PlayerConfig::default(), 0);
    assert_eq!(health, Health { current: 34_017, max: 66_700 });
}

#[test]
fn regeneration_stops_at_the_maximum() {
    let mut inv = PerkInventory::new();
    inv.add_perk(PerkId::GreaterRegeneration);
    let mut health = Health { current: 99_000, max: 100_000 };
    apply_perk_effects(&inv, &mut health, &PlayerConfig::default(), 1000);
    assert_eq!(health, Health { current: 100_000, max: 100_000 });
    let mut health = Health { current: 100_000, max: 100_005 };
    apply_perk_effects(&PerkInventory::new(), &mut health, &PlayerConfig::default(), 1000);
    assert_eq!(health, Health { current: 100_000, max: 100_005 });
}

#[test]
fn perk_selected_event_can_be_created() {
    let event = PerkSelectedEvent { player_entity: u64::MAX, perk_id: PerkId::Regeneration };
    assert_eq!(event.perk_id, PerkId::Regeneration);
}

#[test]
fn perk_bonuses_apply_regen() {
    let mut inventory = PerkInventory::new();
    inventory.add_perk(PerkId::Regeneration);

    let bonuses = PerkBonuses::calculate(&inventory);
    assert!(bonuses.regen_per_second > 0);
}

#[test]
fn perk_bonuses_apply_speed() {
    let mut inventory = PerkInventory::new();
    inventory.add_perk(PerkId::LongDistanceRunner);

    let bonuses = PerkBonuses::calculate(&inventory);
    assert!(bonuses.speed_multiplier > 1000);
}

#[test]
fn player_config_has_reasonable_defaults() {
    let config = PlayerConfig::default();
    assert!(config.base_move_speed > 0);
    assert!(config.base_health > 0);
    assert_eq!(config.damage_invincibility_duration, 500);
    assert_eq!(config.spawn_invincibility_duration, 2000);
    assert_eq!(config.exp_multiplier, 1000);
}

#[test]
fn keys_move_the_player() {
    let at = Vector { x: 0, y: 0 };
    let speed = MoveSpeed(200_000);
    assert_eq!(player_movement(at, true, false, false, false, speed, 1000), Vector { x: 0, y: 200_000 });
    assert_eq!(player_movement(at, false, true, true, false, speed, 1000), Vector { x: -141_400, y: -141_400 });
    assert_eq!(player_movement(at, true, true, false, true, speed, 500), Vector { x: 100_000, y: 0 });
    assert_eq!(player_movement(at, false, false, false, false, speed, 500), at);
    assert_eq!(player_movement(at, true, true, true, true, speed, 500), at);
}

#[test]
fn aim_follows_the_cursor() {
    let at = Vector { x: 1000, y: 1000 };
    assert_eq!(player_aim(at, Vector { x: 1000, y: 1100 }), None);
    assert_eq!(player_aim(at, Vector { x: 1000, y: 1101 }), Some(Vector { x: 0, y: 1000 }));
    assert_eq!(player_aim(at, Vector { x: -2000, y: -3000 }), Some(Vector { x: -600, y: -800 }));
}

#[test]
fn input_sets_firing_and_reload() {
    let mut firing = Firing { is_firing: false, cooldown_timer: 100 };
    let mut weapon = EquippedWeapon::new(WeaponId::Uzi, Some(200));
    player_shooting(&mut firing, &mut weapon, true, false, 16);
    assert_eq!(firing, Firing { is_firing: true, cooldown_timer: 84 });
    assert_eq!(weapon.reload_timer, 0);
    player_shooting(&mut firing, &mut weapon, false, true, 200);
    assert_eq!(firing, Firing { is_firing: false, cooldown_timer: 0 });
    assert_eq!(weapon.reload_timer, 2000);
    weapon.tick(500, 1000);
    player_shooting(&mut firing, &mut weapon, false, true, 16);
    assert_eq!(weapon.reload_timer, 1500);
    let mut pistol = EquippedWeapon::default();
    player_shooting(&mut firing, &mut pistol, false, true, 16);
    assert_eq!(pistol, EquippedWeapon::default());
}

#[test]
fn player_death_is_announced() {
    let mut health = Health::new(10_000);
    assert_eq!(check_player_death(3, &health), None);
    health.damage(10_000);
    assert_eq!(check_player_death(3, &health), Some(PlayerDeathEvent { player_entity: 3 }));
}

#[test]
fn experience_has_room_up_to_the_limits() {
    let full = Experience { current: u32::MAX - 10, level: 3, to_next_level: 100 };
    assert!(full.has_room_for(10));
    assert!(!full.has_room_for(11));
    let top = Experience { current: 50, level: u32::MAX, to_next_level: 100 };
    assert!(top.has_room_for(49));
    assert!(!top.has_room_for(50));
    assert!(top.has_room_for(0));
    let due = Experience { current: 100, level: u32::MAX, to_next_level: 100 };
    assert!(!due.has_room_for(0));
    let mut e = Experience { current: u32::MAX - 10, level: 3, to_next_level: 100 };
    assert!(e.add(10));
    assert_eq!(e, Experience { current: u32::MAX - 100, level: 4, to_next_level: 120 });
}
