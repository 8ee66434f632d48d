use crimsonland::creatures::components::{CreatureHealth, CreatureSpeed};

#[test]
fn creature_health_damage_works() {
    let mut health = CreatureHealth::new(100_000);
    health.damage(30_000);
    assert_eq!(health.current, 70_000);
    assert!(!health.is_dead());
}

#[test]
fn creature_health_clamps_to_zero() {
    let mut health = CreatureHealth::new(50_000);
    health.damage(100_000);
    assert_eq!(health.current, 0);
    assert!(health.is_dead());
}

#[test]
fn health_damage_never_goes_negative() {
    let mut health = CreatureHealth::new(100_000);
    health.damage(150_000);
    assert_eq!(health.current, 0);
    assert_eq!(health.max, 100_000);
}

#[test]
fn damage_of_any_size_stops_at_zero() {
    for start in [0u32, 1, 999, 1000, 70_000, u32::MAX] {
        for amount in [0u32, 1, 999, 1000, 70_000, u32::MAX] {
            let mut health = CreatureHealth { current: start, max: u32::MAX };
            health.damage(amount);
            assert_eq!(health.current, start.saturating_sub(amount));
            assert!(health.current <= start);
        }
    }
}

#[test]
fn creature_health_percentage() {
    let mut health = CreatureHealth::new(100_000);
    assert_eq!(health.percentage(), 1000);
    health.damage(25_000);
    assert_eq!(health.percentage(), 750);
    assert_eq!(CreatureHealth { current: 5, max: 0 }.percentage(), 0);
    assert_eq!(CreatureHealth { current: 1, max: 3 }.percentage(), 333);
}

#[test]
fn slow_multiplies_speed() {
    let mut speed = CreatureSpeed(40_000);
    speed.slow(300);
    assert_eq!(speed.0, 12_000);
    speed.slow(300);
    assert_eq!(speed.0, 3600);
    let mut tiny = CreatureSpeed(3);
    tiny.slow(300);
    assert_eq!(tiny.0, 0);
    let mut fast = CreatureSpeed(u32::MAX);
    fast.slow(2000);
    assert_eq!(fast.0, u32::MAX);
}
