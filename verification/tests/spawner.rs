use crimsonland::creatures::components::CreatureType;
use crimsonland::creatures::spawner::{
    calculate_spawn_position, draw_spawn_bearing, CreatureDefinition, CreatureRegistry,
    SpawnConfig,
};
use crimsonland::geometry::Vector;

fn v(x: i32, y: i32) -> Vector {
    Vector { x, y }
}

fn offset(angle: i64, distance: u32) -> Vector {
    let a = angle as f64 / 1_000_000.0;
    v((a.cos() * distance as f64).round() as i32, (a.sin() * distance as f64).round() as i32)
}

#[test]
fn creature_registry_initializes_with_creatures() {
    let registry = CreatureRegistry::new();
    assert!(!registry.definitions.is_empty());
}

#[test]
fn wave_1_has_basic_creatures() {
    let registry = CreatureRegistry::new();
    let available = registry.get_available_for_wave(1);
    assert!(!available.is_empty());

    let types: Vec<_> = available.iter().map(|d| d.creature_type).collect();
    assert!(types.contains(&CreatureType::Zombie));
    assert!(types.contains(&CreatureType::Spider));
}

#[test]
fn later_waves_have_more_creatures() {
    let registry = CreatureRegistry::new();
    let wave_1 = registry.get_available_for_wave(1);
    let wave_10 = registry.get_available_for_wave(10);
    assert!(wave_10.len() > wave_1.len());
}

#[test]
fn pick_random_returns_valid_creature() {
    let registry = CreatureRegistry::new();
    let creature = registry.pick_random_for_wave(5);
    assert!(creature.is_some());
}

#[test]
fn creature_spawning_respects_wave() {
    let registry = CreatureRegistry::new();
    for wave in 0..15 {
        for d in registry.get_available_for_wave(wave) {
            assert!(d.min_wave <= wave);
        }
        for _ in 0..30 {
            if let Some(creature) = registry.pick_random_for_wave(wave) {
                let d = registry.definitions.iter().find(|d| d.creature_type == creature).unwrap();
                assert!(d.min_wave <= wave);
            } else {
                assert_eq!(wave, 0);
            }
        }
    }
}

#[test]
fn spawn_position_is_within_bounds() {
    let config = SpawnConfig::default();
    for _ in 0..100 {
        let bearing = draw_spawn_bearing(&config);
        let pos = calculate_spawn_position(v(0, 0), offset(bearing.angle, bearing.distance), &config);
        assert!(pos.x.abs() <= config.arena_bounds.x);
        assert!(pos.y.abs() <= config.arena_bounds.y);
    }
}

#[test]
fn spawn_position_respects_min_distance() {
    let config = SpawnConfig {
        min_spawn_distance: 100_000,
        max_spawn_distance: 200_000,
        arena_bounds: v(1_000_000, 1_000_000),
    };
    let mut distances = std::collections::HashSet::new();
    for _ in 0..100 {
        let bearing = draw_spawn_bearing(&config);
        assert!(bearing.angle >= 0 && bearing.angle < 6_283_185);
        assert!(bearing.distance >= 100_000 && bearing.distance < 200_000);
        distances.insert(bearing.distance);
        let pos = calculate_spawn_position(v(0, 0), offset(bearing.angle, bearing.distance), &config);
        let distance = ((pos.x as f64).powi(2) + (pos.y as f64).powi(2)).sqrt();
        assert!(distance >= 50_000.0);
    }
    assert!(distances.len() > 1);
}

#[test]
fn built_in_definitions() {
    let registry = CreatureRegistry::new();
    assert_eq!(registry.definitions.len(), 15);
    assert_eq!(
        registry.definitions[0],
        CreatureDefinition { creature_type: CreatureType::Zombie, min_wave: 1, spawn_weight: 10 }
    );
    assert_eq!(
        registry.definitions[14],
        CreatureDefinition { creature_type: CreatureType::Turret, min_wave: 10, spawn_weight: 2 }
    );
    let counts: Vec<usize> = (0..14).map(|w| registry.get_available_for_wave(w).len()).collect();
    assert_eq!(counts, vec![0, 2, 4, 5, 6, 7, 9, 10, 12, 12, 14, 14, 15, 15]);
    assert_eq!(registry.total_weight_for_wave(0), 0);
    assert_eq!(registry.total_weight_for_wave(1), 18);
    assert_eq!(registry.total_weight_for_wave(12), 61);
    assert!(CreatureRegistry::default().definitions.is_empty());
}

#[test]
fn pick_for_wave_follows_the_weights() {
    let registry = CreatureRegistry::new();
    assert_eq!(registry.pick_for_wave(0, 0), None);
    assert_eq!(registry.pick_for_wave(1, 0), Some(CreatureType::Zombie));
    assert_eq!(registry.pick_for_wave(1, 9), Some(CreatureType::Zombie));
    assert_eq!(registry.pick_for_wave(1, 10), Some(CreatureType::Spider));
    assert_eq!(registry.pick_for_wave(1, 17), Some(CreatureType::Spider));
    assert_eq!(registry.pick_for_wave(1, 18), Some(CreatureType::Spider));
    assert_eq!(registry.pick_for_wave(3, 30), Some(CreatureType::Beetle));
    assert_eq!(registry.pick_for_wave(3, 31), Some(CreatureType::Dog));
    assert_eq!(registry.pick_for_wave(12, 60), Some(CreatureType::Turret));
    assert_eq!(registry.pick_for_wave(12, 58), Some(CreatureType::GiantSpider));
}

#[test]
fn weightless_definitions_are_never_picked() {
    let registry = CreatureRegistry {
        definitions: vec![
            CreatureDefinition { creature_type: CreatureType::Zombie, min_wave: 1, spawn_weight: 0 },
            CreatureDefinition { creature_type: CreatureType::Dog, min_wave: 1, spawn_weight: 0 },
        ],
    };
    assert_eq!(registry.pick_for_wave(1, 0), None);
    assert_eq!(registry.pick_random_for_wave(1), None);
    let mixed = CreatureRegistry {
        definitions: vec![
            CreatureDefinition { creature_type: CreatureType::Zombie, min_wave: 1, spawn_weight: 0 },
            CreatureDefinition { creature_type: CreatureType::Dog, min_wave: 1, spawn_weight: 3 },
        ],
    };
    for _ in 0..20 {
        assert_eq!(mixed.pick_random_for_wave(1), Some(CreatureType::Dog));
    }
}

#[test]
fn spawn_position_is_clamped() {
    let config = SpawnConfig::default();
    assert_eq!(calculate_spawn_position(v(700_000, -550_000), v(500_000, -100_000), &config), v(800_000, -600_000));
    assert_eq!(calculate_spawn_position(v(10, 20), v(5, 5), &config), v(15, 25));
    assert_eq!(calculate_spawn_position(v(i32::MAX, i32::MIN), v(i32::MAX, i32::MIN), &config), v(800_000, -600_000));
    let negative = SpawnConfig { arena_bounds: v(-5, -5), ..config };
    assert_eq!(calculate_spawn_position(v(10, 20), v(5, 5), &negative), v(0, 0));
    let point = SpawnConfig { min_spawn_distance: 7, max_spawn_distance: 7, ..config };
    assert_eq!(draw_spawn_bearing(&point).distance, 7);
}
