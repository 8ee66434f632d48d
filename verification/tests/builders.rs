use crimsonland::creatures::components::CreatureType;
use crimsonland::geometry::Vector;
use crimsonland::quests::builders::{
    create_standard_builder, create_wave_builder, expand_counts, repeat_creature,
    BossWaveBuilder, QuestBuilder, SpawnCommand, SwarmBuilder, TimedWaveBuilder, WaveType,
};

fn types(commands: &[SpawnCommand]) -> Vec<CreatureType> {
    commands.iter().map(|c| c.creature_type).collect()
}

#[test]
fn spawn_command_immediate() {
    let cmd = SpawnCommand::immediate(CreatureType::Zombie);
    assert_eq!(cmd.creature_type, CreatureType::Zombie);
    assert!(cmd.position.is_none());
    assert_eq!(cmd.delay, 0);
}

#[test]
fn spawn_command_at_position() {
    let pos = Vector { x: 100_000, y: 200_000 };
    let cmd = SpawnCommand::at_position(CreatureType::Spider, pos);
    assert_eq!(cmd.creature_type, CreatureType::Spider);
    assert_eq!(cmd.position, Some(pos));
}

#[test]
fn spawn_command_delayed() {
    let cmd = SpawnCommand::delayed(CreatureType::Phantom, 2500);
    assert_eq!(cmd.creature_type, CreatureType::Phantom);
    assert!(cmd.position.is_none());
    assert_eq!(cmd.delay, 2500);
}

#[test]
fn timed_wave_builder_spawns_all() {
    let creatures = vec![CreatureType::Zombie, CreatureType::Spider, CreatureType::Beetle];
    let mut builder = TimedWaveBuilder::new(creatures, 100);

    assert!(!builder.is_complete());

    let mut total_spawned = 0;
    for _ in 0..50 {
        let commands = builder.update(100);
        total_spawned += commands.len();
        if builder.is_complete() {
            break;
        }
    }

    assert!(builder.is_complete());
    assert_eq!(total_spawned, 3);
}

#[test]
fn boss_wave_builder_spawns_boss_last() {
    let minions = vec![CreatureType::Zombie, CreatureType::Zombie];
    let mut builder = BossWaveBuilder::new(minions, CreatureType::BossSpider)
        .with_minion_interval(100)
        .with_boss_delay(100);

    assert!(!builder.is_complete());

    let mut spawned_types = Vec::new();
    for _ in 0..50 {
        let commands = builder.update(100);
        for cmd in commands {
            spawned_types.push(cmd.creature_type);
        }
        if builder.is_complete() {
            break;
        }
    }

    assert!(builder.is_complete());
    assert_eq!(spawned_types.len(), 3);
    assert_eq!(*spawned_types.last().unwrap(), CreatureType::BossSpider);
}

#[test]
fn swarm_builder_spawns_in_bursts() {
    let mut builder = SwarmBuilder::new(CreatureType::Spider, 2, 5).with_burst_interval(100);

    assert!(!builder.is_complete());

    let mut burst_sizes = Vec::new();
    for _ in 0..50 {
        let commands = builder.update(100);
        if !commands.is_empty() {
            burst_sizes.push(commands.len());
        }
        if builder.is_complete() {
            break;
        }
    }

    assert!(builder.is_complete());
    assert_eq!(burst_sizes.len(), 2);
    assert!(burst_sizes.iter().all(|&s| s == 5));
}

#[test]
fn create_wave_builder_standard() {
    let mut builder = create_wave_builder(WaveType::Standard, CreatureType::Zombie, 3, None);
    assert!(!builder.is_complete());

    let mut total = 0;
    for _ in 0..50 {
        total += builder.update(500).len();
        if builder.is_complete() {
            break;
        }
    }
    assert!(builder.is_complete());
    assert_eq!(total, 3);
}

#[test]
fn create_wave_builder_swarm() {
    let mut builder = create_wave_builder(
        WaveType::Swarm { bursts: 2, per_burst: 4 },
        CreatureType::Spider,
        8,
        None,
    );
    assert!(!builder.is_complete());

    let mut total = 0;
    for _ in 0..50 {
        total += builder.update(2500).len();
        if builder.is_complete() {
            break;
        }
    }
    assert!(builder.is_complete());
    assert_eq!(total, 8);
}

#[test]
fn create_wave_builder_boss() {
    let mut builder = create_wave_builder(
        WaveType::Boss,
        CreatureType::Zombie,
        2,
        Some(CreatureType::BossAlien),
    );
    assert!(!builder.is_complete());

    let mut seen = Vec::new();
    for _ in 0..100 {
        for cmd in builder.update(500) {
            seen.push(cmd.creature_type);
        }
        if builder.is_complete() {
            break;
        }
    }
    assert!(builder.is_complete());
    assert_eq!(*seen.last().unwrap(), CreatureType::BossAlien);
    assert_eq!(seen, vec![CreatureType::Zombie, CreatureType::Zombie, CreatureType::BossAlien]);
}

#[test]
fn timed_builder_releases_one_per_interval_in_order() {
    let creatures = vec![
        CreatureType::Zombie,
        CreatureType::Spider,
        CreatureType::Beetle,
        CreatureType::Dog,
        CreatureType::Giant,
    ];
    let mut builder = TimedWaveBuilder::new(creatures, 100);
    assert!(builder.update(99).is_empty());
    assert_eq!(builder.timer, 99);
    assert_eq!(types(&builder.update(1)), vec![CreatureType::Zombie]);
    assert_eq!(builder.timer, 0);
    assert_eq!(types(&builder.update(250)), vec![CreatureType::Spider, CreatureType::Beetle]);
    assert_eq!(builder.timer, 50);
    assert_eq!(builder.current_index, 3);
    assert!(!builder.is_complete());
    assert_eq!(types(&builder.update(1000)), vec![CreatureType::Dog, CreatureType::Giant]);
    assert_eq!(builder.timer, 850);
    assert!(builder.is_complete());
    assert!(builder.update(1000).is_empty());
    assert_eq!(builder.timer, 850);
    assert_eq!(builder.name(), "TimedWaveBuilder");
}

#[test]
fn timed_builder_without_interval_releases_all_at_once() {
    let mut builder = TimedWaveBuilder::new(repeat_creature(CreatureType::Dog, 4), 0);
    assert_eq!(builder.update(0).len(), 4);
    assert!(builder.is_complete());
    let mut empty = TimedWaveBuilder::new(Vec::new(), 100);
    assert!(!empty.is_complete());
    assert!(empty.update(0).is_empty());
    assert!(empty.is_complete());
}

#[test]
fn timer_stops_at_the_top() {
    let mut builder = TimedWaveBuilder::new(repeat_creature(CreatureType::Dog, 2), u32::MAX);
    builder.timer = u32::MAX - 5;
    assert_eq!(builder.update(100).len(), 1);
    assert_eq!(builder.timer, 0);
}

#[test]
fn boss_builder_waits_for_the_delay_after_the_last_minion() {
    let mut builder = BossWaveBuilder::new(repeat_creature(CreatureType::Zombie, 2), CreatureType::BossNest);
    assert_eq!(builder.minion_interval, 500);
    assert_eq!(builder.boss_delay, 2000);
    assert_eq!(types(&builder.update(1200)), vec![CreatureType::Zombie, CreatureType::Zombie]);
    assert_eq!(builder.timer, 200);
    assert_eq!(builder.boss_timer, 0);
    assert!(builder.update(1999).is_empty());
    assert_eq!(builder.boss_timer, 1999);
    assert_eq!(builder.timer, 200);
    assert!(!builder.is_complete());
    assert_eq!(types(&builder.update(1)), vec![CreatureType::BossNest]);
    assert!(builder.is_complete());
    assert!(builder.update(5000).is_empty());
    assert_eq!(builder.name(), "BossWaveBuilder");
    let mut lone = BossWaveBuilder::new(Vec::new(), CreatureType::BossSpider).with_boss_delay(0);
    assert_eq!(types(&lone.update(0)), vec![CreatureType::BossSpider]);
}

#[test]
fn swarm_builder_resets_its_timer_with_each_burst() {
    let mut builder = SwarmBuilder::new(CreatureType::Spider, 2, 3);
    assert_eq!(builder.burst_interval, 3000);
    assert!(builder.update(2999).is_empty());
    assert_eq!(builder.timer, 2999);
    assert_eq!(builder.update(5000).len(), 3);
    assert_eq!(builder.timer, 0);
    assert_eq!(builder.current_burst, 1);
    assert_eq!(builder.update(3000).len(), 3);
    assert!(builder.is_complete());
    assert!(builder.update(9000).is_empty());
    assert_eq!(builder.timer, 0);
    assert_eq!(builder.name(), "SwarmBuilder");
    let none = SwarmBuilder::new(CreatureType::Spider, 0, 3);
    assert!(none.is_complete());
}

#[test]
fn standard_builder_expands_the_counts() {
    let entries = vec![(CreatureType::Zombie, 2), (CreatureType::Dog, 0), (CreatureType::Spider, 1)];
    assert_eq!(
        expand_counts(&entries),
        vec![CreatureType::Zombie, CreatureType::Zombie, CreatureType::Spider]
    );
    match create_standard_builder(&entries, None) {
        QuestBuilder::Timed(b) => {
            assert_eq!(b.creatures.len(), 3);
            assert_eq!(b.spawn_interval, 500);
        }
        other => panic!("{}", other.name()),
    }
    match create_standard_builder(&entries, Some(CreatureType::BossAlien)) {
        QuestBuilder::Boss(b) => {
            assert_eq!(b.minions.len(), 3);
            assert_eq!(b.boss, CreatureType::BossAlien);
            assert_eq!(b.minion_interval, 400);
            assert_eq!(b.boss_delay, 3000);
        }
        other => panic!("{}", other.name()),
    }
}

#[test]
fn wave_builders_by_type() {
    match create_wave_builder(WaveType::Boss, CreatureType::Zombie, 2, None) {
        QuestBuilder::Boss(b) => {
            assert_eq!(b.boss, CreatureType::BossSpider);
            assert_eq!(b.minion_interval, 300);
            assert_eq!(b.boss_delay, 2000);
        }
        other => panic!("{}", other.name()),
    }
    match create_wave_builder(WaveType::Swarm { bursts: 3, per_burst: 7 }, CreatureType::Dog, 0, None) {
        QuestBuilder::Swarm(b) => {
            assert_eq!(b, SwarmBuilder::new(CreatureType::Dog, 3, 7).with_burst_interval(2500));
        }
        other => panic!("{}", other.name()),
    }
    let standard = create_wave_builder(WaveType::Standard, CreatureType::Zombie, 3, None);
    assert_eq!(standard.name(), "TimedWaveBuilder");
}
