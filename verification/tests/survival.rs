use crimsonland::bonuses::components::BonusType;
use crimsonland::creatures::components::CreatureType;
use crimsonland::creatures::spawner::CreatureRegistry;
use crimsonland::geometry::Vector;
use crimsonland::player::components::Experience;
use crimsonland::creatures::systems::SpawnCreatureEvent;
use crimsonland::quests::builders::{QuestBuilder, SpawnCommand, SwarmBuilder};
use crimsonland::survival::{
    draw_edge_position, draw_weapon_drop_offset, edge_position, spawn_survival_creature,
    start_random_swarm, start_swarm, swarm_spawn, SurvivalState,
};

#[test]
fn survival_state_defaults() {
    let state = SurvivalState::default();
    assert_eq!(state.game_time, 0);
    assert_eq!(state.difficulty, 1000);
}

#[test]
fn spawn_interval_decreases_over_time() {
    let mut state = SurvivalState::default();
    let initial = state.spawn_interval();

    state.game_time = 60_000;
    let after_1_min = state.spawn_interval();

    state.game_time = 300_000;
    let after_5_min = state.spawn_interval();

    assert!(initial > after_1_min);
    assert!(after_1_min > after_5_min);
    assert_eq!((initial, after_1_min, after_5_min), (2000, 1600, 300));
}

#[test]
fn difficulty_scales_with_exp() {
    let mut state = SurvivalState::default();
    assert_eq!(state.calculate_difficulty(), 1000);

    state.total_exp = 1000;
    assert_eq!(state.calculate_difficulty(), 1500);

    state.total_exp = 2000;
    assert_eq!(state.calculate_difficulty(), 2000);
}

#[test]
fn more_creatures_available_over_time() {
    let mut state = SurvivalState::default();
    let initial = state.available_creatures().len();

    state.game_time = 120_000;
    let after_2_min = state.available_creatures().len();

    assert!(after_2_min > initial);
    assert_eq!((initial, after_2_min), (1, 9));
}

#[test]
fn spawn_interval_never_falls_below_the_minimum() {
    let mut state = SurvivalState { game_time: 255_000, ..SurvivalState::default() };
    assert_eq!(state.spawn_interval(), 300);
    state.game_time = 254_700;
    assert_eq!(state.spawn_interval(), 302);
    state.game_time = u32::MAX;
    assert_eq!(state.spawn_interval(), 300);
    state.base_spawn_interval = 0;
    state.game_time = 0;
    assert_eq!(state.spawn_interval(), 300);
    state.base_spawn_interval = u32::MAX;
    assert_eq!(state.spawn_interval(), u32::MAX);
}

#[test]
fn creatures_appear_after_their_time() {
    let at = |t: u32| SurvivalState { game_time: t, ..SurvivalState::default() }.available_creatures();
    assert_eq!(at(10_000), vec![CreatureType::Zombie]);
    assert_eq!(at(10_001), vec![CreatureType::Zombie, CreatureType::Spider]);
    assert_eq!(at(300_000).len(), 15);
    let all = at(300_001);
    assert_eq!(all.len(), 16);
    assert_eq!(all[6], CreatureType::Phantom);
    assert_eq!(all[15], CreatureType::BossAlien);
}

#[test]
fn pick_follows_the_weights() {
    let state = SurvivalState { game_time: 25_000, difficulty: 1000, ..SurvivalState::default() };
    assert_eq!(state.total_weight(), 3 * 10_000 + 2 * 11_000 + 12_000);
    assert_eq!(state.pick_for_roll(0), CreatureType::Zombie);
    assert_eq!(state.pick_for_roll(29_999), CreatureType::Zombie);
    assert_eq!(state.pick_for_roll(30_000), CreatureType::Spider);
    assert_eq!(state.pick_for_roll(51_999), CreatureType::Spider);
    assert_eq!(state.pick_for_roll(52_000), CreatureType::Beetle);
    assert_eq!(state.pick_for_roll(63_999), CreatureType::Beetle);
    assert_eq!(state.pick_for_roll(64_000), CreatureType::Zombie);
    let mut seen = std::collections::HashSet::new();
    for _ in 0..300 {
        let creature = state.pick_creature();
        assert!(state.available_creatures().contains(&creature));
        seen.insert(creature);
    }
    assert_eq!(seen.len(), 3);
}

#[test]
fn update_runs_the_timers_and_follows_the_experience() {
    let mut state = SurvivalState::default();
    state.update(16, None);
    assert_eq!(
        state,
        SurvivalState { game_time: 16, spawn_timer: 16, weapon_drop_timer: 16, swarm_timer: 16, ..SurvivalState::default() }
    );
    state.update(4, Some(Experience { current: 20, level: 3, to_next_level: 144 }));
    assert_eq!(state.game_time, 20);
    assert_eq!(state.total_exp, 220);
    assert_eq!(state.difficulty, 1110);
    state.update(u32::MAX, Some(Experience { current: u32::MAX, level: 0, to_next_level: 1 }));
    assert_eq!(state.game_time, u32::MAX);
    assert_eq!(state.total_exp, u32::MAX);
    assert_eq!(state.difficulty, 1000 + u32::MAX / 2);
}

#[test]
fn spawns_come_when_the_timer_reaches_the_interval() {
    let mut state = SurvivalState { spawn_timer: 1999, game_time: 31_000, ..SurvivalState::default() };
    assert_eq!(state.spawn_interval(), 1794);
    assert_eq!(state.take_spawn(), Some((1, 3)));
    assert_eq!(state.spawn_timer, 0);
    assert_eq!(state.take_spawn(), None);
    state.spawn_timer = 5000;
    state.difficulty = 4500;
    assert_eq!(state.take_spawn(), Some((3, 3)));
    state.spawn_timer = 5000;
    state.difficulty = 2000;
    assert_eq!(state.take_spawn(), Some((2, 3)));
    state.spawn_timer = 5000;
    state.difficulty = u32::MAX;
    assert_eq!(state.take_spawn(), Some((3, 3)));
}

#[test]
fn kills_are_counted() {
    let mut state = SurvivalState::default();
    state.track_kill();
    state.track_kill();
    assert_eq!(state.kills, 2);
    state.kills = u32::MAX;
    state.track_kill();
    assert_eq!(state.kills, u32::MAX);
}

#[test]
fn weapons_drop_every_half_minute() {
    let mut state = SurvivalState { weapon_drop_timer: 29_999, ..SurvivalState::default() };
    assert_eq!(state.take_weapon_drop(Vector { x: 0, y: 0 }, Vector { x: 5, y: 5 }), None);
    state.weapon_drop_timer = 30_000;
    let event = state.take_weapon_drop(Vector { x: 10, y: -10 }, Vector { x: 5, y: 5 }).unwrap();
    assert_eq!(event.bonus_type, BonusType::WeaponPickup);
    assert_eq!(event.position, Vector { x: 15, y: -5 });
    assert_eq!(state.weapon_drop_timer, 0);
}

#[test]
fn swarms_are_chosen_by_time_and_rolls() {
    let mut early = SurvivalState { game_time: 60_000, swarm_timer: 60_000, difficulty: 2500, ..SurvivalState::default() };
    assert!(early.is_swarm_due());
    match start_swarm(&mut early, CreatureType::Spider, 0, 0, 0) {
        QuestBuilder::Swarm(b) => {
            assert_eq!(b, SwarmBuilder::new(CreatureType::Spider, 4, 5).with_burst_interval(2000));
        }
        other => panic!("{}", other.name()),
    }
    assert_eq!(early.swarm_timer, 0);
    assert!(!early.is_swarm_due());

    let mut middle = SurvivalState { game_time: 100_000, difficulty: 3000, ..SurvivalState::default() };
    match start_swarm(&mut middle, CreatureType::Dog, 0, 499, 0) {
        QuestBuilder::Timed(b) => {
            assert_eq!(b.creatures, vec![CreatureType::Dog; 14]);
            assert_eq!(b.spawn_interval, 300);
        }
        other => panic!("{}", other.name()),
    }
    assert_eq!(start_swarm(&mut middle, CreatureType::Dog, 0, 500, 0).name(), "SwarmBuilder");

    let mut late = SurvivalState { game_time: 200_000, difficulty: 9000, ..SurvivalState::default() };
    match start_swarm(&mut late, CreatureType::Dog, 299, 0, 1) {
        QuestBuilder::Boss(b) => {
            assert_eq!(b.minions, vec![CreatureType::Dog; 12]);
            assert_eq!(b.boss, CreatureType::BossAlien);
            assert_eq!(b.minion_interval, 300);
            assert_eq!(b.boss_delay, 2000);
        }
        other => panic!("{}", other.name()),
    }
    assert_eq!(start_swarm(&mut late, CreatureType::Dog, 300, 0, 1).name(), "TimedWaveBuilder");
    assert_eq!(start_swarm(&mut late, CreatureType::Dog, 300, 500, 1).name(), "SwarmBuilder");
    let young = SurvivalState { game_time: 30_000, swarm_timer: 90_000, ..SurvivalState::default() };
    assert!(!young.is_swarm_due());
}

#[test]
fn spawned_creatures_fit_the_wave_or_the_time() {
    let registry = CreatureRegistry::new();
    let state = SurvivalState { game_time: 0, ..SurvivalState::default() };
    for _ in 0..50 {
        let creature = spawn_survival_creature(&state, &registry);
        assert!(creature == CreatureType::Zombie || creature == CreatureType::Spider);
    }
    let empty = CreatureRegistry::default();
    for _ in 0..20 {
        assert_eq!(spawn_survival_creature(&state, &empty), CreatureType::Zombie);
    }
}

#[test]
fn random_swarms_are_swarms_of_the_time() {
    for _ in 0..200 {
        let mut state = SurvivalState {
            game_time: 200_000,
            swarm_timer: 70_000,
            difficulty: 3000,
            ..SurvivalState::default()
        };
        let known = state.available_creatures();
        let before = state;
        let builder = start_random_swarm(&mut state);
        assert_eq!(state, SurvivalState { swarm_timer: 0, ..before });
        match builder {
            QuestBuilder::Boss(b) => {
                assert_eq!(b.minions.len(), 8);
                assert!(b.minions.iter().all(|c| *c == b.minions[0] && known.contains(c)));
                assert!(b.boss.is_boss());
                assert_eq!((b.minion_interval, b.boss_delay), (300, 2000));
                assert_eq!((b.minion_index, b.boss_spawned), (0, false));
            }
            QuestBuilder::Timed(b) => {
                assert_eq!(b.creatures.len(), 14);
                assert!(b.creatures.iter().all(|c| *c == b.creatures[0] && known.contains(c)));
                assert_eq!((b.spawn_interval, b.current_index, b.spawned_all), (300, 0, false));
            }
            QuestBuilder::Swarm(b) => {
                assert!(known.contains(&b.creature_type));
                assert_eq!(b, SwarmBuilder::new(b.creature_type, 5, 6).with_burst_interval(2000));
            }
        }
    }
    let mut early = SurvivalState { game_time: 40_000, difficulty: 1000, ..SurvivalState::default() };
    for _ in 0..50 {
        assert_eq!(start_random_swarm(&mut early).name(), "SwarmBuilder");
    }
}

#[test]
fn swarm_edges() {
    assert_eq!(edge_position(0, 5, 7), Vector { x: 5, y: 400_000 });
    assert_eq!(edge_position(1, 5, 7), Vector { x: 5, y: -400_000 });
    assert_eq!(edge_position(2, 5, 7), Vector { x: -600_000, y: 7 });
    assert_eq!(edge_position(3, 5, 7), Vector { x: 600_000, y: 7 });
    assert_eq!(edge_position(9, -5, -7), Vector { x: 600_000, y: -7 });
    let mut seen = [false; 4];
    for _ in 0..400 {
        let p = draw_edge_position();
        assert!((-600_000..=600_000).contains(&p.x) && (-400_000..=400_000).contains(&p.y));
        let on = [p.y == 400_000, p.y == -400_000, p.x == -600_000, p.x == 600_000];
        assert!(on.iter().any(|b| *b));
        for (s, o) in seen.iter_mut().zip(on) {
            *s = *s || o;
        }
    }
    assert_eq!(seen, [true; 4]);
}

#[test]
fn swarm_spawns_keep_a_named_place() {
    let edge = Vector { x: 600_000, y: 12 };
    let anywhere = SpawnCommand { creature_type: CreatureType::Dog, position: None, delay: 0 };
    assert_eq!(
        swarm_spawn(&anywhere, edge),
        SpawnCreatureEvent { creature_type: CreatureType::Dog, position: Some(edge) }
    );
    let named = SpawnCommand { position: Some(Vector { x: 1, y: 2 }), delay: 700, ..anywhere };
    assert_eq!(
        swarm_spawn(&named, edge),
        SpawnCreatureEvent { creature_type: CreatureType::Dog, position: Some(Vector { x: 1, y: 2 }) }
    );
}

#[test]
fn weapon_drops_land_near_the_player() {
    let mut moved = false;
    for _ in 0..200 {
        let offset = draw_weapon_drop_offset();
        assert!((-100_000..100_000).contains(&offset.x));
        assert!((-100_000..100_000).contains(&offset.y));
        moved = moved || offset != Vector { x: 0, y: 0 };
    }
    assert!(moved);
}
