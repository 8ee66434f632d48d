use crimsonland::creatures::components::CreatureType;
use crimsonland::perks::classic::{PerkBonuses, PerkId, PerkInventory};
use crimsonland::rush::{
    apply_loadout_to_player, available_loadouts, draw_spawn_count, handle_rush_kill,
    loadout_weapon, RushLoadout, RushScoreEvent, RushState, ScoreSource,
};
use crimsonland::weapons::components::{EquippedWeapon, WeaponId};

fn kill(creature: CreatureType) -> RushScoreEvent {
    handle_rush_kill(creature)
}

#[test]
fn rush_state_defaults() {
    let state = RushState::default();
    assert_eq!(state.round_duration, 120_000);
    assert_eq!(state.score, 0);
    assert!(!state.round_over);
}

#[test]
fn streak_multiplier_increases() {
    let mut state = RushState::default();
    assert_eq!(state.streak_multiplier(), 1000);

    state.kill_streak = 5;
    assert_eq!(state.streak_multiplier(), 1500);

    state.kill_streak = 10;
    assert_eq!(state.streak_multiplier(), 2000);

    state.kill_streak = 50;
    assert_eq!(state.streak_multiplier(), 5000);
}

#[test]
fn creature_scores_vary() {
    assert!(RushState::creature_score(CreatureType::Giant) > RushState::creature_score(CreatureType::Zombie));
    assert!(RushState::creature_score(CreatureType::BossNest) > RushState::creature_score(CreatureType::Giant));
}

#[test]
fn loadouts_have_three_perks() {
    for loadout in available_loadouts() {
        assert_eq!(loadout.perks.len(), 3);
    }
}

#[test]
fn apply_loadout_adds_perks() {
    let loadout = RushLoadout::default();
    let mut inventory = PerkInventory::new();

    let bonuses = apply_loadout_to_player(&loadout, &mut inventory);

    for perk_id in &loadout.perks {
        assert!(inventory.has_perk(*perk_id));
    }
    assert_eq!(bonuses, PerkBonuses::calculate(&inventory));
    assert_eq!(bonuses.fire_rate_multiplier, 1150);
    assert_eq!(bonuses.accuracy_bonus, 200);
    assert_eq!(bonuses.range_multiplier, 1200);
    assert_eq!(inventory.total_perks(), 3);
}

#[test]
fn loadouts_on_offer() {
    let loadouts = available_loadouts();
    let names: Vec<&str> = loadouts.iter().map(|l| l.name.as_str()).collect();
    assert_eq!(names, vec!["Assault", "Shotgunner", "Heavy", "Demolition", "Plasma"]);
    let weapons: Vec<WeaponId> = loadouts.iter().map(|l| l.weapon).collect();
    assert_eq!(
        weapons,
        vec![
            WeaponId::AssaultRifle,
            WeaponId::Shotgun,
            WeaponId::Minigun,
            WeaponId::RocketLauncher,
            WeaponId::PlasmaRifle,
        ]
    );
    assert_eq!(loadouts[3].perks, vec![PerkId::Pyromaniac, PerkId::FastReload, PerkId::ThickSkin]);
    assert_eq!(loadouts[4].perks, vec![PerkId::TriggerHappy, PerkId::DeadlyAccuracy, PerkId::CriticalHit]);
    let first = RushLoadout::default();
    assert_eq!(first.name, "Assault");
    assert_eq!(first.perks, loadouts[0].perks);
    assert_eq!(loadout_weapon(&first), EquippedWeapon::new(WeaponId::AssaultRifle, Some(200)));
}

#[test]
fn streak_multiplier_steps() {
    let mut state = RushState::default();
    let expect = [(0, 1000), (4, 1000), (5, 1500), (9, 1500), (10, 2000), (19, 2000), (20, 3000), (49, 3000), (50, 5000), (u32::MAX, 5000)];
    for (streak, factor) in expect {
        state.kill_streak = streak;
        assert_eq!(state.streak_multiplier(), factor);
    }
    assert_eq!(state.spawn_interval(), 500);
}

#[test]
fn creature_score_table() {
    assert_eq!(RushState::creature_score(CreatureType::Zombie), 10);
    assert_eq!(RushState::creature_score(CreatureType::Phantom), 45);
    assert_eq!(RushState::creature_score(CreatureType::Runner), 30);
    assert_eq!(RushState::creature_score(CreatureType::BossNest), 1000);
    assert_eq!(kill(CreatureType::Giant), RushScoreEvent { points: 100, source: ScoreSource::Kill(CreatureType::Giant) });
}

#[test]
fn kills_score_with_the_streak_as_it_stood() {
    let mut state = RushState::default();
    for _ in 0..5 {
        state.track_score(kill(CreatureType::Zombie));
    }
    assert_eq!(state.score, 50);
    assert_eq!(state.kill_streak, 5);
    state.track_score(kill(CreatureType::Zombie));
    assert_eq!(state.score, 65);
    assert_eq!(state.total_kills, 6);
}

#[test]
fn milestones_earn_a_combo_bonus() {
    let mut state = RushState::default();
    state.kill_streak = 9;
    state.streak_timer = 1500;
    state.track_score(kill(CreatureType::Zombie));
    assert_eq!(state.kill_streak, 10);
    assert_eq!(state.streak_timer, 0);
    assert_eq!(state.score, 15 + 150);
    state.kill_streak = 24;
    state.score = 0;
    state.track_score(kill(CreatureType::Giant));
    assert_eq!(state.score, 300 + 750);
    state.kill_streak = 99;
    state.score = 0;
    state.track_score(kill(CreatureType::Zombie));
    assert_eq!(state.score, 50 + 5000);
    state.score = 0;
    state.track_score(kill(CreatureType::Zombie));
    assert_eq!(state.score, 50);
}

#[test]
fn time_bonus_does_not_touch_the_streak() {
    let mut state = RushState::default();
    state.kill_streak = 7;
    state.streak_timer = 900;
    state.track_score(RushScoreEvent { points: 100, source: ScoreSource::TimeBonus });
    assert_eq!(state.score, 150);
    assert_eq!(state.kill_streak, 7);
    assert_eq!(state.streak_timer, 900);
    assert_eq!(state.total_kills, 0);
    state.score = u32::MAX - 1;
    state.track_score(RushScoreEvent { points: 100, source: ScoreSource::TimeBonus });
    assert_eq!(state.score, u32::MAX);
}

#[test]
fn timer_runs_and_breaks_the_streak() {
    let mut state = RushState::new(10_000, RushLoadout::default());
    state.kill_streak = 3;
    state.update_timer(2000);
    assert_eq!(state.time_remaining, 8000);
    assert_eq!(state.spawn_timer, 2000);
    assert_eq!(state.kill_streak, 3);
    state.update_timer(1);
    assert_eq!(state.kill_streak, 0);
    assert!(!state.round_over);
    state.update_timer(7999);
    assert_eq!(state.time_remaining, 0);
    assert!(state.round_over);
    state.update_timer(1000);
    assert_eq!(state.spawn_timer, 10_000);
    assert_eq!(state.time_remaining, 0);
}

#[test]
fn round_end_is_handled_once() {
    let mut state = RushState::new(10_000, RushLoadout::default());
    assert_eq!(state.handle_round_end(), None);
    assert_eq!(state.time_remaining, 10_000);
    state.update_timer(10_000);
    assert_eq!(state.calculate_time_bonus(), 0);
    assert_eq!(state.handle_round_end(), None);
    assert!(!state.round_over);
    assert_eq!(state.time_remaining, -1);
    assert_eq!(state.handle_round_end(), None);
    let mut early = RushState::new(10_000, RushLoadout::default());
    early.time_remaining = 4500;
    early.round_over = true;
    assert_eq!(early.calculate_time_bonus(), 45);
    assert_eq!(
        early.handle_round_end(),
        Some(RushScoreEvent { points: 45, source: ScoreSource::TimeBonus })
    );
    assert_eq!(early.time_remaining, -1);
}

#[test]
fn spawns_come_every_half_second() {
    let mut state = RushState::default();
    assert!(!state.take_spawn());
    state.update_timer(499);
    assert!(!state.take_spawn());
    state.update_timer(1);
    assert!(state.take_spawn());
    assert_eq!(state.spawn_timer, 0);
    state.spawn_timer = 900;
    state.round_over = true;
    assert!(!state.take_spawn());
    for _ in 0..50 {
        let count = draw_spawn_count();
        assert!((2..=4).contains(&count));
    }
}

#[test]
fn harder_creatures_come_later() {
    let mut state = RushState::default();
    assert_eq!(
        state.available_creatures(),
        vec![CreatureType::Zombie, CreatureType::Spider, CreatureType::Beetle]
    );
    state.time_remaining = 90_000;
    assert_eq!(state.available_creatures().len(), 5);
    state.time_remaining = 60_000;
    let third = state.available_creatures();
    assert_eq!(third.len(), 7);
    assert_eq!(third[6], CreatureType::Phantom);
    assert!(!third.contains(&CreatureType::Beetle));
    state.time_remaining = 30_000;
    let last = state.available_creatures();
    assert_eq!(last.len(), 10);
    assert_eq!(last[9], CreatureType::Exploder);
    state.time_remaining = -1;
    assert_eq!(state.available_creatures().len(), 10);
    state.time_remaining = i32::MAX;
    assert_eq!(state.available_creatures().len(), 3);
    let mut seen = std::collections::HashSet::new();
    for _ in 0..200 {
        let creature = state.pick_creature();
        assert!(state.available_creatures().contains(&creature));
        seen.insert(creature);
    }
    assert_eq!(seen.len(), 3);
}

#[test]
fn long_rounds() {
    let state = RushState::new(u32::MAX, RushLoadout::default());
    assert_eq!(state.time_remaining, i32::MAX);
    assert_eq!(state.round_duration, u32::MAX);
}

#[test]
fn creature_at_a_place_of_the_roster() {
    let mut state = RushState::default();
    assert_eq!(state.creature_at(0), CreatureType::Zombie);
    assert_eq!(state.creature_at(1), CreatureType::Spider);
    assert_eq!(state.creature_at(2), CreatureType::Beetle);
    assert_eq!(state.creature_at(3), CreatureType::Zombie);
    state.time_remaining = 30_000;
    assert_eq!(state.creature_at(2), CreatureType::Runner);
    assert_eq!(state.creature_at(6), CreatureType::AlienShooter);
    assert_eq!(state.creature_at(9), CreatureType::Exploder);
    assert_eq!(state.creature_at(10), CreatureType::Zombie);
    assert_eq!(state.creature_at(usize::MAX), CreatureType::Zombie);
}
