use crimsonland::perks::components::{ModifierSet, PerkBonuses, PerkId, PerkInventory};

#[test]
fn perk_inventory_starts_empty() {
    let inv = PerkInventory::new();
    assert_eq!(inv.total_perks(), 0);
}

#[test]
fn perk_inventory_add_perk() {
    let mut inv = PerkInventory::new();
    inv.add_perk(PerkId::Regeneration);
    assert!(inv.has_perk(PerkId::Regeneration));
    assert_eq!(inv.get_count(PerkId::Regeneration), 1);
}

#[test]
fn perk_inventory_perks_stack() {
    let mut inv = PerkInventory::new();
    inv.add_perk(PerkId::Regeneration);
    inv.add_perk(PerkId::Regeneration);
    inv.add_perk(PerkId::Regeneration);
    assert_eq!(inv.get_count(PerkId::Regeneration), 3);
}

#[test]
fn perk_inventory_total_perks() {
    let mut inv = PerkInventory::new();
    inv.add_perk(PerkId::Regeneration);
    inv.add_perk(PerkId::Dodger);
    inv.add_perk(PerkId::Dodger);
    assert_eq!(inv.total_perks(), 3);
}

#[test]
fn perk_bonuses_regen_scales_with_count() {
    let mut inv = PerkInventory::new();
    let bonuses = PerkBonuses::calculate(&inv);
    assert_eq!(bonuses.regen_per_second, 0);

    inv.add_perk(PerkId::Regeneration);
    let bonuses = PerkBonuses::calculate(&inv);
    assert_eq!(bonuses.regen_per_second, 2000);

    inv.add_perk(PerkId::Regeneration);
    let bonuses = PerkBonuses::calculate(&inv);
    assert_eq!(bonuses.regen_per_second, 4000);
}

#[test]
fn perk_bonuses_dodge_ninja_overrides_dodger() {
    let mut inv = PerkInventory::new();
    inv.add_perk(PerkId::Dodger);
    let bonuses = PerkBonuses::calculate(&inv);
    assert_eq!(bonuses.dodge_chance, 200);

    inv.add_perk(PerkId::Ninja);
    let bonuses = PerkBonuses::calculate(&inv);
    assert_eq!(bonuses.dodge_chance, 333);
}

#[test]
fn perk_bonuses_speed_stacks() {
    let mut inv = PerkInventory::new();
    inv.add_perk(PerkId::LongDistanceRunner);
    inv.add_perk(PerkId::LongDistanceRunner);
    let bonuses = PerkBonuses::calculate(&inv);
    assert_eq!(bonuses.speed_multiplier, 1800);
}

#[test]
fn perk_choices_increase_with_expert_master() {
    let mut inv = PerkInventory::new();
    assert_eq!(PerkId::perk_choice_count(&inv), 4);

    inv.add_perk(PerkId::PerkExpert);
    assert_eq!(PerkId::perk_choice_count(&inv), 6);

    inv.add_perk(PerkId::PerkMaster);
    assert_eq!(PerkId::perk_choice_count(&inv), 7);
}

#[test]
fn no_perks_give_the_base_bonuses() {
    let bonuses = PerkBonuses::calculate(&PerkInventory::new());
    assert_eq!(bonuses, PerkBonuses::default());
    assert_eq!(bonuses.damage_multiplier, 1000);
    assert_eq!(bonuses.fire_rate_multiplier, 1000);
    assert_eq!(bonuses.accuracy_bonus, 0);
    assert_eq!(bonuses.crit_chance, 0);
    assert_eq!(bonuses.crit_multiplier, 2000);
    assert_eq!(bonuses.range_multiplier, 1000);
    assert_eq!(bonuses.ammo_multiplier, 1000);
    assert_eq!(bonuses.perk_choices, 4);
    assert_eq!(bonuses.clip_size_bonus, 0);
    assert!(!bonuses.show_creature_health);
}

#[test]
fn damage_perks_multiply() {
    let mut inv = PerkInventory::new();
    inv.add_perk(PerkId::UraniumFilledBullets);
    assert_eq!(PerkBonuses::calculate(&inv).damage_multiplier, 2000);
    inv.add_perk(PerkId::Doctor);
    assert_eq!(PerkBonuses::calculate(&inv).damage_multiplier, 2400);
    inv.add_perk(PerkId::BarrelGreaser);
    let bonuses = PerkBonuses::calculate(&inv);
    assert_eq!(bonuses.damage_multiplier, 3360);
    assert_eq!(bonuses.range_multiplier, 1300);
    assert_eq!(bonuses.projectile_speed_multiplier, 1300);
    assert!(bonuses.show_creature_health);
    assert_eq!(PerkBonuses::calculate(&PerkInventory::with_perk(PerkId::BarrelGreaser)).damage_multiplier, 1400);
    assert_eq!(PerkBonuses::calculate(&PerkInventory::with_perk(PerkId::Doctor)).damage_multiplier, 1200);
}

#[test]
fn stacking_a_damage_perk_counts_once() {
    let mut inv = PerkInventory::new();
    inv.add_perk(PerkId::UraniumFilledBullets);
    inv.add_perk(PerkId::UraniumFilledBullets);
    assert_eq!(PerkBonuses::calculate(&inv).damage_multiplier, 2000);
}

#[test]
fn accuracy_and_fire_rate_perks() {
    let sharp = PerkBonuses::calculate(&PerkInventory::with_perk(PerkId::Sharpshooter));
    assert_eq!(sharp.accuracy_bonus, 500);
    assert_eq!(sharp.spread_multiplier, 500);
    let fast = PerkBonuses::calculate(&PerkInventory::with_perk(PerkId::Fastshot));
    assert_eq!(fast.fire_rate_multiplier, 1136);
}

#[test]
fn defense_and_utility_perks() {
    let thick = PerkBonuses::calculate(&PerkInventory::with_perk(PerkId::ThickSkinned));
    assert_eq!(thick.max_health_multiplier, 667);
    assert_eq!(thick.damage_taken_multiplier, 667);
    assert_eq!(thick.damage_reduction, 333);
    let mut inv = PerkInventory::new();
    inv.add_perk(PerkId::Regeneration);
    inv.add_perk(PerkId::GreaterRegeneration);
    assert_eq!(PerkBonuses::calculate(&inv).regen_per_second, 7000);
    let vision = PerkBonuses::calculate(&PerkInventory::with_perk(PerkId::MonsterVision));
    assert!(vision.monster_vision && vision.show_creature_health);
    let favourite = PerkBonuses::calculate(&PerkInventory::with_perk(PerkId::MyFavouriteWeapon));
    assert_eq!(favourite.clip_size_bonus, 2);
    assert!(favourite.disable_weapon_bonuses);
    let bloody = PerkBonuses::calculate(&PerkInventory::with_perk(PerkId::BloodyMess));
    assert_eq!(bloody.exp_multiplier, 1300);
    let tele = PerkBonuses::calculate(&PerkInventory::with_perk(PerkId::Telekinetic));
    assert_eq!(tele.telekinetic_range, 200_000);
    let melee = PerkBonuses::calculate(&PerkInventory::with_perk(PerkId::MrMelee));
    assert_eq!(melee.melee_counter_damage, 25_000);
    let reflex = PerkBonuses::calculate(&PerkInventory::with_perk(PerkId::ReflexBoosted));
    assert_eq!(reflex.time_scale, 900);
}

#[test]
fn every_flag_follows_its_perk() {
    let all = PerkId::all();
    let mut inv = PerkInventory::new();
    for perk in &all {
        inv.add_perk(*perk);
    }
    let b = PerkBonuses::calculate(&inv);
    assert!(b.unstoppable && b.regression_bullets && b.ammunition_within && b.anxious_loader);
    assert!(b.poison_on_contact && b.toxic_avenger && b.radioactive_aura && b.pyrokinetic_aura);
    assert!(b.hot_tempered && b.fire_cough && b.man_bomb && b.angry_reloader);
    assert!(b.alternate_weapon && b.final_revenge && b.death_clock && b.plaguebearer);
    assert!(b.evil_eyes && b.jinxed && b.living_fortress && b.disable_weapon_bonuses);
    assert_eq!(b.perk_choices, 7);
    assert_eq!(b.dodge_chance, 333);
    assert_eq!(b.speed_multiplier, 1400);
    assert_eq!(b.passive_xp_per_second, 4000);
    assert_eq!(b.instant_kill_chance, 100);
    assert_eq!(b.poison_chance, 125);
    assert_eq!(b.fire_damage_multiplier, 1500);
    assert_eq!(b.ion_damage_multiplier, 1200);
    assert_eq!(b.ion_aoe_multiplier, 1200);
    assert_eq!(b.clip_size_multiplier, 1250);
    assert_eq!(b.reload_speed_multiplier, 700);
    assert_eq!(b.stationary_reload_multiplier, 3000);
    assert_eq!(b.reload_damage_multiplier, 500);
    assert_eq!(b.bonus_spawn_multiplier, 1500);
    assert_eq!(b.bonus_duration_multiplier, 1500);
}

#[test]
fn calculate_depends_on_the_inventory_alone() {
    let mut inv = PerkInventory::new();
    inv.add_perk(PerkId::Fastshot);
    inv.add_perk(PerkId::Doctor);
    let first = PerkBonuses::calculate(&inv);
    let second = PerkBonuses::calculate(&inv);
    assert_eq!(first, second);
    assert_eq!(ModifierSet::aggregate(&inv), ModifierSet::aggregate(&inv));
}

#[test]
fn all_lists_the_offered_perks() {
    let all = PerkId::all();
    assert_eq!(all.len(), 55);
    assert_eq!(all[0], PerkId::BloodyMess);
    assert_eq!(all[54], PerkId::Lifeline5050);
    assert!(!all.contains(&PerkId::RandomWeapon));
    assert!(!all.contains(&PerkId::BreathingRoom));
    for pair in all.windows(2) {
        assert!(pair[0].index() < pair[1].index());
    }
}

#[test]
fn perk_slots() {
    assert_eq!(PerkId::BloodyMess.index(), 1);
    assert_eq!(PerkId::RandomWeapon.index(), 16);
    assert_eq!(PerkId::BreathingRoom.index(), 46);
    assert_eq!(PerkId::Lifeline5050.index(), 57);
}

#[test]
fn perk_count_stops_at_255() {
    let mut inv = PerkInventory::new();
    for _ in 0..300 {
        inv.add_perk(PerkId::Regeneration);
    }
    assert_eq!(inv.get_count(PerkId::Regeneration), 255);
    assert_eq!(inv.total_perks(), 255);
    assert_eq!(PerkBonuses::calculate(&inv).regen_per_second, 510_000);
}

#[test]
fn modifier_set_clamps_accuracy_and_crit() {
    let bonuses = PerkBonuses { accuracy_bonus: 1500, crit_chance: 4000, ..PerkBonuses::default() };
    let modifiers = ModifierSet::resolve(&bonuses);
    assert_eq!(modifiers.accuracy_bonus, 900);
    assert_eq!(modifiers.crit_chance, 1000);
    let bonuses = PerkBonuses { accuracy_bonus: 900, crit_chance: 1000, ..PerkBonuses::default() };
    let modifiers = ModifierSet::resolve(&bonuses);
    assert_eq!(modifiers.accuracy_bonus, 900);
    assert_eq!(modifiers.crit_chance, 1000);
}

#[test]
fn modifier_set_copies_the_multipliers() {
    let bonuses = PerkBonuses {
        damage_multiplier: 3360,
        fire_rate_multiplier: 1136,
        accuracy_bonus: 500,
        crit_chance: 100,
        crit_multiplier: 2500,
        range_multiplier: 1300,
        ammo_multiplier: 1250,
        ..PerkBonuses::default()
    };
    assert_eq!(
        ModifierSet::resolve(&bonuses),
        ModifierSet {
            damage_multiplier: 3360,
            fire_rate_multiplier: 1136,
            accuracy_bonus: 500,
            crit_chance: 100,
            crit_multiplier: 2500,
            range_multiplier: 1300,
            ammo_multiplier: 1250,
        }
    );
}

#[test]
fn aggregate_resolves_the_inventory() {
    let mut inv = PerkInventory::new();
    inv.add_perk(PerkId::Sharpshooter);
    inv.add_perk(PerkId::Fastshot);
    inv.add_perk(PerkId::BarrelGreaser);
    let modifiers = ModifierSet::aggregate(&inv);
    assert_eq!(modifiers.damage_multiplier, 1400);
    assert_eq!(modifiers.fire_rate_multiplier, 1136);
    assert_eq!(modifiers.accuracy_bonus, 500);
    assert_eq!(modifiers.range_multiplier, 1300);
    assert_eq!(modifiers.crit_chance, 0);
    assert_eq!(modifiers.crit_multiplier, 2000);
    assert_eq!(modifiers.ammo_multiplier, 1000);
}
