use crimsonland::perks::classic::{PerkBonuses, PerkId, PerkInventory};
use crimsonland::perks::components::ModifierSet;

#[test]
fn components_perk_inventory_starts_empty() {
    let inv = PerkInventory::new();
    assert_eq!(inv.total_perks(), 0);
}

#[test]
fn components_perk_inventory_add_perk() {
    let mut inv = PerkInventory::new();
    inv.add_perk(PerkId::Regeneration);
    assert!(inv.has_perk(PerkId::Regeneration));
    assert_eq!(inv.get_count(PerkId::Regeneration), 1);
}

#[test]
fn components_perk_inventory_perks_stack() {
    let mut inv = PerkInventory::new();
    inv.add_perk(PerkId::SpeedBoost);
    inv.add_perk(PerkId::SpeedBoost);
    inv.add_perk(PerkId::SpeedBoost);
    assert_eq!(inv.get_count(PerkId::SpeedBoost), 3);
}

#[test]
fn components_perk_inventory_total_perks() {
    let mut inv = PerkInventory::new();
    inv.add_perk(PerkId::Regeneration);
    inv.add_perk(PerkId::SpeedBoost);
    inv.add_perk(PerkId::SpeedBoost);
    assert_eq!(inv.total_perks(), 3);
}

#[test]
fn components_perk_bonuses_regen_scales_with_count() {
    let mut inv = PerkInventory::new();
    let bonuses = PerkBonuses::calculate(&inv);
    assert_eq!(bonuses.regen_per_second, 0);

    inv.add_perk(PerkId::Regeneration);
    let bonuses = PerkBonuses::calculate(&inv);
    assert_eq!(bonuses.regen_per_second, 2000);

    inv.add_perk(PerkId::Regeneration);
    let bonuses = PerkBonuses::calculate(&inv);
    assert_eq!(bonuses.regen_per_second, 4000);
}

#[test]
fn perk_bonuses_damage_reduction_capped() {
    let mut inv = PerkInventory::new();
    for _ in 0..10 {
        inv.add_perk(PerkId::ThickSkin);
    }
    let bonuses = PerkBonuses::calculate(&inv);
    assert!(bonuses.damage_reduction <= 500);
    assert_eq!(bonuses.damage_reduction, 500);
}

#[test]
fn components_perk_bonuses_speed_stacks() {
    let mut inv = PerkInventory::new();
    inv.add_perk(PerkId::SpeedBoost);
    inv.add_perk(PerkId::SpeedBoost);
    let bonuses = PerkBonuses::calculate(&inv);
    assert_eq!(bonuses.speed_multiplier, 1300);
}

#[test]
fn perk_stacking() {
    let mut inv = PerkInventory::new();
    for _ in 0..3 {
        inv.add_perk(PerkId::SpeedBoost);
        inv.add_perk(PerkId::TriggerHappy);
    }
    let bonuses = PerkBonuses::calculate(&inv);
    assert_eq!(bonuses.speed_multiplier, 1450);
    assert_eq!(bonuses.fire_rate_multiplier, 1450);
}

#[test]
fn perk_cap() {
    let mut inv = PerkInventory::new();
    for _ in 0..10 {
        inv.add_perk(PerkId::CriticalHit);
        inv.add_perk(PerkId::Dodger);
    }
    let bonuses = PerkBonuses::calculate(&inv);
    assert_eq!(bonuses.crit_chance, 500);
    assert_eq!(bonuses.dodge_chance, 500);
}

#[test]
fn caps_are_reached_at_five() {
    let mut inv = PerkInventory::new();
    for n in 1..=7u32 {
        inv.add_perk(PerkId::CriticalHit);
        assert_eq!(PerkBonuses::calculate(&inv).crit_chance, (n * 100).min(500));
    }
}

#[test]
fn empty_inventory_gives_neutral_multipliers() {
    let bonuses = PerkBonuses::calculate(&PerkInventory::new());
    assert_eq!(
        bonuses,
        PerkBonuses {
            regen_per_second: 0,
            damage_reduction: 0,
            max_health_bonus: 0,
            speed_multiplier: 1000,
            damage_multiplier: 1000,
            fire_rate_multiplier: 1000,
            reload_speed_multiplier: 1000,
            ammo_multiplier: 1000,
            exp_multiplier: 1000,
            crit_chance: 0,
            crit_multiplier: 2000,
            range_multiplier: 1000,
            accuracy_bonus: 0,
            dodge_chance: 0,
        }
    );
    assert_eq!(PerkBonuses::default().damage_multiplier, 0);
    assert_eq!(PerkBonuses::default().crit_multiplier, 0);
}

#[test]
fn every_step() {
    let one = |perk: PerkId| PerkBonuses::calculate(&PerkInventory::with_perk(perk));
    assert_eq!(one(PerkId::VitalityBoost).max_health_bonus, 25_000);
    assert_eq!(one(PerkId::ThickSkin).damage_reduction, 100);
    assert_eq!(one(PerkId::Dodger).dodge_chance, 100);
    assert_eq!(one(PerkId::DeadlyAccuracy).accuracy_bonus, 200);
    assert_eq!(one(PerkId::CriticalHit).crit_chance, 100);
    assert_eq!(one(PerkId::FastReload).reload_speed_multiplier, 1250);
    assert_eq!(one(PerkId::LargerClips).ammo_multiplier, 1250);
    assert_eq!(one(PerkId::TriggerHappy).fire_rate_multiplier, 1150);
    assert_eq!(one(PerkId::HollowPoints).damage_multiplier, 1100);
    assert_eq!(one(PerkId::FastLearner).exp_multiplier, 1250);
    assert_eq!(one(PerkId::LongBarrel).range_multiplier, 1200);
    assert_eq!(one(PerkId::Pyromaniac), PerkBonuses::calculate(&PerkInventory::new()));
}

#[test]
fn modifiers_cut_the_accuracy_off() {
    let mut inv = PerkInventory::new();
    for _ in 0..4 {
        inv.add_perk(PerkId::DeadlyAccuracy);
    }
    assert_eq!(PerkBonuses::calculate(&inv).accuracy_bonus, 800);
    assert_eq!(PerkBonuses::calculate(&inv).modifiers().accuracy_bonus, 800);
    inv.add_perk(PerkId::DeadlyAccuracy);
    let bonuses = PerkBonuses::calculate(&inv);
    assert_eq!(bonuses.accuracy_bonus, 900);
    assert_eq!(bonuses.modifiers().accuracy_bonus, 900);
    for _ in 0..250 {
        inv.add_perk(PerkId::DeadlyAccuracy);
    }
    assert_eq!(PerkBonuses::calculate(&inv).accuracy_bonus, 900);
    assert_eq!(PerkBonuses::calculate(&inv).modifiers().accuracy_bonus, 900);
}

#[test]
fn modifiers_copy_the_rest() {
    let mut inv = PerkInventory::new();
    inv.add_perk(PerkId::HollowPoints);
    inv.add_perk(PerkId::TriggerHappy);
    inv.add_perk(PerkId::CriticalHit);
    inv.add_perk(PerkId::LongBarrel);
    inv.add_perk(PerkId::LargerClips);
    assert_eq!(
        PerkBonuses::calculate(&inv).modifiers(),
        ModifierSet {
            damage_multiplier: 1100,
            fire_rate_multiplier: 1150,
            accuracy_bonus: 0,
            crit_chance: 100,
            crit_multiplier: 2000,
            range_multiplier: 1200,
            ammo_multiplier: 1250,
        }
    );
}

#[test]
fn all_lists_thirty_perks_in_slot_order() {
    let all = PerkId::all();
    assert_eq!(all.len(), 30);
    for (i, perk) in all.iter().enumerate() {
        assert_eq!(perk.index(), i);
    }
    assert_eq!(all[0], PerkId::Regeneration);
    assert_eq!(all[29], PerkId::Pyromaniac);
}
