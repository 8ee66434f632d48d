use crimsonland::bonuses::components::ActiveBonusEffects;
use crimsonland::creatures::components::{CreatureType, Target};
use crimsonland::geometry::Vector;
use crimsonland::items::components::{CarriedItem, ItemLifetime, ItemType};
use crimsonland::items::systems::{
    apply_item_effects, collect_items, handle_item_use, item_drops, spawn_item_on_death,
    ItemPickedUpEvent, ItemUsedEvent,
};

fn v(x: i32, y: i32) -> Vector {
    Vector { x, y }
}

fn giants() -> Vec<Target> {
    vec![
        CreatureType::BossNest.spawn(1, v(0, 0)),
        CreatureType::BossNest.spawn(2, v(100_000, 0)),
        CreatureType::BossNest.spawn(3, v(0, 200_000)),
        CreatureType::BossNest.spawn(4, v(150_000, 200_000)),
        CreatureType::BossNest.spawn(5, v(300_000, 0)),
    ]
}

fn losses(item: ItemType) -> (Vec<u32>, ActiveBonusEffects, bool) {
    let mut creatures = giants();
    let mut effects = ActiveBonusEffects::default();
    let remove_all = apply_item_effects(item, v(0, 0), &mut effects, &mut creatures);
    (creatures.iter().map(|c| c.health.max - c.health.current).collect(), effects, remove_all)
}

#[test]
fn item_type_has_names() {
    assert!(!ItemType::Nuke.name().is_empty());
    assert!(!ItemType::Freeze.name().is_empty());
}

#[test]
fn carried_item_starts_empty() {
    let carried = CarriedItem::new();
    assert!(!carried.has_item());
}

#[test]
fn carried_item_can_set_and_take() {
    let mut carried = CarriedItem::new();
    carried.set_item(ItemType::Nuke);
    assert!(carried.has_item());

    let taken = carried.take_item();
    assert_eq!(taken, Some(ItemType::Nuke));
    assert!(!carried.has_item());
}

#[test]
fn random_item_returns_valid_type() {
    let all = ItemType::all();
    let mut seen = std::collections::HashSet::new();
    for _ in 0..300 {
        let item = ItemType::random();
        assert!(all.contains(&item));
        seen.insert(item);
    }
    assert!(seen.len() > 3);
}

#[test]
fn item_used_event_can_be_created() {
    let event = ItemUsedEvent { player_entity: u64::MAX, item_type: ItemType::Nuke, position: v(0, 0) };
    assert_eq!(event.item_type, ItemType::Nuke);
}

#[test]
fn item_picked_up_event_can_be_created() {
    let event = ItemPickedUpEvent {
        player_entity: u64::MAX,
        item_type: ItemType::Shield,
        replaced: Some(ItemType::Freeze),
    };
    assert_eq!(event.item_type, ItemType::Shield);
    assert_eq!(event.replaced, Some(ItemType::Freeze));
}

#[test]
fn names_and_weights() {
    let all = ItemType::all();
    let names: Vec<&str> = all.iter().map(|i| i.name()).collect();
    assert_eq!(
        names,
        vec![
            "Nuke", "Freeze", "Shield", "Plasma Blast", "Time Warp", "Invincibility",
            "Missile Salvo", "Shockwave", "Toxic Cloud", "Overdrive",
        ]
    );
    let weights: Vec<u32> = all.iter().map(|i| i.spawn_weight()).collect();
    assert_eq!(weights, vec![2, 8, 10, 5, 4, 3, 6, 7, 6, 8]);
    assert_eq!(weights.iter().sum::<u32>(), 59);
    assert_eq!(ItemLifetime::default().remaining, 20_000);
    assert_eq!(CarriedItem::default(), CarriedItem::new());
}

#[test]
fn for_roll_follows_the_weights() {
    assert_eq!(ItemType::for_roll(0), ItemType::Nuke);
    assert_eq!(ItemType::for_roll(1), ItemType::Nuke);
    assert_eq!(ItemType::for_roll(2), ItemType::Freeze);
    assert_eq!(ItemType::for_roll(10), ItemType::Shield);
    assert_eq!(ItemType::for_roll(50), ItemType::ToxicCloud);
    assert_eq!(ItemType::for_roll(51), ItemType::Overdrive);
    assert_eq!(ItemType::for_roll(58), ItemType::Overdrive);
    assert_eq!(ItemType::for_roll(59), ItemType::Shield);
    let mut counts = std::collections::HashMap::new();
    for roll in 0..59 {
        *counts.entry(ItemType::for_roll(roll)).or_insert(0u32) += 1;
    }
    for item in ItemType::all() {
        assert_eq!(counts[&item], item.spawn_weight());
    }
}

#[test]
fn using_the_carried_item_empties_the_hands() {
    let mut carried = CarriedItem::new();
    assert_eq!(handle_item_use(7, v(1, 2), &mut carried), None);
    carried.set_item(ItemType::Shockwave);
    assert_eq!(
        handle_item_use(7, v(1, 2), &mut carried),
        Some(ItemUsedEvent { player_entity: 7, item_type: ItemType::Shockwave, position: v(1, 2) })
    );
    assert!(!carried.has_item());
}

#[test]
fn damaging_items() {
    assert_eq!(losses(ItemType::Freeze).0, vec![20_000; 5]);
    assert_eq!(losses(ItemType::MissileSalvo).0, vec![50_000; 5]);
    assert_eq!(losses(ItemType::PlasmaBlast).0, vec![150_000, 100_000, 50_000, 25_000, 0]);
    assert_eq!(losses(ItemType::Shockwave).0, vec![100_000, 100_000, 0, 0, 0]);
    assert_eq!(losses(ItemType::ToxicCloud).0, vec![30_000, 30_000, 30_000, 0, 0]);
    assert_eq!(losses(ItemType::Nuke).0, vec![0; 5]);
    assert_eq!(losses(ItemType::Shield).0, vec![0; 5]);
    assert!(losses(ItemType::Nuke).2);
    assert!(!losses(ItemType::Freeze).2);
    assert_eq!(losses(ItemType::Freeze).1, ActiveBonusEffects::default());
}

#[test]
fn timed_items() {
    let none = ActiveBonusEffects::default();
    assert_eq!(losses(ItemType::Shield).1, ActiveBonusEffects { shield_timer: 15_000, ..none });
    assert_eq!(losses(ItemType::TimeWarp).1, ActiveBonusEffects { slow_motion_timer: 8000, ..none });
    assert_eq!(losses(ItemType::Invincibility).1, ActiveBonusEffects { invincibility_timer: 10_000, ..none });
    assert_eq!(losses(ItemType::Overdrive).1, ActiveBonusEffects { fire_rate_boost_timer: 10_000, ..none });
}

#[test]
fn stronger_creatures_drop_items_more_often() {
    assert!(item_drops(10, 29));
    assert!(!item_drops(10, 30));
    assert!(item_drops(30, 59));
    assert!(!item_drops(30, 60));
    assert!(!item_drops(99, 60));
    assert!(item_drops(100, 149));
    assert!(!item_drops(100, 150));
    let mut drops = 0;
    for _ in 0..2000 {
        if spawn_item_on_death(500).is_some() {
            drops += 1;
        }
    }
    assert!(drops > 100 && drops < 600);
}

#[test]
fn collecting_replaces_the_carried_item() {
    let mut carried = CarriedItem::new();
    assert_eq!(collect_items(7, v(0, 0), v(30_000, 0), ItemType::Nuke, &mut carried), None);
    assert!(!carried.has_item());
    assert_eq!(
        collect_items(7, v(0, 0), v(29_999, 0), ItemType::Nuke, &mut carried),
        Some(ItemPickedUpEvent { player_entity: 7, item_type: ItemType::Nuke, replaced: None })
    );
    assert_eq!(
        collect_items(7, v(0, 0), v(0, 0), ItemType::Shield, &mut carried),
        Some(ItemPickedUpEvent { player_entity: 7, item_type: ItemType::Shield, replaced: Some(ItemType::Nuke) })
    );
    assert_eq!(carried.item, Some(ItemType::Shield));
}
