use crimsonland::perks::components::{PerkId, PerkInventory};
use crimsonland::perks::systems::{
    get_player_perks, handle_perk_selection, PerkSelectedEvent, PerkSelectionState,
};
use crimsonland::perks::registry::{PerkRarity, PerkRegistry};

#[test]
fn perk_registry_has_all_perks() {
    let registry = PerkRegistry::new();
    assert!(!registry.perks.is_empty());

    assert!(registry.get(PerkId::Regeneration).is_some());
    assert!(registry.get(PerkId::Dodger).is_some());
    assert!(registry.get(PerkId::Highlander).is_some());
}

#[test]
fn perk_data_has_description() {
    let registry = PerkRegistry::new();
    let regen = registry.get(PerkId::Regeneration).unwrap();
    assert!(!regen.description.is_empty());
}

#[test]
fn random_selection_returns_correct_count() {
    let registry = PerkRegistry::new();
    let selection = registry.get_random_selection(4);
    assert_eq!(selection.len(), 4);
}

#[test]
fn built_in_perk_data() {
    let registry = PerkRegistry::default();
    assert_eq!(registry.perks.len(), 57);
    let first = &registry.perks[0];
    assert_eq!(first.id, PerkId::BloodyMess);
    assert_eq!(first.name, "Bloody Mess");
    assert_eq!(first.description, "+30% XP from kills. Extra gore effects.");
    assert_eq!(first.rarity, PerkRarity::Common);
    let grim = registry.get(PerkId::GrimDeal).unwrap();
    assert_eq!(grim.name, "Grim Deal");
    assert_eq!(grim.rarity, PerkRarity::Legendary);
    for perk in PerkId::all() {
        let data = registry.get(perk).unwrap();
        assert_eq!(data.id, perk);
        assert!(!data.name.is_empty() && !data.description.is_empty());
        assert_eq!(registry.perks.iter().filter(|p| p.id == perk).count(), 1);
    }
    assert!(registry.get(PerkId::RandomWeapon).is_some());
    assert!(registry.get(PerkId::BreathingRoom).is_some());
}

#[test]
fn unknown_perk_is_none() {
    let registry = PerkRegistry { perks: Vec::new() };
    assert!(registry.get(PerkId::Dodger).is_none());
    assert!(registry.get_random_selection(4).is_empty());
    assert!(registry.draw_selection(4).is_empty());
}

#[test]
fn selection_offers_no_perk_twice() {
    let registry = PerkRegistry::new();
    for count in [0usize, 1, 4, 6, 7, 57, 58, 1000] {
        let selection = registry.get_random_selection(count);
        assert_eq!(selection.len(), count.min(57));
        let mut ids: Vec<usize> = selection.iter().map(|p| p.id.index()).collect();
        ids.sort();
        ids.dedup();
        assert_eq!(ids.len(), selection.len());
    }
}

#[test]
fn selection_is_drawn_anew_each_time() {
    let registry = PerkRegistry::new();
    let sorted: Vec<usize> = (0..57).collect();
    let mut orders = std::collections::HashSet::new();
    for _ in 0..20 {
        let order = registry.draw_selection(57);
        let mut again = order.clone();
        again.sort();
        assert_eq!(again, sorted);
        assert_ne!(order, sorted);
        orders.insert(order);
    }
    assert!(orders.len() > 1);
}

#[test]
fn register_all_perks_replaces_the_contents() {
    let mut registry = PerkRegistry { perks: Vec::new() };
    registry.register_all_perks();
    registry.register_all_perks();
    assert_eq!(registry.perks.len(), 57);
}

#[test]
fn perk_selection_state_default() {
    let state = PerkSelectionState::default();
    assert!(state.available_perks.is_empty());
    assert_eq!(state.selected_index, 0);
}

#[test]
fn get_player_perks_returns_owned_perks() {
    let mut inventory = PerkInventory::new();
    inventory.add_perk(PerkId::Regeneration);
    inventory.add_perk(PerkId::LongDistanceRunner);

    let owned = get_player_perks(&inventory);
    assert!(owned.contains(&PerkId::Regeneration));
    assert!(owned.contains(&PerkId::LongDistanceRunner));
    assert!(!owned.contains(&PerkId::Highlander));
    assert_eq!(owned, vec![PerkId::LongDistanceRunner, PerkId::Regeneration]);
}

#[test]
fn registry_get_returns_perk_data() {
    let registry = PerkRegistry::default();
    let perk = registry.get(PerkId::Regeneration);
    assert!(perk.is_some());
    assert_eq!(perk.unwrap().id, PerkId::Regeneration);
}

#[test]
fn perks_not_on_offer_are_not_listed() {
    let mut inventory = PerkInventory::new();
    inventory.add_perk(PerkId::RandomWeapon);
    inventory.add_perk(PerkId::BreathingRoom);
    assert!(get_player_perks(&inventory).is_empty());
}

#[test]
fn choosing_a_perk_adds_it() {
    let registry = PerkRegistry::new();
    let ids: Vec<PerkId> = registry.get_random_selection(4).iter().map(|p| p.id).collect();
    let selection = PerkSelectionState::offer(ids.clone());
    assert_eq!(selection.selected_index, 0);
    assert_eq!(selection.choice(3), Some(ids[3]));
    assert_eq!(selection.choice(4), None);
    let mut inventory = PerkInventory::new();
    assert_eq!(handle_perk_selection(9, &selection, 4, &mut inventory), None);
    assert_eq!(inventory.total_perks(), 0);
    assert_eq!(
        handle_perk_selection(9, &selection, 2, &mut inventory),
        Some(PerkSelectedEvent { player_entity: 9, perk_id: ids[2] })
    );
    assert_eq!(inventory.get_count(ids[2]), 1);
    assert_eq!(inventory.total_perks(), 1);
}
