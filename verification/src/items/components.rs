//! Item types and the item a player carries.

use vstd::prelude::*;
use crate::rng::random_between;
use crate::weights::{lemma_weight_sum_monotonic, weight_sum, weighted_index};

verus! {

/// Types of items the player can carry and activate.
#[derive(Debug, Clone, Copy, PartialEq, Eq, Hash, Structural)]
pub enum ItemType {
    /// Removes all creatures.
    Nuke,
    /// Damages all creatures.
    Freeze,
    /// Shield that absorbs damage.
    Shield,
    /// Damages creatures by their distance.
    PlasmaBlast,
    /// Slows down time.
    TimeWarp,
    /// Grants temporary invincibility.
    Invincibility,
    /// Damages all creatures.
    MissileSalvo,
    /// Damages the creatures around the player.
    Shockwave,
    /// Poisons the creatures around the player.
    ToxicCloud,
    /// Raises the fire rate for a while.
    Overdrive,
}

/// The item types in the order in which a drop is drawn from them.
pub open spec fn item_table() -> Seq<ItemType> {
    seq![
        ItemType::Nuke,
        ItemType::Freeze,
        ItemType::Shield,
        ItemType::PlasmaBlast,
        ItemType::TimeWarp,
        ItemType::Invincibility,
        ItemType::MissileSalvo,
        ItemType::Shockwave,
        ItemType::ToxicCloud,
        ItemType::Overdrive,
    ]
}

/// The spawn weights of the item table.
pub open spec fn item_weights() -> Seq<u32> {
    Seq::new(10, |i: int| item_table()[i].spec_spawn_weight())
}

/// The sum of all spawn weights.
pub const TOTAL_ITEM_WEIGHT: u32 = 59;

/// Whether `item` is the one that `roll` falls on in the item table.
pub open spec fn is_item_for(item: ItemType, roll: u32) -> bool {
    exists|i: int|
        0 <= i < 10 && #[trigger] item_table()[i] == item && weight_sum(item_weights(), i) <= roll
            < weight_sum(item_weights(), i + 1)
}

/// The spawn weights add up to the total.
pub proof fn lemma_total_item_weight()
    ensures
        weight_sum(item_weights(), 10) == TOTAL_ITEM_WEIGHT,
{
    reveal_with_fuel(weight_sum, 11);
}

impl ItemType {
    /// The display name.
    pub open spec fn spec_name(self) -> Seq<char> {
        match self {
            ItemType::Nuke => "Nuke"@,
            ItemType::Freeze => "Freeze"@,
            ItemType::Shield => "Shield"@,
            ItemType::PlasmaBlast => "Plasma Blast"@,
            ItemType::TimeWarp => "Time Warp"@,
            ItemType::Invincibility => "Invincibility"@,
            ItemType::MissileSalvo => "Missile Salvo"@,
            ItemType::Shockwave => "Shockwave"@,
            ItemType::ToxicCloud => "Toxic Cloud"@,
            ItemType::Overdrive => "Overdrive"@,
        }
    }

    /// The weight with which the item is drawn when one drops.
    pub open spec fn spec_spawn_weight(self) -> u32 {
        match self {
            ItemType::Nuke => 2,
            ItemType::Freeze => 8,
            ItemType::Shield => 10,
            ItemType::PlasmaBlast => 5,
            ItemType::TimeWarp => 4,
            ItemType::Invincibility => 3,
            ItemType::MissileSalvo => 6,
            ItemType::Shockwave => 7,
            ItemType::ToxicCloud => 6,
            ItemType::Overdrive => 8,
        }
    }

    /// The display name.
    pub fn name(&self) -> (r: &'static str)
        ensures
            r@ == self.spec_name(),
    {
        match self {
            ItemType::Nuke => "Nuke",
            ItemType::Freeze => "Freeze",
            ItemType::Shield => "Shield",
            ItemType::PlasmaBlast => "Plasma Blast",
            ItemType::TimeWarp => "Time Warp",
            ItemType::Invincibility => "Invincibility",
            ItemType::MissileSalvo => "Missile Salvo",
            ItemType::Shockwave => "Shockwave",
            ItemType::ToxicCloud => "Toxic Cloud",
            ItemType::Overdrive => "Overdrive",
        }
    }

    /// The weight with which the item is drawn when one drops.
    pub fn spawn_weight(&self) -> (r: u32)
        ensures
            r == self.spec_spawn_weight(),
            r > 0,
    {
        match self {
            ItemType::Nuke => 2,
            ItemType::Freeze => 8,
            ItemType::Shield => 10,
            ItemType::PlasmaBlast => 5,
            ItemType::TimeWarp => 4,
            ItemType::Invincibility => 3,
            ItemType::MissileSalvo => 6,
            ItemType::Shockwave => 7,
            ItemType::ToxicCloud => 6,
            ItemType::Overdrive => 8,
        }
    }

    /// The item types in the order of the table.
    pub fn all() -> (r: Vec<ItemType>)
        ensures
            r@ == item_table(),
    {
        let mut items: Vec<ItemType> = Vec::new();
        items.push(ItemType::Nuke);
        items.push(ItemType::Freeze);
        items.push(ItemType::Shield);
        items.push(ItemType::PlasmaBlast);
        items.push(ItemType::TimeWarp);
        items.push(ItemType::Invincibility);
        items.push(ItemType::MissileSalvo);
        items.push(ItemType::Shockwave);
        items.push(ItemType::ToxicCloud);
        items.push(ItemType::Overdrive);
        assert(items@ =~= item_table());
        items
    }

    /// The item that a roll below the total weight falls on; a roll at or
    /// beyond it gives the shield.
    pub fn for_roll(roll: u32) -> (r: ItemType)
        ensures
            roll < TOTAL_ITEM_WEIGHT ==> is_item_for(r, roll),
            roll >= TOTAL_ITEM_WEIGHT ==> r == ItemType::Shield,
    {
        proof {
            lemma_total_item_weight();
        }
        let items = ItemType::all();
        let mut weights: Vec<u32> = Vec::new();
        let mut i: usize = 0;
        while i < items.len()
            invariant
                i <= items.len(),
                items@ == item_table(),
                weights@.len() == i,
                forall|j: int| 0 <= j < i ==> weights@[j] == item_table()[j].spec_spawn_weight(),
            decreases items.len() - i,
        {
            weights.push(items[i].spawn_weight());
            i += 1;
        }
        assert(weights@ =~= item_weights());
        match weighted_index(&weights, roll) {
            Some(k) => {
                proof {
                    lemma_weight_sum_monotonic(weights@, k + 1, 10);
                }
                assert(item_table()[k as int] == items@[k as int]);
                items[k]
            },
            None => ItemType::Shield,
        }
    }

    /// Draws an item type by the spawn weights.
    pub fn random() -> (r: ItemType)
        ensures
            exists|roll: u32| roll < TOTAL_ITEM_WEIGHT && #[trigger] is_item_for(r, roll),
    {
        let roll: i64 = random_between(0, 58);
        let item = ItemType::for_roll(roll as u32);
        assert(is_item_for(item, roll as u32));
        item
    }
}

/// The item a player carries, if any.
#[derive(Debug, Clone, Copy, PartialEq, Eq, Structural)]
pub struct CarriedItem {
    pub item: Option<ItemType>,
}

impl Default for CarriedItem {
    fn default() -> (r: Self)
        ensures
            r.item is None,
    {
        CarriedItem { item: None }
    }
}

impl CarriedItem {
    /// Empty hands.
    pub fn new() -> (r: Self)
        ensures
            r.item is None,
    {
        CarriedItem { item: None }
    }

    /// Whether an item is carried.
    pub fn has_item(&self) -> (r: bool)
        ensures
            r == (self.item is Some),
    {
        self.item.is_some()
    }

    /// Takes `item` up, in place of any item carried before.
    pub fn set_item(&mut self, item: ItemType)
        ensures
            final(self).item == Some(item),
    {
        self.item = Some(item);
    }

    /// Hands the carried item out and leaves the hands empty.
    pub fn take_item(&mut self) -> (r: Option<ItemType>)
        ensures
            r == old(self).item,
            final(self).item is None,
    {
        let taken = self.item;
        self.item = None;
        taken
    }
}

/// Marker for item pickups in the world.
#[derive(Debug, Clone, Copy, PartialEq, Eq, Structural)]
pub struct ItemPickup {
    pub item_type: ItemType,
}

/// Time an item pickup has left on the ground, in milliseconds.
#[derive(Debug, Clone, Copy, PartialEq, Eq, Structural)]
pub struct ItemLifetime {
    pub remaining: u32,
}

impl Default for ItemLifetime {
    fn default() -> (r: Self)
        ensures
            r.remaining == 20_000,
    {
        ItemLifetime { remaining: 20_000 }
    }
}

} // verus!
