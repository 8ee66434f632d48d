//! The classic perk set: thirty perks that all stack, and the bonuses that
//! their counts add up to.

use vstd::prelude::*;
use crate::perks::components::ModifierSet;

verus! {

/// The perks of the classic set.
#[derive(Debug, Clone, Copy, PartialEq, Eq, Hash, Structural)]
pub enum PerkId {
    Regeneration,
    ThickSkin,
    VitalityBoost,
    SecondChance,
    SpeedBoost,
    Dodger,
    Marathon,
    DeadlyAccuracy,
    CriticalHit,
    FastReload,
    LargerClips,
    DoubleBarrel,
    FastLearner,
    ExpMagnet,
    TriggerHappy,
    Overcharge,
    PoisonBullets,
    FireBullets,
    FreezingBullets,
    ShockBullets,
    Highlander,
    LongBarrel,
    HollowPoints,
    ArmorPiercing,
    Radioactive,
    DeathClock,
    Inferno,
    BulletTime,
    Telekinesis,
    Pyromaniac,
}

/// The perks of the classic set, in the order of their slots.
pub open spec fn all_perks() -> Seq<PerkId> {
    seq![
        PerkId::Regeneration,
        PerkId::ThickSkin,
        PerkId::VitalityBoost,
        PerkId::SecondChance,
        PerkId::SpeedBoost,
        PerkId::Dodger,
        PerkId::Marathon,
        PerkId::DeadlyAccuracy,
        PerkId::CriticalHit,
        PerkId::FastReload,
        PerkId::LargerClips,
        PerkId::DoubleBarrel,
        PerkId::FastLearner,
        PerkId::ExpMagnet,
        PerkId::TriggerHappy,
        PerkId::Overcharge,
        PerkId::PoisonBullets,
        PerkId::FireBullets,
        PerkId::FreezingBullets,
        PerkId::ShockBullets,
        PerkId::Highlander,
        PerkId::LongBarrel,
        PerkId::HollowPoints,
        PerkId::ArmorPiercing,
        PerkId::Radioactive,
        PerkId::DeathClock,
        PerkId::Inferno,
        PerkId::BulletTime,
        PerkId::Telekinesis,
        PerkId::Pyromaniac,
    ]
}

impl PerkId {
    /// The slot of the perk in an inventory.
    pub open spec fn spec_index(self) -> int {
        match self {
            PerkId::Regeneration => 0,
            PerkId::ThickSkin => 1,
            PerkId::VitalityBoost => 2,
            PerkId::SecondChance => 3,
            PerkId::SpeedBoost => 4,
            PerkId::Dodger => 5,
            PerkId::Marathon => 6,
            PerkId::DeadlyAccuracy => 7,
            PerkId::CriticalHit => 8,
            PerkId::FastReload => 9,
            PerkId::LargerClips => 10,
            PerkId::DoubleBarrel => 11,
            PerkId::FastLearner => 12,
            PerkId::ExpMagnet => 13,
            PerkId::TriggerHappy => 14,
            PerkId::Overcharge => 15,
            PerkId::PoisonBullets => 16,
            PerkId::FireBullets => 17,
            PerkId::FreezingBullets => 18,
            PerkId::ShockBullets => 19,
            PerkId::Highlander => 20,
            PerkId::LongBarrel => 21,
            PerkId::HollowPoints => 22,
            PerkId::ArmorPiercing => 23,
            PerkId::Radioactive => 24,
            PerkId::DeathClock => 25,
            PerkId::Inferno => 26,
            PerkId::BulletTime => 27,
            PerkId::Telekinesis => 28,
            PerkId::Pyromaniac => 29,
        }
    }

    /// The slot of the perk in an inventory.
    pub fn index(self) -> (r: usize)
        ensures
            r == self.spec_index(),
            r < 30,
    {
        match self {
            PerkId::Regeneration => 0,
            PerkId::ThickSkin => 1,
            PerkId::VitalityBoost => 2,
            PerkId::SecondChance => 3,
            PerkId::SpeedBoost => 4,
            PerkId::Dodger => 5,
            PerkId::Marathon => 6,
            PerkId::DeadlyAccuracy => 7,
            PerkId::CriticalHit => 8,
            PerkId::FastReload => 9,
            PerkId::LargerClips => 10,
            PerkId::DoubleBarrel => 11,
            PerkId::FastLearner => 12,
            PerkId::ExpMagnet => 13,
            PerkId::TriggerHappy => 14,
            PerkId::Overcharge => 15,
            PerkId::PoisonBullets => 16,
            PerkId::FireBullets => 17,
            PerkId::FreezingBullets => 18,
            PerkId::ShockBullets => 19,
            PerkId::Highlander => 20,
            PerkId::LongBarrel => 21,
            PerkId::HollowPoints => 22,
            PerkId::ArmorPiercing => 23,
            PerkId::Radioactive => 24,
            PerkId::DeathClock => 25,
            PerkId::Inferno => 26,
            PerkId::BulletTime => 27,
            PerkId::Telekinesis => 28,
            PerkId::Pyromaniac => 29,
        }
    }

    /// All perks, for iteration.
    pub fn all() -> (r: Vec<PerkId>)
        ensures
            r@ == all_perks(),
    {
        let mut perks: Vec<PerkId> = Vec::new();
        perks.push(PerkId::Regeneration);
        perks.push(PerkId::ThickSkin);
        perks.push(PerkId::VitalityBoost);
        perks.push(PerkId::SecondChance);
        perks.push(PerkId::SpeedBoost);
        perks.push(PerkId::Dodger);
        perks.push(PerkId::Marathon);
        perks.push(PerkId::DeadlyAccuracy);
        perks.push(PerkId::CriticalHit);
        perks.push(PerkId::FastReload);
        perks.push(PerkId::LargerClips);
        perks.push(PerkId::DoubleBarrel);
        perks.push(PerkId::FastLearner);
        perks.push(PerkId::ExpMagnet);
        perks.push(PerkId::TriggerHappy);
        perks.push(PerkId::Overcharge);
        perks.push(PerkId::PoisonBullets);
        perks.push(PerkId::FireBullets);
        perks.push(PerkId::FreezingBullets);
        perks.push(PerkId::ShockBullets);
        perks.push(PerkId::Highlander);
        perks.push(PerkId::LongBarrel);
        perks.push(PerkId::HollowPoints);
        perks.push(PerkId::ArmorPiercing);
        perks.push(PerkId::Radioactive);
        perks.push(PerkId::DeathClock);
        perks.push(PerkId::Inferno);
        perks.push(PerkId::BulletTime);
        perks.push(PerkId::Telekinesis);
        perks.push(PerkId::Pyromaniac);
        assert(perks@ =~= all_perks());
        perks
    }
}

/// How often the inventory with the given slots holds `perk`.
pub open spec fn count(counts: Seq<u8>, perk: PerkId) -> u8 {
    counts[perk.spec_index()]
}

/// The sum of the first `n` slots.
pub open spec fn total(counts: Seq<u8>, n: int) -> int
    decreases n,
{
    if n <= 0 {
        0
    } else {
        total(counts, n - 1) + counts[n - 1] as int
    }
}

/// `per` for each of `n` perks, at most `cap`.
pub open spec fn capped(n: u8, per: int, cap: int) -> int {
    if n * per > cap {
        cap
    } else {
        n * per
    }
}

/// The perks an owner has acquired: a count for each perk.
#[derive(Debug, Clone, Copy)]
pub struct PerkInventory {
    counts: [u8; 32],
}

impl View for PerkInventory {
    type V = Seq<u8>;

    /// The count in each of the 32 slots.
    closed spec fn view(&self) -> Seq<u8> {
        self.counts@
    }
}

impl Default for PerkInventory {
    fn default() -> (r: Self)
        ensures
            r@ == Seq::new(32, |i: int| 0u8),
    {
        PerkInventory::new()
    }
}

impl PerkInventory {
    /// An inventory has 32 slots.
    pub proof fn lemma_slots(self)
        ensures
            self@.len() == 32,
    {
    }

    /// An empty inventory.
    pub fn new() -> (r: Self)
        ensures
            r@ == Seq::new(32, |i: int| 0u8),
    {
        let r = PerkInventory { counts: [0u8; 32] };
        assert(r@ =~= Seq::new(32, |i: int| 0u8));
        r
    }

    /// Adds one more of `perk`; a count stays at 255 once it is there.
    pub fn add_perk(&mut self, perk: PerkId)
        ensures
            final(self)@ == old(self)@.update(
                perk.spec_index(),
                if count(old(self)@, perk) < 255 {
                    (count(old(self)@, perk) + 1) as u8
                } else {
                    255u8
                },
            ),
    {
        let index: usize = perk.index();
        let next: u8 = self.counts[index].saturating_add(1);
        self.counts[index] = next;
    }

    /// Whether the inventory holds `perk` at least once.
    pub fn has_perk(&self, perk: PerkId) -> (r: bool)
        ensures
            r == (count(self@, perk) > 0),
    {
        self.get_count(perk) > 0
    }

    /// How often the inventory holds `perk`.
    pub fn get_count(&self, perk: PerkId) -> (r: u8)
        ensures
            r == count(self@, perk),
    {
        let index: usize = perk.index();
        self.counts[index]
    }

    /// The number of perks held, each counted as often as it was added.
    pub fn total_perks(&self) -> (r: u32)
        ensures
            r == total(self@, 32),
    {
        let mut sum: u32 = 0;
        let mut i: usize = 0;
        while i < 32
            invariant
                i <= 32,
                sum == total(self@, i as int),
                sum <= 255 * i,
            decreases 32 - i,
        {
            sum = sum + self.counts[i] as u32;
            i += 1;
        }
        sum
    }

    /// An inventory that holds one perk, once.
    pub fn with_perk(perk: PerkId) -> (r: Self)
        ensures
            r@ == Seq::new(32, |i: int| 0u8).update(perk.spec_index(), 1u8),
    {
        let mut inventory = PerkInventory::new();
        inventory.add_perk(perk);
        inventory
    }
}

/// Bonuses computed from a perk inventory. Multipliers and chances are in
/// thousandths, amounts in thousandths of their unit.
#[derive(Debug, Clone, Copy, PartialEq, Eq, Structural)]
pub struct PerkBonuses {
    /// Health regained per second.
    pub regen_per_second: u32,
    /// Share of incoming damage that is taken away, at most half.
    pub damage_reduction: u32,
    /// Health added to the base maximum.
    pub max_health_bonus: u32,
    /// Movement speed multiplier.
    pub speed_multiplier: u32,
    /// Damage multiplier.
    pub damage_multiplier: u32,
    /// Fire rate multiplier.
    pub fire_rate_multiplier: u32,
    /// Reload speed multiplier.
    pub reload_speed_multiplier: u32,
    /// Ammunition capacity multiplier.
    pub ammo_multiplier: u32,
    /// Experience gain multiplier.
    pub exp_multiplier: u32,
    /// Critical hit chance, at most half.
    pub crit_chance: u32,
    /// Critical hit damage multiplier.
    pub crit_multiplier: u32,
    /// Projectile lifetime multiplier.
    pub range_multiplier: u32,
    /// Share of the spread that is taken away, at most nine tenths.
    pub accuracy_bonus: u32,
    /// Chance to dodge a hit, at most half.
    pub dodge_chance: u32,
}

/// The bonuses that the inventory with the slots `c` gives: a fixed step for
/// each perk held, some of them capped.
pub open spec fn bonuses_of(c: Seq<u8>) -> PerkBonuses {
    PerkBonuses {
        regen_per_second: (count(c, PerkId::Regeneration) * 2000) as u32,
        damage_reduction: capped(count(c, PerkId::ThickSkin), 100, 500) as u32,
        max_health_bonus: (count(c, PerkId::VitalityBoost) * 25_000) as u32,
        speed_multiplier: (1000 + count(c, PerkId::SpeedBoost) * 150) as u32,
        damage_multiplier: (1000 + count(c, PerkId::HollowPoints) * 100) as u32,
        fire_rate_multiplier: (1000 + count(c, PerkId::TriggerHappy) * 150) as u32,
        reload_speed_multiplier: (1000 + count(c, PerkId::FastReload) * 250) as u32,
        ammo_multiplier: (1000 + count(c, PerkId::LargerClips) * 250) as u32,
        exp_multiplier: (1000 + count(c, PerkId::FastLearner) * 250) as u32,
        crit_chance: capped(count(c, PerkId::CriticalHit), 100, 500) as u32,
        crit_multiplier: 2000,
        range_multiplier: (1000 + count(c, PerkId::LongBarrel) * 200) as u32,
        accuracy_bonus: capped(count(c, PerkId::DeadlyAccuracy), 200, 900) as u32,
        dodge_chance: capped(count(c, PerkId::Dodger), 100, 500) as u32,
    }
}

impl Default for PerkBonuses {
    /// Bonuses that are all zero, as they stand before the first calculation.
    fn default() -> (r: Self)
        ensures
            r == (PerkBonuses {
                regen_per_second: 0,
                damage_reduction: 0,
                max_health_bonus: 0,
                speed_multiplier: 0,
                damage_multiplier: 0,
                fire_rate_multiplier: 0,
                reload_speed_multiplier: 0,
                ammo_multiplier: 0,
                exp_multiplier: 0,
                crit_chance: 0,
                crit_multiplier: 0,
                range_multiplier: 0,
                accuracy_bonus: 0,
                dodge_chance: 0,
            }),
    {
        PerkBonuses {
            regen_per_second: 0,
            damage_reduction: 0,
            max_health_bonus: 0,
            speed_multiplier: 0,
            damage_multiplier: 0,
            fire_rate_multiplier: 0,
            reload_speed_multiplier: 0,
            ammo_multiplier: 0,
            exp_multiplier: 0,
            crit_chance: 0,
            crit_multiplier: 0,
            range_multiplier: 0,
            accuracy_bonus: 0,
            dodge_chance: 0,
        }
    }
}

/// A step for each of `n` perks, at most `cap`.
fn stepped(n: u8, per: u32, cap: u32) -> (r: u32)
    requires
        per <= 100_000,
    ensures
        r == capped(n, per as int, cap as int),
{
    assert(n as int * per as int <= 255 * 100_000) by (nonlinear_arith)
        requires
            0 <= n <= 255,
            0 <= per <= 100_000,
    ;
    let raw: u32 = (n as u32) * per;
    if raw > cap {
        cap
    } else {
        raw
    }
}

impl PerkBonuses {
    /// The modifiers that firing reads, resolved from these bonuses: the
    /// accuracy bonus at most nine tenths, the critical chance at most one.
    pub open spec fn spec_modifiers(self) -> ModifierSet {
        (ModifierSet {
            damage_multiplier: self.damage_multiplier,
            fire_rate_multiplier: self.fire_rate_multiplier,
            accuracy_bonus: self.accuracy_bonus,
            crit_chance: self.crit_chance,
            crit_multiplier: self.crit_multiplier,
            range_multiplier: self.range_multiplier,
            ammo_multiplier: self.ammo_multiplier,
        }).clamped()
    }

    /// Recalculates the bonuses from a perk inventory. The result depends on
    /// the inventory alone.
    pub fn calculate(inventory: &PerkInventory) -> (r: Self)
        ensures
            r == bonuses_of(inventory@),
            r.damage_reduction <= 500,
            r.crit_chance <= 500,
            r.accuracy_bonus <= 900,
            r.dodge_chance <= 500,
    {
        PerkBonuses {
            regen_per_second: (inventory.get_count(PerkId::Regeneration) as u32) * 2000,
            damage_reduction: stepped(inventory.get_count(PerkId::ThickSkin), 100, 500),
            max_health_bonus: (inventory.get_count(PerkId::VitalityBoost) as u32) * 25_000,
            speed_multiplier: 1000 + (inventory.get_count(PerkId::SpeedBoost) as u32) * 150,
            damage_multiplier: 1000 + (inventory.get_count(PerkId::HollowPoints) as u32) * 100,
            fire_rate_multiplier: 1000 + (inventory.get_count(PerkId::TriggerHappy) as u32) * 150,
            reload_speed_multiplier: 1000 + (inventory.get_count(PerkId::FastReload) as u32) * 250,
            ammo_multiplier: 1000 + (inventory.get_count(PerkId::LargerClips) as u32) * 250,
            exp_multiplier: 1000 + (inventory.get_count(PerkId::FastLearner) as u32) * 250,
            crit_chance: stepped(inventory.get_count(PerkId::CriticalHit), 100, 500),
            crit_multiplier: 2000,
            range_multiplier: 1000 + (inventory.get_count(PerkId::LongBarrel) as u32) * 200,
            accuracy_bonus: stepped(inventory.get_count(PerkId::DeadlyAccuracy), 200, 900),
            dodge_chance: stepped(inventory.get_count(PerkId::Dodger), 100, 500),
        }
    }

    /// Resolves these bonuses into the modifiers that firing reads.
    pub fn modifiers(&self) -> (r: ModifierSet)
        ensures
            r == self.spec_modifiers(),
            r.wf(),
    {
        let raw = ModifierSet {
            damage_multiplier: self.damage_multiplier,
            fire_rate_multiplier: self.fire_rate_multiplier,
            accuracy_bonus: self.accuracy_bonus,
            crit_chance: self.crit_chance,
            crit_multiplier: self.crit_multiplier,
            range_multiplier: self.range_multiplier,
            ammo_multiplier: self.ammo_multiplier,
        };
        raw.clamp()
    }
}

} // verus!
