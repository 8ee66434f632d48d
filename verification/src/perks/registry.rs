//! The perks as they are offered: name, description and rarity of each, and
//! the draw of a selection.

use vstd::prelude::*;
use crate::perks::components::PerkId;
use crate::rng::shuffle_indices;

verus! {

/// Rarity of a perk.
#[derive(Debug, Clone, Copy, PartialEq, Eq, Structural)]
pub enum PerkRarity {
    Common,
    Uncommon,
    Rare,
    Legendary,
}

/// Data for a perk type.
#[derive(Debug)]
pub struct PerkData {
    pub id: PerkId,
    pub name: String,
    pub description: String,
    pub rarity: PerkRarity,
}

/// The mathematical content of a [`PerkData`].
pub struct PerkDataView {
    pub id: PerkId,
    pub name: Seq<char>,
    pub description: Seq<char>,
    pub rarity: PerkRarity,
}

impl View for PerkData {
    type V = PerkDataView;

    open spec fn view(&self) -> PerkDataView {
        PerkDataView {
            id: self.id,
            name: self.name@,
            description: self.description@,
            rarity: self.rarity,
        }
    }
}

/// The views of a list of perk data.
pub open spec fn perk_views(perks: Seq<PerkData>) -> Seq<PerkDataView> {
    Seq::new(perks.len(), |i: int| perks[i]@)
}

/// The built-in perk data.
pub open spec fn builtin_perks() -> Seq<PerkDataView> {
    seq![
        PerkDataView {
            id: PerkId::BloodyMess,
            name: "Bloody Mess"@,
            description: "+30% XP from kills. Extra gore effects."@,
            rarity: PerkRarity::Common,
        },
        PerkDataView {
            id: PerkId::LeanMeanExpMachine,
            name: "Lean Mean Exp Machine"@,
            description: "Gain passive XP over time."@,
            rarity: PerkRarity::Uncommon,
        },
        PerkDataView {
            id: PerkId::InstantWinner,
            name: "Instant Winner"@,
            description: "Immediately gain +2500 XP."@,
            rarity: PerkRarity::Rare,
        },
        PerkDataView {
            id: PerkId::GrimDeal,
            name: "Grim Deal"@,
            description: "Gain +18% of current XP, then die. Risky!"@,
            rarity: PerkRarity::Legendary,
        },
        PerkDataView {
            id: PerkId::InfernalContract,
            name: "Infernal Contract"@,
            description: "Health drops to 0.1, but gain +3 levels."@,
            rarity: PerkRarity::Legendary,
        },
        PerkDataView {
            id: PerkId::FatalLottery,
            name: "Fatal Lottery"@,
            description: "50/50 chance: +10000 XP or instant death."@,
            rarity: PerkRarity::Legendary,
        },
        PerkDataView {
            id: PerkId::LongDistanceRunner,
            name: "Long Distance Runner"@,
            description: "Movement speed increases over time (up to 2.8x)."@,
            rarity: PerkRarity::Common,
        },
        PerkDataView {
            id: PerkId::Unstoppable,
            name: "Unstoppable"@,
            description: "No knockback or disruption when taking damage."@,
            rarity: PerkRarity::Uncommon,
        },
        PerkDataView {
            id: PerkId::Sharpshooter,
            name: "Sharpshooter"@,
            description: "Tighter weapon spread, laser sight. Slower firing."@,
            rarity: PerkRarity::Uncommon,
        },
        PerkDataView {
            id: PerkId::Fastshot,
            name: "Fastshot"@,
            description: "Fire rate increased (cooldown x0.88)."@,
            rarity: PerkRarity::Common,
        },
        PerkDataView {
            id: PerkId::Fastloader,
            name: "Fastloader"@,
            description: "Reload time reduced to 70%."@,
            rarity: PerkRarity::Common,
        },
        PerkDataView {
            id: PerkId::AmmoManiac,
            name: "Ammo Maniac"@,
            description: "Clip size increased by 25%."@,
            rarity: PerkRarity::Common,
        },
        PerkDataView {
            id: PerkId::AnxiousLoader,
            name: "Anxious Loader"@,
            description: "Firing reduces reload timer."@,
            rarity: PerkRarity::Uncommon,
        },
        PerkDataView {
            id: PerkId::RegressionBullets,
            name: "Regression Bullets"@,
            description: "Fire during reload by spending XP."@,
            rarity: PerkRarity::Rare,
        },
        PerkDataView {
            id: PerkId::AmmunitionWithin,
            name: "Ammunition Within"@,
            description: "Fire during reload by paying health."@,
            rarity: PerkRarity::Rare,
        },
        PerkDataView {
            id: PerkId::StationaryReloader,
            name: "Stationary Reloader"@,
            description: "3x reload speed while standing still."@,
            rarity: PerkRarity::Uncommon,
        },
        PerkDataView {
            id: PerkId::MyFavouriteWeapon,
            name: "My Favourite Weapon"@,
            description: "Clip +2, but weapon bonuses disabled."@,
            rarity: PerkRarity::Uncommon,
        },
        PerkDataView {
            id: PerkId::AngryReloader,
            name: "Angry Reloader"@,
            description: "Fire a ring of bullets at reload halfway point."@,
            rarity: PerkRarity::Uncommon,
        },
        PerkDataView {
            id: PerkId::ToughReloader,
            name: "Tough Reloader"@,
            description: "Take 50% less damage while reloading."@,
            rarity: PerkRarity::Uncommon,
        },
        PerkDataView {
            id: PerkId::UraniumFilledBullets,
            name: "Uranium Filled Bullets"@,
            description: "Bullet damage x2.0."@,
            rarity: PerkRarity::Rare,
        },
        PerkDataView {
            id: PerkId::Doctor,
            name: "Doctor"@,
            description: "Damage x1.2. See enemy health bars."@,
            rarity: PerkRarity::Uncommon,
        },
        PerkDataView {
            id: PerkId::BarrelGreaser,
            name: "Barrel Greaser"@,
            description: "Damage x1.4. Faster projectiles."@,
            rarity: PerkRarity::Uncommon,
        },
        PerkDataView {
            id: PerkId::Highlander,
            name: "Highlander"@,
            description: "10% chance to instantly kill on hit."@,
            rarity: PerkRarity::Rare,
        },
        PerkDataView {
            id: PerkId::Pyromaniac,
            name: "Pyromaniac"@,
            description: "Fire damage x1.5."@,
            rarity: PerkRarity::Uncommon,
        },
        PerkDataView {
            id: PerkId::IonGunMaster,
            name: "Ion Gun Master"@,
            description: "Ion damage x1.2. Ion AoE radius x1.2."@,
            rarity: PerkRarity::Uncommon,
        },
        PerkDataView {
            id: PerkId::LivingFortress,
            name: "Living Fortress"@,
            description: "Damage increases the longer you stand still."@,
            rarity: PerkRarity::Uncommon,
        },
        PerkDataView {
            id: PerkId::ThickSkinned,
            name: "Thick Skinned"@,
            description: "Health reduced to 2/3, but damage taken also 2/3."@,
            rarity: PerkRarity::Uncommon,
        },
        PerkDataView {
            id: PerkId::Dodger,
            name: "Dodger"@,
            description: "20% chance to dodge damage completely."@,
            rarity: PerkRarity::Uncommon,
        },
        PerkDataView {
            id: PerkId::Ninja,
            name: "Ninja"@,
            description: "33% chance to dodge damage completely."@,
            rarity: PerkRarity::Rare,
        },
        PerkDataView {
            id: PerkId::Regeneration,
            name: "Regeneration"@,
            description: "Slowly regenerate health over time."@,
            rarity: PerkRarity::Common,
        },
        PerkDataView {
            id: PerkId::GreaterRegeneration,
            name: "Greater Regeneration"@,
            description: "Regenerate health faster."@,
            rarity: PerkRarity::Uncommon,
        },
        PerkDataView {
            id: PerkId::Bandage,
            name: "Bandage"@,
            description: "Randomly multiply current health (1-50x)."@,
            rarity: PerkRarity::Rare,
        },
        PerkDataView {
            id: PerkId::DeathClock,
            name: "Death Clock"@,
            description: "Health drains over time, but immune to damage."@,
            rarity: PerkRarity::Legendary,
        },
        PerkDataView {
            id: PerkId::PoisonBullets,
            name: "Poison Bullets"@,
            description: "12.5% chance to poison enemies on hit."@,
            rarity: PerkRarity::Uncommon,
        },
        PerkDataView {
            id: PerkId::VeinsOfPoison,
            name: "Veins of Poison"@,
            description: "Poison enemies that touch you."@,
            rarity: PerkRarity::Uncommon,
        },
        PerkDataView {
            id: PerkId::ToxicAvenger,
            name: "Toxic Avenger"@,
            description: "Strong poison on melee contact."@,
            rarity: PerkRarity::Rare,
        },
        PerkDataView {
            id: PerkId::Plaguebearer,
            name: "Plaguebearer"@,
            description: "Infected enemies spread damage to others."@,
            rarity: PerkRarity::Rare,
        },
        PerkDataView {
            id: PerkId::EvilEyes,
            name: "Evil Eyes"@,
            description: "Freeze the creature you're aiming at."@,
            rarity: PerkRarity::Rare,
        },
        PerkDataView {
            id: PerkId::Radioactive,
            name: "Radioactive"@,
            description: "Damage nearby enemies with radiation aura."@,
            rarity: PerkRarity::Uncommon,
        },
        PerkDataView {
            id: PerkId::Pyrokinetic,
            name: "Pyrokinetic"@,
            description: "Periodic heat/flare effects near creatures."@,
            rarity: PerkRarity::Uncommon,
        },
        PerkDataView {
            id: PerkId::HotTempered,
            name: "Hot Tempered"@,
            description: "Periodically fire an 8-shot ring around you."@,
            rarity: PerkRarity::Uncommon,
        },
        PerkDataView {
            id: PerkId::FireCough,
            name: "Fire Cough"@,
            description: "Periodically fire a projectile from your muzzle."@,
            rarity: PerkRarity::Uncommon,
        },
        PerkDataView {
            id: PerkId::ManBomb,
            name: "Man Bomb"@,
            description: "Fire ion rings while standing still."@,
            rarity: PerkRarity::Uncommon,
        },
        PerkDataView {
            id: PerkId::FinalRevenge,
            name: "Final Revenge"@,
            description: "Explode on death, damaging all nearby enemies."@,
            rarity: PerkRarity::Uncommon,
        },
        PerkDataView {
            id: PerkId::Telekinetic,
            name: "Telekinetic"@,
            description: "Pick up bonuses from a distance."@,
            rarity: PerkRarity::Uncommon,
        },
        PerkDataView {
            id: PerkId::BonusMagnet,
            name: "Bonus Magnet"@,
            description: "Increased chance for bonus spawns."@,
            rarity: PerkRarity::Common,
        },
        PerkDataView {
            id: PerkId::BonusEconomist,
            name: "Bonus Economist"@,
            description: "Timed bonuses last 50% longer."@,
            rarity: PerkRarity::Common,
        },
        PerkDataView {
            id: PerkId::MonsterVision,
            name: "Monster Vision"@,
            description: "Creatures are highlighted. See health bars."@,
            rarity: PerkRarity::Common,
        },
        PerkDataView {
            id: PerkId::PerkExpert,
            name: "Perk Expert"@,
            description: "6 perk choices instead of 4."@,
            rarity: PerkRarity::Uncommon,
        },
        PerkDataView {
            id: PerkId::PerkMaster,
            name: "Perk Master"@,
            description: "7 perk choices instead of 4."@,
            rarity: PerkRarity::Rare,
        },
        PerkDataView {
            id: PerkId::AlternateWeapon,
            name: "Alternate Weapon"@,
            description: "Second weapon slot. Movement penalty."@,
            rarity: PerkRarity::Uncommon,
        },
        PerkDataView {
            id: PerkId::RandomWeapon,
            name: "Random Weapon"@,
            description: "Quest only: assigns a random weapon."@,
            rarity: PerkRarity::Common,
        },
        PerkDataView {
            id: PerkId::MrMelee,
            name: "Mr. Melee"@,
            description: "Counter-hit attackers for 25 damage."@,
            rarity: PerkRarity::Uncommon,
        },
        PerkDataView {
            id: PerkId::ReflexBoosted,
            name: "Reflex Boosted"@,
            description: "Global slow-motion effect (time x0.9)."@,
            rarity: PerkRarity::Rare,
        },
        PerkDataView {
            id: PerkId::Jinxed,
            name: "Jinxed"@,
            description: "Random self-damage and creature kills."@,
            rarity: PerkRarity::Legendary,
        },
        PerkDataView {
            id: PerkId::BreathingRoom,
            name: "Breathing Room"@,
            description: "Two-player only: clears nearby creatures."@,
            rarity: PerkRarity::Rare,
        },
        PerkDataView {
            id: PerkId::Lifeline5050,
            name: "Lifeline 50-50"@,
            description: "Remove approximately half of all creatures."@,
            rarity: PerkRarity::Legendary,
        },
    ]
}

/// Whether the entry at `index` is the first one for `id`.
pub open spec fn is_first_perk(perks: Seq<PerkData>, id: PerkId, index: int) -> bool {
    &&& 0 <= index < perks.len()
    &&& perks[index].id == id
    &&& forall|j: int| 0 <= j < index ==> (#[trigger] perks[j]).id != id
}

/// The numbers from zero up to, not including, `n`.
pub open spec fn indices(n: nat) -> Seq<usize> {
    Seq::new(n, |i: int| i as usize)
}

/// Registry containing all perk definitions.
#[derive(Debug)]
pub struct PerkRegistry {
    pub perks: Vec<PerkData>,
}

impl Default for PerkRegistry {
    fn default() -> (r: Self)
        ensures
            perk_views(r.perks@) == builtin_perks(),
    {
        PerkRegistry::new()
    }
}

impl PerkRegistry {
    /// A registry that holds the built-in perk data.
    pub fn new() -> (r: Self)
        ensures
            perk_views(r.perks@) == builtin_perks(),
    {
        let mut registry = PerkRegistry { perks: Vec::new() };
        registry.register_all_perks();
        registry
    }

    /// The first entry for `id`, or `None` for a perk the registry does not
    /// hold.
    pub fn get(&self, id: PerkId) -> (r: Option<&PerkData>)
        ensures
            match r {
                Some(p) => exists|i: int| is_first_perk(self.perks@, id, i) && self.perks@[i] == *p,
                None => forall|j: int| 0 <= j < self.perks@.len() ==> (#[trigger] self.perks@[j]).id != id,
            },
    {
        let mut i: usize = 0;
        while i < self.perks.len()
            invariant
                i <= self.perks.len(),
                forall|j: int| 0 <= j < i ==> (#[trigger] self.perks@[j]).id != id,
            decreases self.perks.len() - i,
        {
            if self.perks[i].id == id {
                assert(is_first_perk(self.perks@, id, i as int));
                return Some(&self.perks[i]);
            }
            i += 1;
        }
        None
    }

    /// Replaces the contents by the built-in perk data.
    pub fn register_all_perks(&mut self)
        ensures
            perk_views(final(self).perks@) == builtin_perks(),
    {
        let mut perks: Vec<PerkData> = Vec::new();
        perks.push(
            PerkData {
                id: PerkId::BloodyMess,
                name: "Bloody Mess".to_owned(),
                description: "+30% XP from kills. Extra gore effects.".to_owned(),
                rarity: PerkRarity::Common,
            },
        );
        perks.push(
            PerkData {
                id: PerkId::LeanMeanExpMachine,
                name: "Lean Mean Exp Machine".to_owned(),
                description: "Gain passive XP over time.".to_owned(),
                rarity: PerkRarity::Uncommon,
            },
        );
        perks.push(
            PerkData {
                id: PerkId::InstantWinner,
                name: "Instant Winner".to_owned(),
                description: "Immediately gain +2500 XP.".to_owned(),
                rarity: PerkRarity::Rare,
            },
        );
        perks.push(
            PerkData {
                id: PerkId::GrimDeal,
                name: "Grim Deal".to_owned(),
                description: "Gain +18% of current XP, then die. Risky!".to_owned(),
                rarity: PerkRarity::Legendary,
            },
        );
        perks.push(
            PerkData {
                id: PerkId::InfernalContract,
                name: "Infernal Contract".to_owned(),
                description: "Health drops to 0.1, but gain +3 levels.".to_owned(),
                rarity: PerkRarity::Legendary,
            },
        );
        perks.push(
            PerkData {
                id: PerkId::FatalLottery,
                name: "Fatal Lottery".to_owned(),
                description: "50/50 chance: +10000 XP or instant death.".to_owned(),
                rarity: PerkRarity::Legendary,
            },
        );
        perks.push(
            PerkData {
                id: PerkId::LongDistanceRunner,
                name: "Long Distance Runner".to_owned(),
                description: "Movement speed increases over time (up to 2.8x).".to_owned(),
                rarity: PerkRarity::Common,
            },
        );
        perks.push(
            PerkData {
                id: PerkId::Unstoppable,
                name: "Unstoppable".to_owned(),
                description: "No knockback or disruption when taking damage.".to_owned(),
                rarity: PerkRarity::Uncommon,
            },
        );
        perks.push(
            PerkData {
                id: PerkId::Sharpshooter,
                name: "Sharpshooter".to_owned(),
                description: "Tighter weapon spread, laser sight. Slower firing.".to_owned(),
                rarity: PerkRarity::Uncommon,
            },
        );
        perks.push(
            PerkData {
                id: PerkId::Fastshot,
                name: "Fastshot".to_owned(),
                description: "Fire rate increased (cooldown x0.88).".to_owned(),
                rarity: PerkRarity::Common,
            },
        );
        perks.push(
            PerkData {
                id: PerkId::Fastloader,
                name: "Fastloader".to_owned(),
                description: "Reload time reduced to 70%.".to_owned(),
                rarity: PerkRarity::Common,
            },
        );
        perks.push(
            PerkData {
                id: PerkId::AmmoManiac,
                name: "Ammo Maniac".to_owned(),
                description: "Clip size increased by 25%.".to_owned(),
                rarity: PerkRarity::Common,
            },
        );
        perks.push(
            PerkData {
                id: PerkId::AnxiousLoader,
                name: "Anxious Loader".to_owned(),
                description: "Firing reduces reload timer.".to_owned(),
                rarity: PerkRarity::Uncommon,
            },
        );
        perks.push(
            PerkData {
                id: PerkId::RegressionBullets,
                name: "Regression Bullets".to_owned(),
                description: "Fire during reload by spending XP.".to_owned(),
                rarity: PerkRarity::Rare,
            },
        );
        perks.push(
            PerkData {
                id: PerkId::AmmunitionWithin,
                name: "Ammunition Within".to_owned(),
                description: "Fire during reload by paying health.".to_owned(),
                rarity: PerkRarity::Rare,
            },
        );
        perks.push(
            PerkData {
                id: PerkId::StationaryReloader,
                name: "Stationary Reloader".to_owned(),
                description: "3x reload speed while standing still.".to_owned(),
                rarity: PerkRarity::Uncommon,
            },
        );
        perks.push(
            PerkData {
                id: PerkId::MyFavouriteWeapon,
                name: "My Favourite Weapon".to_owned(),
                description: "Clip +2, but weapon bonuses disabled.".to_owned(),
                rarity: PerkRarity::Uncommon,
            },
        );
        perks.push(
            PerkData {
                id: PerkId::AngryReloader,
                name: "Angry Reloader".to_owned(),
                description: "Fire a ring of bullets at reload halfway point.".to_owned(),
                rarity: PerkRarity::Uncommon,
            },
        );
        perks.push(
            PerkData {
                id: PerkId::ToughReloader,
                name: "Tough Reloader".to_owned(),
                description: "Take 50% less damage while reloading.".to_owned(),
                rarity: PerkRarity::Uncommon,
            },
        );
        perks.push(
            PerkData {
                id: PerkId::UraniumFilledBullets,
                name: "Uranium Filled Bullets".to_owned(),
                description: "Bullet damage x2.0.".to_owned(),
                rarity: PerkRarity::Rare,
            },
        );
        perks.push(
            PerkData {
                id: PerkId::Doctor,
                name: "Doctor".to_owned(),
                description: "Damage x1.2. See enemy health bars.".to_owned(),
                rarity: PerkRarity::Uncommon,
            },
        );
        perks.push(
            PerkData {
                id: PerkId::BarrelGreaser,
                name: "Barrel Greaser".to_owned(),
                description: "Damage x1.4. Faster projectiles.".to_owned(),
                rarity: PerkRarity::Uncommon,
            },
        );
        perks.push(
            PerkData {
                id: PerkId::Highlander,
                name: "Highlander".to_owned(),
                description: "10% chance to instantly kill on hit.".to_owned(),
                rarity: PerkRarity::Rare,
            },
        );
        perks.push(
            PerkData {
                id: PerkId::Pyromaniac,
                name: "Pyromaniac".to_owned(),
                description: "Fire damage x1.5.".to_owned(),
                rarity: PerkRarity::Uncommon,
            },
        );
        perks.push(
            PerkData {
                id: PerkId::IonGunMaster,
                name: "Ion Gun Master".to_owned(),
                description: "Ion damage x1.2. Ion AoE radius x1.2.".to_owned(),
                rarity: PerkRarity::Uncommon,
            },
        );
        perks.push(
            PerkData {
                id: PerkId::LivingFortress,
                name: "Living Fortress".to_owned(),
                description: "Damage increases the longer you stand still.".to_owned(),
                rarity: PerkRarity::Uncommon,
            },
        );
        perks.push(
            PerkData {
                id: PerkId::ThickSkinned,
                name: "Thick Skinned".to_owned(),
                description: "Health reduced to 2/3, but damage taken also 2/3.".to_owned(),
                rarity: PerkRarity::Uncommon,
            },
        );
        perks.push(
            PerkData {
                id: PerkId::Dodger,
                name: "Dodger".to_owned(),
                description: "20% chance to dodge damage completely.".to_owned(),
                rarity: PerkRarity::Uncommon,
            },
        );
        perks.push(
            PerkData {
                id: PerkId::Ninja,
                name: "Ninja".to_owned(),
                description: "33% chance to dodge damage completely.".to_owned(),
                rarity: PerkRarity::Rare,
            },
        );
        perks.push(
            PerkData {
                id: PerkId::Regeneration,
                name: "Regeneration".to_owned(),
                description: "Slowly regenerate health over time.".to_owned(),
                rarity: PerkRarity::Common,
            },
        );
        perks.push(
            PerkData {
                id: PerkId::GreaterRegeneration,
                name: "Greater Regeneration".to_owned(),
                description: "Regenerate health faster.".to_owned(),
                rarity: PerkRarity::Uncommon,
            },
        );
        perks.push(
            PerkData {
                id: PerkId::Bandage,
                name: "Bandage".to_owned(),
                description: "Randomly multiply current health (1-50x).".to_owned(),
                rarity: PerkRarity::Rare,
            },
        );
        perks.push(
            PerkData {
                id: PerkId::DeathClock,
                name: "Death Clock".to_owned(),
                description: "Health drains over time, but immune to damage.".to_owned(),
                rarity: PerkRarity::Legendary,
            },
        );
        perks.push(
            PerkData {
                id: PerkId::PoisonBullets,
                name: "Poison Bullets".to_owned(),
                description: "12.5% chance to poison enemies on hit.".to_owned(),
                rarity: PerkRarity::Uncommon,
            },
        );
        perks.push(
            PerkData {
                id: PerkId::VeinsOfPoison,
                name: "Veins of Poison".to_owned(),
                description: "Poison enemies that touch you.".to_owned(),
                rarity: PerkRarity::Uncommon,
            },
        );
        perks.push(
            PerkData {
                id: PerkId::ToxicAvenger,
                name: "Toxic Avenger".to_owned(),
                description: "Strong poison on melee contact.".to_owned(),
                rarity: PerkRarity::Rare,
            },
        );
        perks.push(
            PerkData {
                id: PerkId::Plaguebearer,
                name: "Plaguebearer".to_owned(),
                description: "Infected enemies spread damage to others.".to_owned(),
                rarity: PerkRarity::Rare,
            },
        );
        perks.push(
            PerkData {
                id: PerkId::EvilEyes,
                name: "Evil Eyes".to_owned(),
                description: "Freeze the creature you're aiming at.".to_owned(),
                rarity: PerkRarity::Rare,
            },
        );
        perks.push(
            PerkData {
                id: PerkId::Radioactive,
                name: "Radioactive".to_owned(),
                description: "Damage nearby enemies with radiation aura.".to_owned(),
                rarity: PerkRarity::Uncommon,
            },
        );
        perks.push(
            PerkData {
                id: PerkId::Pyrokinetic,
                name: "Pyrokinetic".to_owned(),
                description: "Periodic heat/flare effects near creatures.".to_owned(),
                rarity: PerkRarity::Uncommon,
            },
        );
        perks.push(
            PerkData {
                id: PerkId::HotTempered,
                name: "Hot Tempered".to_owned(),
                description: "Periodically fire an 8-shot ring around you.".to_owned(),
                rarity: PerkRarity::Uncommon,
            },
        );
        perks.push(
            PerkData {
                id: PerkId::FireCough,
                name: "Fire Cough".to_owned(),
                description: "Periodically fire a projectile from your muzzle.".to_owned(),
                rarity: PerkRarity::Uncommon,
            },
        );
        perks.push(
            PerkData {
                id: PerkId::ManBomb,
                name: "Man Bomb".to_owned(),
                description: "Fire ion rings while standing still.".to_owned(),
                rarity: PerkRarity::Uncommon,
            },
        );
        perks.push(
            PerkData {
                id: PerkId::FinalRevenge,
                name: "Final Revenge".to_owned(),
                description: "Explode on death, damaging all nearby enemies.".to_owned(),
                rarity: PerkRarity::Uncommon,
            },
        );
        perks.push(
            PerkData {
                id: PerkId::Telekinetic,
                name: "Telekinetic".to_owned(),
                description: "Pick up bonuses from a distance.".to_owned(),
                rarity: PerkRarity::Uncommon,
            },
        );
        perks.push(
            PerkData {
                id: PerkId::BonusMagnet,
                name: "Bonus Magnet".to_owned(),
                description: "Increased chance for bonus spawns.".to_owned(),
                rarity: PerkRarity::Common,
            },
        );
        perks.push(
            PerkData {
                id: PerkId::BonusEconomist,
                name: "Bonus Economist".to_owned(),
                description: "Timed bonuses last 50% longer.".to_owned(),
                rarity: PerkRarity::Common,
            },
        );
        perks.push(
            PerkData {
                id: PerkId::MonsterVision,
                name: "Monster Vision".to_owned(),
                description: "Creatures are highlighted. See health bars.".to_owned(),
                rarity: PerkRarity::Common,
            },
        );
        perks.push(
            PerkData {
                id: PerkId::PerkExpert,
                name: "Perk Expert".to_owned(),
                description: "6 perk choices instead of 4.".to_owned(),
                rarity: PerkRarity::Uncommon,
            },
        );
        perks.push(
            PerkData {
                id: PerkId::PerkMaster,
                name: "Perk Master".to_owned(),
                description: "7 perk choices instead of 4.".to_owned(),
                rarity: PerkRarity::Rare,
            },
        );
        perks.push(
            PerkData {
                id: PerkId::AlternateWeapon,
                name: "Alternate Weapon".to_owned(),
                description: "Second weapon slot. Movement penalty.".to_owned(),
                rarity: PerkRarity::Uncommon,
            },
        );
        perks.push(
            PerkData {
                id: PerkId::RandomWeapon,
                name: "Random Weapon".to_owned(),
                description: "Quest only: assigns a random weapon.".to_owned(),
                rarity: PerkRarity::Common,
            },
        );
        perks.push(
            PerkData {
                id: PerkId::MrMelee,
                name: "Mr. Melee".to_owned(),
                description: "Counter-hit attackers for 25 damage.".to_owned(),
                rarity: PerkRarity::Uncommon,
            },
        );
        perks.push(
            PerkData {
                id: PerkId::ReflexBoosted,
                name: "Reflex Boosted".to_owned(),
                description: "Global slow-motion effect (time x0.9).".to_owned(),
                rarity: PerkRarity::Rare,
            },
        );
        perks.push(
            PerkData {
                id: PerkId::Jinxed,
                name: "Jinxed".to_owned(),
                description: "Random self-damage and creature kills.".to_owned(),
                rarity: PerkRarity::Legendary,
            },
        );
        perks.push(
            PerkData {
                id: PerkId::BreathingRoom,
                name: "Breathing Room".to_owned(),
                description: "Two-player only: clears nearby creatures.".to_owned(),
                rarity: PerkRarity::Rare,
            },
        );
        perks.push(
            PerkData {
                id: PerkId::Lifeline5050,
                name: "Lifeline 50-50".to_owned(),
                description: "Remove approximately half of all creatures.".to_owned(),
                rarity: PerkRarity::Legendary,
            },
        );
        assert(perk_views(perks@) =~= builtin_perks());
        self.perks = perks;
    }

    /// Draws the places of `count` entries of the registry, or of all where
    /// it holds fewer: no place twice, in a random order.
    pub fn draw_selection(&self, count: usize) -> (r: Vec<usize>)
        ensures
            r@.len() == if count < self.perks@.len() {
                count as nat
            } else {
                self.perks@.len()
            },
            r@.no_duplicates(),
            forall|i: int| 0 <= i < r@.len() ==> (#[trigger] r@[i]) < self.perks@.len(),
    {
        let mut order: Vec<usize> = Vec::new();
        let mut i: usize = 0;
        while i < self.perks.len()
            invariant
                i <= self.perks.len(),
                order@ == indices(i as nat),
            decreases self.perks.len() - i,
        {
            order.push(i);
            assert(order@ =~= indices((i + 1) as nat));
            i += 1;
        }
        let ghost sorted = order@;
        shuffle_indices(&mut order);
        proof {
            lemma_shuffled_indices(sorted, order@, self.perks@.len());
        }
        if count < order.len() {
            order.truncate(count);
            assert(order@.len() == count);
        }
        order
    }

    /// Draws `count` entries of the registry for a selection, or all where it
    /// holds fewer: no entry twice.
    pub fn get_random_selection(&self, count: usize) -> (r: Vec<&PerkData>)
        ensures
            r@.len() == if count < self.perks@.len() {
                count as nat
            } else {
                self.perks@.len()
            },
            exists|places: Seq<usize>|
                {
                    &&& places.len() == r@.len()
                    &&& places.no_duplicates()
                    &&& forall|i: int|
                        0 <= i < r@.len() ==> (#[trigger] places[i]) < self.perks@.len()
                            && *r@[i] == self.perks@[places[i] as int]
                },
    {
        let places = self.draw_selection(count);
        let mut chosen: Vec<&PerkData> = Vec::new();
        let mut i: usize = 0;
        while i < places.len()
            invariant
                i <= places.len(),
                chosen@.len() == i,
                forall|j: int| 0 <= j < places@.len() ==> (#[trigger] places@[j]) < self.perks@.len(),
                forall|j: int| 0 <= j < i ==> *(#[trigger] chosen@[j]) == self.perks@[places@[j] as int],
            decreases places.len() - i,
        {
            chosen.push(&self.perks[places[i]]);
            i += 1;
        }
        assert(places@.len() == chosen@.len() && places@.no_duplicates());
        chosen
    }
}

/// A rearrangement of the numbers below `n` holds each of them once, and
/// nothing else.
pub proof fn lemma_shuffled_indices(sorted: Seq<usize>, shuffled: Seq<usize>, n: nat)
    requires
        n <= usize::MAX,
        sorted == indices(n),
        shuffled.to_multiset() == sorted.to_multiset(),
    ensures
        shuffled.len() == n,
        shuffled.no_duplicates(),
        forall|i: int| 0 <= i < shuffled.len() ==> (#[trigger] shuffled[i]) < n,
{
    broadcast use vstd::seq_lib::group_seq_properties;
    sorted.to_multiset_ensures();
    shuffled.to_multiset_ensures();
    assert forall|a: int, b: int| 0 <= a < sorted.len() && 0 <= b < sorted.len() && a != b implies sorted[a]
        != sorted[b] by {
        assert(sorted[a] == a as usize && sorted[b] == b as usize);
    }
    assert(sorted.no_duplicates());
    sorted.lemma_multiset_has_no_duplicates();
    shuffled.lemma_multiset_has_no_duplicates_conv();
    assert forall|i: int| 0 <= i < shuffled.len() implies (#[trigger] shuffled[i]) < n by {
        let x = shuffled[i];
        assert(shuffled.contains(x));
        assert(shuffled.to_multiset().count(x) > 0);
        assert(sorted.to_multiset().count(x) > 0);
        assert(sorted.contains(x));
        let k = choose|k: int| 0 <= k < sorted.len() && sorted[k] == x;
        assert(sorted[k] == k as usize);
    }
}

/// The built-in registry holds 57 perks.
pub proof fn lemma_builtin_perk_count()
    ensures
        builtin_perks().len() == 57,
{
}

} // verus!
