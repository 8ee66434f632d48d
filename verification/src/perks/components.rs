//! Perks, the inventory of perks an owner has, and the bonuses they add up to.

use vstd::prelude::*;
use crate::fixed::{scale, scale_spec};

verus! {

/// The perks of the game.
#[derive(Debug, Clone, Copy, PartialEq, Eq, Hash, Structural)]
pub enum PerkId {
    /// XP & Gore.
    BloodyMess,
    /// Accuracy.
    Sharpshooter,
    /// Reload.
    Fastloader,
    /// Passive XP.
    LeanMeanExpMachine,
    /// Movement.
    LongDistanceRunner,
    /// Fire aura.
    Pyrokinetic,
    /// Instant XP.
    InstantWinner,
    /// Risky XP.
    GrimDeal,
    /// Dual wield.
    AlternateWeapon,
    /// Infection.
    Plaguebearer,
    /// Freeze.
    EvilEyes,
    /// Clip size.
    AmmoManiac,
    /// Damage aura.
    Radioactive,
    /// Fire rate.
    Fastshot,
    /// 50/50 gamble.
    FatalLottery,
    /// Quest only.
    RandomWeapon,
    /// Melee counter.
    MrMelee,
    /// Reload while firing.
    AnxiousLoader,
    /// Death explosion.
    FinalRevenge,
    /// Remote pickup.
    Telekinetic,
    /// 6 perk choices.
    PerkExpert,
    /// No knockback.
    Unstoppable,
    /// Fire during reload (XP cost).
    RegressionBullets,
    /// Health to 0.1, +3 levels.
    InfernalContract,
    /// Poison chance.
    PoisonBullets,
    /// 20% dodge.
    Dodger,
    /// More bonus spawns.
    BonusMagnet,
    /// 2x damage.
    UraniumFilledBullets,
    /// 1.2x damage + health display.
    Doctor,
    /// Creature highlights.
    MonsterVision,
    /// Periodic shot ring.
    HotTempered,
    /// Longer bonus duration.
    BonusEconomist,
    /// Reduced health/damage taken.
    ThickSkinned,
    /// 1.4x damage + faster projectiles.
    BarrelGreaser,
    /// Fire during reload (health cost).
    AmmunitionWithin,
    /// Poison on melee contact.
    VeinsOfPoison,
    /// Strong poison on contact.
    ToxicAvenger,
    /// Health regen.
    Regeneration,
    /// Fire damage bonus.
    Pyromaniac,
    /// 33% dodge.
    Ninja,
    /// 10% instant kill.
    Highlander,
    /// Random effects.
    Jinxed,
    /// 7 perk choices.
    PerkMaster,
    /// Slow motion.
    ReflexBoosted,
    /// Better regen.
    GreaterRegeneration,
    /// Two-player only.
    BreathingRoom,
    /// Health drain + immunity.
    DeathClock,
    /// Fixed clip bonus.
    MyFavouriteWeapon,
    /// Random heal.
    Bandage,
    /// Ring on reload.
    AngryReloader,
    /// Ion weapon bonus.
    IonGunMaster,
    /// Fast reload while still.
    StationaryReloader,
    /// Ion ring while still.
    ManBomb,
    /// Periodic fire shot.
    FireCough,
    /// Damage scales with stillness.
    LivingFortress,
    /// Less damage during reload.
    ToughReloader,
    /// Remove half creatures.
    Lifeline5050,
}

/// The perks offered for selection, in the order of their slots: all but the
/// quest-only and the two-player perk.
pub open spec fn offered_perks() -> Seq<PerkId> {
    seq![
        PerkId::BloodyMess,
        PerkId::Sharpshooter,
        PerkId::Fastloader,
        PerkId::LeanMeanExpMachine,
        PerkId::LongDistanceRunner,
        PerkId::Pyrokinetic,
        PerkId::InstantWinner,
        PerkId::GrimDeal,
        PerkId::AlternateWeapon,
        PerkId::Plaguebearer,
        PerkId::EvilEyes,
        PerkId::AmmoManiac,
        PerkId::Radioactive,
        PerkId::Fastshot,
        PerkId::FatalLottery,
        PerkId::MrMelee,
        PerkId::AnxiousLoader,
        PerkId::FinalRevenge,
        PerkId::Telekinetic,
        PerkId::PerkExpert,
        PerkId::Unstoppable,
        PerkId::RegressionBullets,
        PerkId::InfernalContract,
        PerkId::PoisonBullets,
        PerkId::Dodger,
        PerkId::BonusMagnet,
        PerkId::UraniumFilledBullets,
        PerkId::Doctor,
        PerkId::MonsterVision,
        PerkId::HotTempered,
        PerkId::BonusEconomist,
        PerkId::ThickSkinned,
        PerkId::BarrelGreaser,
        PerkId::AmmunitionWithin,
        PerkId::VeinsOfPoison,
        PerkId::ToxicAvenger,
        PerkId::Regeneration,
        PerkId::Pyromaniac,
        PerkId::Ninja,
        PerkId::Highlander,
        PerkId::Jinxed,
        PerkId::PerkMaster,
        PerkId::ReflexBoosted,
        PerkId::GreaterRegeneration,
        PerkId::DeathClock,
        PerkId::MyFavouriteWeapon,
        PerkId::Bandage,
        PerkId::AngryReloader,
        PerkId::IonGunMaster,
        PerkId::StationaryReloader,
        PerkId::ManBomb,
        PerkId::FireCough,
        PerkId::LivingFortress,
        PerkId::ToughReloader,
        PerkId::Lifeline5050,
    ]
}

impl PerkId {
    /// The slot of the perk in an inventory.
    pub open spec fn spec_index(self) -> int {
        match self {
            PerkId::BloodyMess => 1,
            PerkId::Sharpshooter => 2,
            PerkId::Fastloader => 3,
            PerkId::LeanMeanExpMachine => 4,
            PerkId::LongDistanceRunner => 5,
            PerkId::Pyrokinetic => 6,
            PerkId::InstantWinner => 7,
            PerkId::GrimDeal => 8,
            PerkId::AlternateWeapon => 9,
            PerkId::Plaguebearer => 10,
            PerkId::EvilEyes => 11,
            PerkId::AmmoManiac => 12,
            PerkId::Radioactive => 13,
            PerkId::Fastshot => 14,
            PerkId::FatalLottery => 15,
            PerkId::RandomWeapon => 16,
            PerkId::MrMelee => 17,
            PerkId::AnxiousLoader => 18,
            PerkId::FinalRevenge => 19,
            PerkId::Telekinetic => 20,
            PerkId::PerkExpert => 21,
            PerkId::Unstoppable => 22,
            PerkId::RegressionBullets => 23,
            PerkId::InfernalContract => 24,
            PerkId::PoisonBullets => 25,
            PerkId::Dodger => 26,
            PerkId::BonusMagnet => 27,
            PerkId::UraniumFilledBullets => 28,
            PerkId::Doctor => 29,
            PerkId::MonsterVision => 30,
            PerkId::HotTempered => 31,
            PerkId::BonusEconomist => 32,
            PerkId::ThickSkinned => 33,
            PerkId::BarrelGreaser => 34,
            PerkId::AmmunitionWithin => 35,
            PerkId::VeinsOfPoison => 36,
            PerkId::ToxicAvenger => 37,
            PerkId::Regeneration => 38,
            PerkId::Pyromaniac => 39,
            PerkId::Ninja => 40,
            PerkId::Highlander => 41,
            PerkId::Jinxed => 42,
            PerkId::PerkMaster => 43,
            PerkId::ReflexBoosted => 44,
            PerkId::GreaterRegeneration => 45,
            PerkId::BreathingRoom => 46,
            PerkId::DeathClock => 47,
            PerkId::MyFavouriteWeapon => 48,
            PerkId::Bandage => 49,
            PerkId::AngryReloader => 50,
            PerkId::IonGunMaster => 51,
            PerkId::StationaryReloader => 52,
            PerkId::ManBomb => 53,
            PerkId::FireCough => 54,
            PerkId::LivingFortress => 55,
            PerkId::ToughReloader => 56,
            PerkId::Lifeline5050 => 57,
        }
    }

    /// The slot of the perk in an inventory.
    pub fn index(self) -> (r: usize)
        ensures
            r == self.spec_index(),
            1 <= r <= 57,
    {
        match self {
            PerkId::BloodyMess => 1,
            PerkId::Sharpshooter => 2,
            PerkId::Fastloader => 3,
            PerkId::LeanMeanExpMachine => 4,
            PerkId::LongDistanceRunner => 5,
            PerkId::Pyrokinetic => 6,
            PerkId::InstantWinner => 7,
            PerkId::GrimDeal => 8,
            PerkId::AlternateWeapon => 9,
            PerkId::Plaguebearer => 10,
            PerkId::EvilEyes => 11,
            PerkId::AmmoManiac => 12,
            PerkId::Radioactive => 13,
            PerkId::Fastshot => 14,
            PerkId::FatalLottery => 15,
            PerkId::RandomWeapon => 16,
            PerkId::MrMelee => 17,
            PerkId::AnxiousLoader => 18,
            PerkId::FinalRevenge => 19,
            PerkId::Telekinetic => 20,
            PerkId::PerkExpert => 21,
            PerkId::Unstoppable => 22,
            PerkId::RegressionBullets => 23,
            PerkId::InfernalContract => 24,
            PerkId::PoisonBullets => 25,
            PerkId::Dodger => 26,
            PerkId::BonusMagnet => 27,
            PerkId::UraniumFilledBullets => 28,
            PerkId::Doctor => 29,
            PerkId::MonsterVision => 30,
            PerkId::HotTempered => 31,
            PerkId::BonusEconomist => 32,
            PerkId::ThickSkinned => 33,
            PerkId::BarrelGreaser => 34,
            PerkId::AmmunitionWithin => 35,
            PerkId::VeinsOfPoison => 36,
            PerkId::ToxicAvenger => 37,
            PerkId::Regeneration => 38,
            PerkId::Pyromaniac => 39,
            PerkId::Ninja => 40,
            PerkId::Highlander => 41,
            PerkId::Jinxed => 42,
            PerkId::PerkMaster => 43,
            PerkId::ReflexBoosted => 44,
            PerkId::GreaterRegeneration => 45,
            PerkId::BreathingRoom => 46,
            PerkId::DeathClock => 47,
            PerkId::MyFavouriteWeapon => 48,
            PerkId::Bandage => 49,
            PerkId::AngryReloader => 50,
            PerkId::IonGunMaster => 51,
            PerkId::StationaryReloader => 52,
            PerkId::ManBomb => 53,
            PerkId::FireCough => 54,
            PerkId::LivingFortress => 55,
            PerkId::ToughReloader => 56,
            PerkId::Lifeline5050 => 57,
        }
    }

    /// All perks that are offered for selection.
    pub fn all() -> (r: Vec<PerkId>)
        ensures
            r@ == offered_perks(),
    {
        let mut perks: Vec<PerkId> = Vec::new();
        perks.push(PerkId::BloodyMess);
        perks.push(PerkId::Sharpshooter);
        perks.push(PerkId::Fastloader);
        perks.push(PerkId::LeanMeanExpMachine);
        perks.push(PerkId::LongDistanceRunner);
        perks.push(PerkId::Pyrokinetic);
        perks.push(PerkId::InstantWinner);
        perks.push(PerkId::GrimDeal);
        perks.push(PerkId::AlternateWeapon);
        perks.push(PerkId::Plaguebearer);
        perks.push(PerkId::EvilEyes);
        perks.push(PerkId::AmmoManiac);
        perks.push(PerkId::Radioactive);
        perks.push(PerkId::Fastshot);
        perks.push(PerkId::FatalLottery);
        perks.push(PerkId::MrMelee);
        perks.push(PerkId::AnxiousLoader);
        perks.push(PerkId::FinalRevenge);
        perks.push(PerkId::Telekinetic);
        perks.push(PerkId::PerkExpert);
        perks.push(PerkId::Unstoppable);
        perks.push(PerkId::RegressionBullets);
        perks.push(PerkId::InfernalContract);
        perks.push(PerkId::PoisonBullets);
        perks.push(PerkId::Dodger);
        perks.push(PerkId::BonusMagnet);
        perks.push(PerkId::UraniumFilledBullets);
        perks.push(PerkId::Doctor);
        perks.push(PerkId::MonsterVision);
        perks.push(PerkId::HotTempered);
        perks.push(PerkId::BonusEconomist);
        perks.push(PerkId::ThickSkinned);
        perks.push(PerkId::BarrelGreaser);
        perks.push(PerkId::AmmunitionWithin);
        perks.push(PerkId::VeinsOfPoison);
        perks.push(PerkId::ToxicAvenger);
        perks.push(PerkId::Regeneration);
        perks.push(PerkId::Pyromaniac);
        perks.push(PerkId::Ninja);
        perks.push(PerkId::Highlander);
        perks.push(PerkId::Jinxed);
        perks.push(PerkId::PerkMaster);
        perks.push(PerkId::ReflexBoosted);
        perks.push(PerkId::GreaterRegeneration);
        perks.push(PerkId::DeathClock);
        perks.push(PerkId::MyFavouriteWeapon);
        perks.push(PerkId::Bandage);
        perks.push(PerkId::AngryReloader);
        perks.push(PerkId::IonGunMaster);
        perks.push(PerkId::StationaryReloader);
        perks.push(PerkId::ManBomb);
        perks.push(PerkId::FireCough);
        perks.push(PerkId::LivingFortress);
        perks.push(PerkId::ToughReloader);
        perks.push(PerkId::Lifeline5050);
        assert(perks@ =~= offered_perks());
        perks
    }

    /// The number of perks offered at a level-up: seven with `PerkMaster`,
    /// six with `PerkExpert`, four otherwise.
    pub open spec fn spec_perk_choice_count(counts: Seq<u8>) -> usize {
        if has(counts, PerkId::PerkMaster) {
            7
        } else if has(counts, PerkId::PerkExpert) {
            6
        } else {
            4
        }
    }

    /// The number of perks offered at a level-up.
    pub fn perk_choice_count(inventory: &PerkInventory) -> (r: usize)
        ensures
            r == PerkId::spec_perk_choice_count(inventory@),
    {
        if inventory.has_perk(PerkId::PerkMaster) {
            7
        } else if inventory.has_perk(PerkId::PerkExpert) {
            6
        } else {
            4
        }
    }
}

/// How often the inventory with the given slots holds `perk`.
pub open spec fn count(counts: Seq<u8>, perk: PerkId) -> u8 {
    counts[perk.spec_index()]
}

/// Whether the inventory with the given slots holds `perk`.
pub open spec fn has(counts: Seq<u8>, perk: PerkId) -> bool {
    count(counts, perk) > 0
}

/// The sum of the first `n` slots.
pub open spec fn total(counts: Seq<u8>, n: int) -> int
    decreases n,
{
    if n <= 0 {
        0
    } else {
        total(counts, n - 1) + counts[n - 1] as int
    }
}

/// The perks an owner has acquired: a count for each perk, since some stack.
#[derive(Debug, Clone, Copy)]
pub struct PerkInventory {
    counts: [u8; 64],
}

impl View for PerkInventory {
    type V = Seq<u8>;

    /// The count in each of the 64 slots.
    closed spec fn view(&self) -> Seq<u8> {
        self.counts@
    }
}

impl Default for PerkInventory {
    fn default() -> (r: Self)
        ensures
            r@ == Seq::new(64, |i: int| 0u8),
    {
        PerkInventory::new()
    }
}

impl PerkInventory {
    /// An inventory has 64 slots.
    pub proof fn lemma_slots(self)
        ensures
            self@.len() == 64,
    {
    }

    /// An empty inventory.
    pub fn new() -> (r: Self)
        ensures
            r@ == Seq::new(64, |i: int| 0u8),
    {
        let r = PerkInventory { counts: [0u8; 64] };
        assert(r@ =~= Seq::new(64, |i: int| 0u8));
        r
    }

    /// Adds one more of `perk`; a count stays at 255 once it is there.
    pub fn add_perk(&mut self, perk: PerkId)
        ensures
            final(self)@ == old(self)@.update(
                perk.spec_index(),
                if count(old(self)@, perk) < 255 {
                    (count(old(self)@, perk) + 1) as u8
                } else {
                    255u8
                },
            ),
    {
        let index: usize = perk.index();
        let next: u8 = self.counts[index].saturating_add(1);
        self.counts[index] = next;
    }

    /// Whether the inventory holds `perk` at least once.
    pub fn has_perk(&self, perk: PerkId) -> (r: bool)
        ensures
            r == has(self@, perk),
    {
        self.get_count(perk) > 0
    }

    /// How often the inventory holds `perk`.
    pub fn get_count(&self, perk: PerkId) -> (r: u8)
        ensures
            r == count(self@, perk),
    {
        let index: usize = perk.index();
        self.counts[index]
    }

    /// The number of perks held, each counted as often as it was added.
    pub fn total_perks(&self) -> (r: u32)
        ensures
            r == total(self@, 64),
    {
        let mut sum: u32 = 0;
        let mut i: usize = 0;
        while i < 64
            invariant
                i <= 64,
                sum == total(self@, i as int),
                sum <= 255 * i,
            decreases 64 - i,
        {
            sum = sum + self.counts[i] as u32;
            i += 1;
        }
        sum
    }

    /// An inventory that holds one perk, once.
    pub fn with_perk(perk: PerkId) -> (r: Self)
        ensures
            r@ == Seq::new(64, |i: int| 0u8).update(perk.spec_index(), 1u8),
    {
        let mut inventory = PerkInventory::new();
        inventory.add_perk(perk);
        inventory
    }
}

/// Bonuses computed from a perk inventory. Multipliers and chances are in
/// thousandths, amounts in thousandths of their unit.
#[derive(Debug, Clone, Copy, PartialEq, Eq, Structural)]
pub struct PerkBonuses {
    /// Experience gain multiplier.
    pub exp_multiplier: u32,
    /// Experience gained per second without a kill.
    pub passive_xp_per_second: u32,
    /// Movement speed multiplier: two fifths more for each `LongDistanceRunner`.
    pub speed_multiplier: u32,
    /// No knockback on damage.
    pub unstoppable: bool,
    /// Damage multiplier: the product of the factors of the damage perks held.
    pub damage_multiplier: u32,
    /// Fire damage multiplier.
    pub fire_damage_multiplier: u32,
    /// Ion damage multiplier.
    pub ion_damage_multiplier: u32,
    /// Ion area radius multiplier.
    pub ion_aoe_multiplier: u32,
    /// Chance per hit of an instant kill.
    pub instant_kill_chance: u32,
    /// Projectile speed multiplier.
    pub projectile_speed_multiplier: u32,
    /// Spread multiplier.
    pub spread_multiplier: u32,
    /// Share of the spread that is taken away.
    pub accuracy_bonus: u32,
    /// Fire rate multiplier: `Fastshot` divides the cooldown by it.
    pub fire_rate_multiplier: u32,
    /// Critical hit chance.
    pub crit_chance: u32,
    /// Critical hit damage multiplier.
    pub crit_multiplier: u32,
    /// Projectile lifetime multiplier.
    pub range_multiplier: u32,
    /// Ammunition multiplier.
    pub ammo_multiplier: u32,
    /// Clip size multiplier.
    pub clip_size_multiplier: u32,
    /// Rounds added to every clip.
    pub clip_size_bonus: i32,
    /// Reload time multiplier.
    pub reload_speed_multiplier: u32,
    /// Reload speed multiplier while standing still.
    pub stationary_reload_multiplier: u32,
    /// Can fire during a reload at the cost of experience.
    pub regression_bullets: bool,
    /// Can fire during a reload at the cost of health.
    pub ammunition_within: bool,
    /// Firing shortens a reload.
    pub anxious_loader: bool,
    /// Maximum health multiplier: two thirds with `ThickSkinned`.
    pub max_health_multiplier: u32,
    /// Damage taken multiplier: two thirds with `ThickSkinned`.
    pub damage_taken_multiplier: u32,
    /// Share of incoming damage that is taken away.
    pub damage_reduction: u32,
    /// Damage taken multiplier during a reload.
    pub reload_damage_multiplier: u32,
    /// Chance to dodge a hit: a third with `Ninja`, else a fifth with `Dodger`.
    pub dodge_chance: u32,
    /// Health regained per second.
    pub regen_per_second: u32,
    /// Chance that a bullet poisons.
    pub poison_chance: u32,
    /// Attackers are poisoned on contact.
    pub poison_on_contact: bool,
    /// Attackers are strongly poisoned on contact.
    pub toxic_avenger: bool,
    /// Damage aura.
    pub radioactive_aura: bool,
    /// Heat aura.
    pub pyrokinetic_aura: bool,
    /// Periodic ring of shots.
    pub hot_tempered: bool,
    /// Periodic fire projectile.
    pub fire_cough: bool,
    /// Ion ring while standing still.
    pub man_bomb: bool,
    /// Ring of shots on reload.
    pub angry_reloader: bool,
    /// Range of remote bonus pickup.
    pub telekinetic_range: u32,
    /// Bonus spawn chance multiplier.
    pub bonus_spawn_multiplier: u32,
    /// Timed bonus duration multiplier.
    pub bonus_duration_multiplier: u32,
    /// Creature health is displayed.
    pub show_creature_health: bool,
    /// Creatures are highlighted.
    pub monster_vision: bool,
    /// Number of perks offered at a level-up.
    pub perk_choices: usize,
    /// Has a second weapon slot.
    pub alternate_weapon: bool,
    /// Global time scale.
    pub time_scale: u32,
    /// Damage dealt back to a melee attacker.
    pub melee_counter_damage: u32,
    /// Explodes on death.
    pub final_revenge: bool,
    /// Health drains, and no damage is taken.
    pub death_clock: bool,
    /// Spreads an infection.
    pub plaguebearer: bool,
    /// Freezes the creature aimed at.
    pub evil_eyes: bool,
    /// Random effects.
    pub jinxed: bool,
    /// Damage grows while standing still.
    pub living_fortress: bool,
    /// Weapon pickups are switched off.
    pub disable_weapon_bonuses: bool,
}

/// The bonuses of an owner without perks.
pub open spec fn base_bonuses() -> PerkBonuses {
    PerkBonuses {
        exp_multiplier: 1000,
        passive_xp_per_second: 0,
        speed_multiplier: 1000,
        unstoppable: false,
        damage_multiplier: 1000,
        fire_damage_multiplier: 1000,
        ion_damage_multiplier: 1000,
        ion_aoe_multiplier: 1000,
        instant_kill_chance: 0,
        projectile_speed_multiplier: 1000,
        spread_multiplier: 1000,
        accuracy_bonus: 0,
        fire_rate_multiplier: 1000,
        crit_chance: 0,
        crit_multiplier: 2000,
        range_multiplier: 1000,
        ammo_multiplier: 1000,
        clip_size_multiplier: 1000,
        clip_size_bonus: 0,
        reload_speed_multiplier: 1000,
        stationary_reload_multiplier: 1000,
        regression_bullets: false,
        ammunition_within: false,
        anxious_loader: false,
        max_health_multiplier: 1000,
        damage_taken_multiplier: 1000,
        damage_reduction: 0,
        reload_damage_multiplier: 1000,
        dodge_chance: 0,
        regen_per_second: 0,
        poison_chance: 0,
        poison_on_contact: false,
        toxic_avenger: false,
        radioactive_aura: false,
        pyrokinetic_aura: false,
        hot_tempered: false,
        fire_cough: false,
        man_bomb: false,
        angry_reloader: false,
        telekinetic_range: 0,
        bonus_spawn_multiplier: 1000,
        bonus_duration_multiplier: 1000,
        show_creature_health: false,
        monster_vision: false,
        perk_choices: 4,
        alternate_weapon: false,
        time_scale: 1000,
        melee_counter_damage: 0,
        final_revenge: false,
        death_clock: false,
        plaguebearer: false,
        evil_eyes: false,
        jinxed: false,
        living_fortress: false,
        disable_weapon_bonuses: false,
    }
}

/// `x` scaled by `factor` where `apply` holds, else `x`.
pub open spec fn times(x: int, apply: bool, factor: int) -> int {
    if apply {
        scale_spec(x, factor)
    } else {
        x
    }
}

/// The bonuses that the inventory with the slots `c` gives.
pub open spec fn bonuses_of(c: Seq<u8>) -> PerkBonuses {
    PerkBonuses {
        exp_multiplier: if has(c, PerkId::BloodyMess) { 1300 } else { 1000 },
        passive_xp_per_second: if has(c, PerkId::LeanMeanExpMachine) { 4000 } else { 0 },
        speed_multiplier: (1000 + count(c, PerkId::LongDistanceRunner) * 400) as u32,
        unstoppable: has(c, PerkId::Unstoppable),
        damage_multiplier: times(
            times(times(1000, has(c, PerkId::UraniumFilledBullets), 2000), has(c, PerkId::Doctor), 1200),
            has(c, PerkId::BarrelGreaser),
            1400,
        ) as u32,
        fire_damage_multiplier: if has(c, PerkId::Pyromaniac) { 1500 } else { 1000 },
        ion_damage_multiplier: if has(c, PerkId::IonGunMaster) { 1200 } else { 1000 },
        ion_aoe_multiplier: if has(c, PerkId::IonGunMaster) { 1200 } else { 1000 },
        instant_kill_chance: if has(c, PerkId::Highlander) { 100 } else { 0 },
        projectile_speed_multiplier: if has(c, PerkId::BarrelGreaser) { 1300 } else { 1000 },
        spread_multiplier: if has(c, PerkId::Sharpshooter) { 500 } else { 1000 },
        accuracy_bonus: if has(c, PerkId::Sharpshooter) { 500 } else { 0 },
        fire_rate_multiplier: if has(c, PerkId::Fastshot) { 1136 } else { 1000 },
        crit_chance: 0,
        crit_multiplier: 2000,
        range_multiplier: if has(c, PerkId::BarrelGreaser) { 1300 } else { 1000 },
        ammo_multiplier: 1000,
        clip_size_multiplier: if has(c, PerkId::AmmoManiac) { 1250 } else { 1000 },
        clip_size_bonus: if has(c, PerkId::MyFavouriteWeapon) { 2 } else { 0 },
        reload_speed_multiplier: if has(c, PerkId::Fastloader) { 700 } else { 1000 },
        stationary_reload_multiplier: if has(c, PerkId::StationaryReloader) { 3000 } else { 1000 },
        regression_bullets: has(c, PerkId::RegressionBullets),
        ammunition_within: has(c, PerkId::AmmunitionWithin),
        anxious_loader: has(c, PerkId::AnxiousLoader),
        max_health_multiplier: if has(c, PerkId::ThickSkinned) { 667 } else { 1000 },
        damage_taken_multiplier: if has(c, PerkId::ThickSkinned) { 667 } else { 1000 },
        damage_reduction: if has(c, PerkId::ThickSkinned) { 333 } else { 0 },
        reload_damage_multiplier: if has(c, PerkId::ToughReloader) { 500 } else { 1000 },
        dodge_chance: if has(c, PerkId::Ninja) { 333 } else if has(c, PerkId::Dodger) { 200 } else { 0 },
        regen_per_second: (count(c, PerkId::Regeneration) * 2000 + if has(c, PerkId::GreaterRegeneration) { 5000int } else { 0int }) as u32,
        poison_chance: if has(c, PerkId::PoisonBullets) { 125 } else { 0 },
        poison_on_contact: has(c, PerkId::VeinsOfPoison),
        toxic_avenger: has(c, PerkId::ToxicAvenger),
        radioactive_aura: has(c, PerkId::Radioactive),
        pyrokinetic_aura: has(c, PerkId::Pyrokinetic),
        hot_tempered: has(c, PerkId::HotTempered),
        fire_cough: has(c, PerkId::FireCough),
        man_bomb: has(c, PerkId::ManBomb),
        angry_reloader: has(c, PerkId::AngryReloader),
        telekinetic_range: if has(c, PerkId::Telekinetic) { 200_000 } else { 0 },
        bonus_spawn_multiplier: if has(c, PerkId::BonusMagnet) { 1500 } else { 1000 },
        bonus_duration_multiplier: if has(c, PerkId::BonusEconomist) { 1500 } else { 1000 },
        show_creature_health: has(c, PerkId::Doctor) || has(c, PerkId::MonsterVision),
        monster_vision: has(c, PerkId::MonsterVision),
        perk_choices: PerkId::spec_perk_choice_count(c),
        alternate_weapon: has(c, PerkId::AlternateWeapon),
        time_scale: if has(c, PerkId::ReflexBoosted) { 900 } else { 1000 },
        melee_counter_damage: if has(c, PerkId::MrMelee) { 25_000 } else { 0 },
        final_revenge: has(c, PerkId::FinalRevenge),
        death_clock: has(c, PerkId::DeathClock),
        plaguebearer: has(c, PerkId::Plaguebearer),
        evil_eyes: has(c, PerkId::EvilEyes),
        jinxed: has(c, PerkId::Jinxed),
        living_fortress: has(c, PerkId::LivingFortress),
        disable_weapon_bonuses: has(c, PerkId::MyFavouriteWeapon),
    }
}

impl Default for PerkBonuses {
    fn default() -> (r: Self)
        ensures
            r == base_bonuses(),
    {
        PerkBonuses {
            exp_multiplier: 1000,
            passive_xp_per_second: 0,
            speed_multiplier: 1000,
            unstoppable: false,
            damage_multiplier: 1000,
            fire_damage_multiplier: 1000,
            ion_damage_multiplier: 1000,
            ion_aoe_multiplier: 1000,
            instant_kill_chance: 0,
            projectile_speed_multiplier: 1000,
            spread_multiplier: 1000,
            accuracy_bonus: 0,
            fire_rate_multiplier: 1000,
            crit_chance: 0,
            crit_multiplier: 2000,
            range_multiplier: 1000,
            ammo_multiplier: 1000,
            clip_size_multiplier: 1000,
            clip_size_bonus: 0,
            reload_speed_multiplier: 1000,
            stationary_reload_multiplier: 1000,
            regression_bullets: false,
            ammunition_within: false,
            anxious_loader: false,
            max_health_multiplier: 1000,
            damage_taken_multiplier: 1000,
            damage_reduction: 0,
            reload_damage_multiplier: 1000,
            dodge_chance: 0,
            regen_per_second: 0,
            poison_chance: 0,
            poison_on_contact: false,
            toxic_avenger: false,
            radioactive_aura: false,
            pyrokinetic_aura: false,
            hot_tempered: false,
            fire_cough: false,
            man_bomb: false,
            angry_reloader: false,
            telekinetic_range: 0,
            bonus_spawn_multiplier: 1000,
            bonus_duration_multiplier: 1000,
            show_creature_health: false,
            monster_vision: false,
            perk_choices: 4,
            alternate_weapon: false,
            time_scale: 1000,
            melee_counter_damage: 0,
            final_revenge: false,
            death_clock: false,
            plaguebearer: false,
            evil_eyes: false,
            jinxed: false,
            living_fortress: false,
            disable_weapon_bonuses: false,
        }
    }
}

impl PerkBonuses {
    /// Recalculates the bonuses from a perk inventory. The result depends on
    /// the inventory alone.
    pub fn calculate(inventory: &PerkInventory) -> (r: Self)
        ensures
            r == bonuses_of(inventory@),
    {
        let mut damage_multiplier: u32 = 1000;
        if inventory.has_perk(PerkId::UraniumFilledBullets) {
            damage_multiplier = scale(damage_multiplier, 2000);
        }
        if inventory.has_perk(PerkId::Doctor) {
            damage_multiplier = scale(damage_multiplier, 1200);
        }
        if inventory.has_perk(PerkId::BarrelGreaser) {
            damage_multiplier = scale(damage_multiplier, 1400);
        }
        PerkBonuses {
            exp_multiplier: if inventory.has_perk(PerkId::BloodyMess) { 1300 } else { 1000 },
            passive_xp_per_second: if inventory.has_perk(PerkId::LeanMeanExpMachine) { 4000 } else { 0 },
            speed_multiplier: 1000 + (inventory.get_count(PerkId::LongDistanceRunner) as u32) * 400,
            unstoppable: inventory.has_perk(PerkId::Unstoppable),
            damage_multiplier,
            fire_damage_multiplier: if inventory.has_perk(PerkId::Pyromaniac) { 1500 } else { 1000 },
            ion_damage_multiplier: if inventory.has_perk(PerkId::IonGunMaster) { 1200 } else { 1000 },
            ion_aoe_multiplier: if inventory.has_perk(PerkId::IonGunMaster) { 1200 } else { 1000 },
            instant_kill_chance: if inventory.has_perk(PerkId::Highlander) { 100 } else { 0 },
            projectile_speed_multiplier: if inventory.has_perk(PerkId::BarrelGreaser) { 1300 } else { 1000 },
            spread_multiplier: if inventory.has_perk(PerkId::Sharpshooter) { 500 } else { 1000 },
            accuracy_bonus: if inventory.has_perk(PerkId::Sharpshooter) { 500 } else { 0 },
            fire_rate_multiplier: if inventory.has_perk(PerkId::Fastshot) { 1136 } else { 1000 },
            crit_chance: 0,
            crit_multiplier: 2000,
            range_multiplier: if inventory.has_perk(PerkId::BarrelGreaser) { 1300 } else { 1000 },
            ammo_multiplier: 1000,
            clip_size_multiplier: if inventory.has_perk(PerkId::AmmoManiac) { 1250 } else { 1000 },
            clip_size_bonus: if inventory.has_perk(PerkId::MyFavouriteWeapon) { 2 } else { 0 },
            reload_speed_multiplier: if inventory.has_perk(PerkId::Fastloader) { 700 } else { 1000 },
            stationary_reload_multiplier: if inventory.has_perk(PerkId::StationaryReloader) { 3000 } else { 1000 },
            regression_bullets: inventory.has_perk(PerkId::RegressionBullets),
            ammunition_within: inventory.has_perk(PerkId::AmmunitionWithin),
            anxious_loader: inventory.has_perk(PerkId::AnxiousLoader),
            max_health_multiplier: if inventory.has_perk(PerkId::ThickSkinned) { 667 } else { 1000 },
            damage_taken_multiplier: if inventory.has_perk(PerkId::ThickSkinned) { 667 } else { 1000 },
            damage_reduction: if inventory.has_perk(PerkId::ThickSkinned) { 333 } else { 0 },
            reload_damage_multiplier: if inventory.has_perk(PerkId::ToughReloader) { 500 } else { 1000 },
            dodge_chance: if inventory.has_perk(PerkId::Ninja) { 333 } else if inventory.has_perk(PerkId::Dodger) { 200 } else { 0 },
            regen_per_second: (inventory.get_count(PerkId::Regeneration) as u32) * 2000 + if inventory.has_perk(PerkId::GreaterRegeneration) { 5000 } else { 0 },
            poison_chance: if inventory.has_perk(PerkId::PoisonBullets) { 125 } else { 0 },
            poison_on_contact: inventory.has_perk(PerkId::VeinsOfPoison),
            toxic_avenger: inventory.has_perk(PerkId::ToxicAvenger),
            radioactive_aura: inventory.has_perk(PerkId::Radioactive),
            pyrokinetic_aura: inventory.has_perk(PerkId::Pyrokinetic),
            hot_tempered: inventory.has_perk(PerkId::HotTempered),
            fire_cough: inventory.has_perk(PerkId::FireCough),
            man_bomb: inventory.has_perk(PerkId::ManBomb),
            angry_reloader: inventory.has_perk(PerkId::AngryReloader),
            telekinetic_range: if inventory.has_perk(PerkId::Telekinetic) { 200_000 } else { 0 },
            bonus_spawn_multiplier: if inventory.has_perk(PerkId::BonusMagnet) { 1500 } else { 1000 },
            bonus_duration_multiplier: if inventory.has_perk(PerkId::BonusEconomist) { 1500 } else { 1000 },
            show_creature_health: inventory.has_perk(PerkId::Doctor) || inventory.has_perk(PerkId::MonsterVision),
            monster_vision: inventory.has_perk(PerkId::MonsterVision),
            perk_choices: PerkId::perk_choice_count(inventory),
            alternate_weapon: inventory.has_perk(PerkId::AlternateWeapon),
            time_scale: if inventory.has_perk(PerkId::ReflexBoosted) { 900 } else { 1000 },
            melee_counter_damage: if inventory.has_perk(PerkId::MrMelee) { 25_000 } else { 0 },
            final_revenge: inventory.has_perk(PerkId::FinalRevenge),
            death_clock: inventory.has_perk(PerkId::DeathClock),
            plaguebearer: inventory.has_perk(PerkId::Plaguebearer),
            evil_eyes: inventory.has_perk(PerkId::EvilEyes),
            jinxed: inventory.has_perk(PerkId::Jinxed),
            living_fortress: inventory.has_perk(PerkId::LivingFortress),
            disable_weapon_bonuses: inventory.has_perk(PerkId::MyFavouriteWeapon),
        }
    }
}

/// The multipliers that firing reads, resolved for one owner: every field in
/// thousandths, the accuracy bonus at most nine tenths and the critical
/// chance at most one.
#[derive(Debug, Clone, Copy, PartialEq, Eq, Structural)]
pub struct ModifierSet {
    pub damage_multiplier: u32,
    pub fire_rate_multiplier: u32,
    pub accuracy_bonus: u32,
    pub crit_chance: u32,
    pub crit_multiplier: u32,
    pub range_multiplier: u32,
    pub ammo_multiplier: u32,
}

/// The greatest accuracy bonus: spread is reduced, never taken away.
pub const MAX_ACCURACY_BONUS: u32 = 900;

impl ModifierSet {
    /// The accuracy bonus and the critical chance are within their limits.
    pub open spec fn wf(self) -> bool {
        self.accuracy_bonus <= MAX_ACCURACY_BONUS && self.crit_chance <= 1000
    }

    /// The same modifiers with the accuracy bonus cut off at nine tenths and
    /// the critical chance at one.
    pub open spec fn clamped(self) -> ModifierSet {
        ModifierSet {
            accuracy_bonus: if self.accuracy_bonus > MAX_ACCURACY_BONUS {
                MAX_ACCURACY_BONUS
            } else {
                self.accuracy_bonus
            },
            crit_chance: if self.crit_chance > 1000 {
                1000
            } else {
                self.crit_chance
            },
            ..self
        }
    }

    /// The modifiers that the given bonuses resolve to.
    pub open spec fn of(bonuses: PerkBonuses) -> ModifierSet {
        (ModifierSet {
            damage_multiplier: bonuses.damage_multiplier,
            fire_rate_multiplier: bonuses.fire_rate_multiplier,
            accuracy_bonus: bonuses.accuracy_bonus,
            crit_chance: bonuses.crit_chance,
            crit_multiplier: bonuses.crit_multiplier,
            range_multiplier: bonuses.range_multiplier,
            ammo_multiplier: bonuses.ammo_multiplier,
        }).clamped()
    }

    /// Cuts the accuracy bonus and the critical chance off at their limits.
    pub fn clamp(&self) -> (r: Self)
        ensures
            r == self.clamped(),
            r.wf(),
    {
        ModifierSet {
            damage_multiplier: self.damage_multiplier,
            fire_rate_multiplier: self.fire_rate_multiplier,
            accuracy_bonus: if self.accuracy_bonus > MAX_ACCURACY_BONUS {
                MAX_ACCURACY_BONUS
            } else {
                self.accuracy_bonus
            },
            crit_chance: if self.crit_chance > 1000 {
                1000
            } else {
                self.crit_chance
            },
            crit_multiplier: self.crit_multiplier,
            range_multiplier: self.range_multiplier,
            ammo_multiplier: self.ammo_multiplier,
        }
    }

    /// Resolves an owner's bonuses into the modifiers that firing reads.
    pub fn resolve(bonuses: &PerkBonuses) -> (r: Self)
        ensures
            r == ModifierSet::of(*bonuses),
            r.wf(),
    {
        let raw = ModifierSet {
            damage_multiplier: bonuses.damage_multiplier,
            fire_rate_multiplier: bonuses.fire_rate_multiplier,
            accuracy_bonus: bonuses.accuracy_bonus,
            crit_chance: bonuses.crit_chance,
            crit_multiplier: bonuses.crit_multiplier,
            range_multiplier: bonuses.range_multiplier,
            ammo_multiplier: bonuses.ammo_multiplier,
        };
        raw.clamp()
    }

    /// Folds an owner's perk inventory into its modifiers.
    pub fn aggregate(inventory: &PerkInventory) -> (r: Self)
        ensures
            r == ModifierSet::of(bonuses_of(inventory@)),
            r.wf(),
    {
        let bonuses = PerkBonuses::calculate(inventory);
        ModifierSet::resolve(&bonuses)
    }
}

/// Resolving is idempotent: modifiers within their limits are left as they
/// are, and cutting off twice is cutting off once.
pub proof fn lemma_clamped_idempotent(modifiers: ModifierSet)
    ensures
        modifiers.clamped().wf(),
        modifiers.clamped().clamped() == modifiers.clamped(),
        modifiers.wf() ==> modifiers.clamped() == modifiers,
        modifiers.clamped().damage_multiplier == modifiers.damage_multiplier,
        modifiers.clamped().fire_rate_multiplier == modifiers.fire_rate_multiplier,
        modifiers.clamped().crit_multiplier == modifiers.crit_multiplier,
        modifiers.clamped().range_multiplier == modifiers.range_multiplier,
        modifiers.clamped().ammo_multiplier == modifiers.ammo_multiplier,
{
}

} // verus!
