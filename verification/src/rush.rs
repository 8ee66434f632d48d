//! Rush mode: timed rounds, a fixed loadout, and a score that rewards
//! streaks of kills.

use vstd::prelude::*;
use crate::creatures::components::CreatureType;
use crate::fixed::{clamp_u32, scale, scale_spec};
use crate::perks::classic::{bonuses_of, count, PerkBonuses, PerkId, PerkInventory};
use crate::rng::random_between;
use crate::weapons::components::{EquippedWeapon, WeaponId};

verus! {

/// Source of score points.
#[derive(Debug, Clone, Copy, PartialEq, Eq, Structural)]
pub enum ScoreSource {
    /// Points from killing a creature.
    Kill(CreatureType),
    /// Bonus for remaining time.
    TimeBonus,
}

/// Points to be scored.
#[derive(Debug, Clone, Copy, PartialEq, Eq, Structural)]
pub struct RushScoreEvent {
    pub points: u32,
    pub source: ScoreSource,
}

/// What a player starts a round with.
#[derive(Debug, Clone)]
pub struct RushLoadout {
    /// Starting weapon.
    pub weapon: WeaponId,
    /// Perks held from the start.
    pub perks: Vec<PerkId>,
    /// Name for display.
    pub name: String,
}

/// The mathematical content of a [`RushLoadout`].
pub struct RushLoadoutView {
    pub weapon: WeaponId,
    pub perks: Seq<PerkId>,
    pub name: Seq<char>,
}

impl View for RushLoadout {
    type V = RushLoadoutView;

    open spec fn view(&self) -> RushLoadoutView {
        RushLoadoutView { weapon: self.weapon, perks: self.perks@, name: self.name@ }
    }
}

/// The loadouts on offer.
pub open spec fn loadout_table() -> Seq<RushLoadoutView> {
    seq![
        RushLoadoutView {
            weapon: WeaponId::AssaultRifle,
            perks: seq![PerkId::TriggerHappy, PerkId::DeadlyAccuracy, PerkId::LongBarrel],
            name: "Assault"@,
        },
        RushLoadoutView {
            weapon: WeaponId::Shotgun,
            perks: seq![PerkId::FastReload, PerkId::DeadlyAccuracy, PerkId::ThickSkin],
            name: "Shotgunner"@,
        },
        RushLoadoutView {
            weapon: WeaponId::Minigun,
            perks: seq![PerkId::TriggerHappy, PerkId::LongBarrel, PerkId::ThickSkin],
            name: "Heavy"@,
        },
        RushLoadoutView {
            weapon: WeaponId::RocketLauncher,
            perks: seq![PerkId::Pyromaniac, PerkId::FastReload, PerkId::ThickSkin],
            name: "Demolition"@,
        },
        RushLoadoutView {
            weapon: WeaponId::PlasmaRifle,
            perks: seq![PerkId::TriggerHappy, PerkId::DeadlyAccuracy, PerkId::CriticalHit],
            name: "Plasma"@,
        },
    ]
}

/// The views of a list of loadouts.
pub open spec fn loadout_views(loadouts: Seq<RushLoadout>) -> Seq<RushLoadoutView> {
    Seq::new(loadouts.len(), |i: int| loadouts[i]@)
}

/// A loadout of three perks.
fn make_loadout(weapon: WeaponId, first: PerkId, second: PerkId, third: PerkId, name: &str) -> (r:
    RushLoadout)
    ensures
        r@ == (RushLoadoutView { weapon, perks: seq![first, second, third], name: name@ }),
{
    let mut perks: Vec<PerkId> = Vec::new();
    perks.push(first);
    perks.push(second);
    perks.push(third);
    assert(perks@ =~= seq![first, second, third]);
    RushLoadout { weapon, perks, name: name.to_owned() }
}

impl Default for RushLoadout {
    /// The first loadout on offer.
    fn default() -> (r: Self)
        ensures
            r@ == loadout_table()[0],
    {
        make_loadout(
            WeaponId::AssaultRifle,
            PerkId::TriggerHappy,
            PerkId::DeadlyAccuracy,
            PerkId::LongBarrel,
            "Assault",
        )
    }
}

/// The loadouts on offer.
pub fn available_loadouts() -> (r: Vec<RushLoadout>)
    ensures
        loadout_views(r@) == loadout_table(),
{
    let mut loadouts: Vec<RushLoadout> = Vec::new();
    loadouts.push(make_loadout(WeaponId::AssaultRifle, PerkId::TriggerHappy, PerkId::DeadlyAccuracy, PerkId::LongBarrel, "Assault"));
    loadouts.push(make_loadout(WeaponId::Shotgun, PerkId::FastReload, PerkId::DeadlyAccuracy, PerkId::ThickSkin, "Shotgunner"));
    loadouts.push(make_loadout(WeaponId::Minigun, PerkId::TriggerHappy, PerkId::LongBarrel, PerkId::ThickSkin, "Heavy"));
    loadouts.push(make_loadout(WeaponId::RocketLauncher, PerkId::Pyromaniac, PerkId::FastReload, PerkId::ThickSkin, "Demolition"));
    loadouts.push(make_loadout(WeaponId::PlasmaRifle, PerkId::TriggerHappy, PerkId::DeadlyAccuracy, PerkId::CriticalHit, "Plasma"));
    assert(loadout_views(loadouts@) =~= loadout_table());
    loadouts
}

/// Every loadout on offer has three perks.
pub proof fn lemma_loadouts_have_three_perks(i: int)
    requires
        0 <= i < loadout_table().len(),
    ensures
        loadout_table()[i].perks.len() == 3,
{
}

/// State of a round: times in milliseconds.
#[derive(Debug, Clone)]
pub struct RushState {
    /// Time remaining; below zero once the end of the round was handled.
    pub time_remaining: i32,
    /// Total round duration.
    pub round_duration: u32,
    /// Current score.
    pub score: u32,
    /// Kills in a row.
    pub kill_streak: u32,
    /// Time since the last kill.
    pub streak_timer: u32,
    /// Time since the last creature spawn.
    pub spawn_timer: u32,
    /// Active loadout.
    pub loadout: RushLoadout,
    /// Whether the round is over.
    pub round_over: bool,
    /// Total kills this round.
    pub total_kills: u32,
}

/// The numbers of a round, without its loadout.
#[derive(Debug, Clone, Copy, PartialEq, Eq, Structural)]
pub struct RushCounters {
    pub time_remaining: i32,
    pub round_duration: u32,
    pub score: u32,
    pub kill_streak: u32,
    pub streak_timer: u32,
    pub spawn_timer: u32,
    pub round_over: bool,
    pub total_kills: u32,
}

/// Time between spawns: constant and short.
pub const RUSH_SPAWN_INTERVAL: u32 = 500;

/// A streak breaks when this much time passes without a kill.
pub const STREAK_TIMEOUT: u32 = 2000;

/// Rounds in the weapon of a loadout.
pub const LOADOUT_AMMO: u32 = 200;

/// The score multiplier for a streak, in thousandths.
pub open spec fn streak_factor(kill_streak: u32) -> u32 {
    if kill_streak <= 4 {
        1000
    } else if kill_streak <= 9 {
        1500
    } else if kill_streak <= 19 {
        2000
    } else if kill_streak <= 49 {
        3000
    } else {
        5000
    }
}

/// Whether a streak of this length earns a combo bonus.
pub open spec fn is_milestone(kill_streak: u32) -> bool {
    kill_streak == 10 || kill_streak == 25 || kill_streak == 50 || kill_streak == 100
}

/// `a + b`, stopping at the top of `u32`.
pub open spec fn added(a: int, b: int) -> u32 {
    clamp_u32(a + b) as u32
}

/// The time that has passed of a round.
pub open spec fn elapsed(c: RushCounters) -> int {
    if c.time_remaining <= 0 {
        c.round_duration as int
    } else if c.time_remaining >= c.round_duration {
        0
    } else {
        c.round_duration - c.time_remaining
    }
}

/// The creatures that a round spawns once `elapsed` milliseconds have passed.
pub open spec fn rush_roster(elapsed: int) -> Seq<CreatureType> {
    if elapsed < 30_000 {
        seq![CreatureType::Zombie, CreatureType::Spider, CreatureType::Beetle]
    } else if elapsed < 60_000 {
        seq![
            CreatureType::Zombie,
            CreatureType::Spider,
            CreatureType::Beetle,
            CreatureType::Runner,
            CreatureType::Dog,
        ]
    } else if elapsed < 90_000 {
        seq![
            CreatureType::Zombie,
            CreatureType::Spider,
            CreatureType::Runner,
            CreatureType::Dog,
            CreatureType::Lizard,
            CreatureType::AlienSpider,
            CreatureType::Phantom,
        ]
    } else {
        seq![
            CreatureType::Zombie,
            CreatureType::Spider,
            CreatureType::Runner,
            CreatureType::Dog,
            CreatureType::Lizard,
            CreatureType::AlienSpider,
            CreatureType::AlienShooter,
            CreatureType::GiantSpider,
            CreatureType::Necromancer,
            CreatureType::Exploder,
        ]
    }
}

impl RushCounters {
    /// The counters after `dt` milliseconds: a round that is over stands
    /// still; else the time runs, a streak without a kill for too long
    /// breaks, and the round ends when no time remains.
    pub open spec fn after_tick(self, dt: u32) -> RushCounters {
        if self.round_over {
            self
        } else {
            let left = self.time_remaining - dt;
            let streak_timer = added(self.streak_timer as int, dt as int);
            RushCounters {
                time_remaining: if left <= 0 {
                    0
                } else {
                    left as i32
                },
                spawn_timer: added(self.spawn_timer as int, dt as int),
                streak_timer,
                kill_streak: if streak_timer > STREAK_TIMEOUT {
                    0
                } else {
                    self.kill_streak
                },
                round_over: left <= 0,
                ..self
            }
        }
    }

    /// The points that an event is worth: its points times the multiplier of
    /// the streak.
    pub open spec fn worth(self, points: u32) -> u32 {
        scale_spec(points as int, streak_factor(self.kill_streak) as int) as u32
    }

    /// The counters after scoring an event. The points count times the
    /// multiplier of the streak as it stood; a kill then lengthens the
    /// streak, and a streak that reaches a milestone earns ten points for
    /// each of its kills, times the same multiplier.
    pub open spec fn after_score(self, event: RushScoreEvent) -> RushCounters {
        let scored = added(self.score as int, self.worth(event.points) as int);
        match event.source {
            ScoreSource::TimeBonus => RushCounters { score: scored, ..self },
            ScoreSource::Kill(_) => {
                let streak = added(self.kill_streak as int, 1);
                RushCounters {
                    score: if is_milestone(streak) {
                        added(
                            scored as int,
                            scale_spec(
                                clamp_u32(streak * 10),
                                streak_factor(self.kill_streak) as int,
                            ),
                        )
                    } else {
                        scored
                    },
                    kill_streak: streak,
                    streak_timer: 0,
                    total_kills: added(self.total_kills as int, 1),
                    ..self
                }
            },
        }
    }

    /// The bonus for the time left at the end of a round: ten points for
    /// every second.
    pub open spec fn time_bonus(self) -> u32 {
        if self.time_remaining <= 0 {
            0
        } else {
            (self.time_remaining / 100) as u32
        }
    }
}

impl RushState {
    /// The numbers of the round.
    pub open spec fn counters(&self) -> RushCounters {
        RushCounters {
            time_remaining: self.time_remaining,
            round_duration: self.round_duration,
            score: self.score,
            kill_streak: self.kill_streak,
            streak_timer: self.streak_timer,
            spawn_timer: self.spawn_timer,
            round_over: self.round_over,
            total_kills: self.total_kills,
        }
    }

    /// A round of `duration` milliseconds that has not begun.
    pub fn new(duration: u32, loadout: RushLoadout) -> (r: Self)
        ensures
            r.loadout@ == loadout@,
            r.counters() == (RushCounters {
                time_remaining: if duration > i32::MAX {
                    i32::MAX
                } else {
                    duration as i32
                },
                round_duration: duration,
                score: 0,
                kill_streak: 0,
                streak_timer: 0,
                spawn_timer: 0,
                round_over: false,
                total_kills: 0,
            }),
    {
        RushState {
            time_remaining: if duration > i32::MAX as u32 {
                i32::MAX
            } else {
                duration as i32
            },
            round_duration: duration,
            score: 0,
            kill_streak: 0,
            streak_timer: 0,
            spawn_timer: 0,
            loadout,
            round_over: false,
            total_kills: 0,
        }
    }

    /// The time between spawns.
    pub fn spawn_interval(&self) -> (r: u32)
        ensures
            r == RUSH_SPAWN_INTERVAL,
    {
        RUSH_SPAWN_INTERVAL
    }

    /// The score multiplier for the streak, in thousandths.
    pub fn streak_multiplier(&self) -> (r: u32)
        ensures
            r == streak_factor(self.kill_streak),
    {
        if self.kill_streak <= 4 {
            1000
        } else if self.kill_streak <= 9 {
            1500
        } else if self.kill_streak <= 19 {
            2000
        } else if self.kill_streak <= 49 {
            3000
        } else {
            5000
        }
    }

    /// The score that a kill of the creature is worth before the multiplier.
    pub open spec fn spec_creature_score(creature_type: CreatureType) -> u32 {
        match creature_type {
            CreatureType::Zombie => 10,
            CreatureType::Spider => 15,
            CreatureType::Lizard => 20,
            CreatureType::Beetle => 15,
            CreatureType::AlienSpider => 35,
            CreatureType::Giant => 100,
            CreatureType::Necromancer => 80,
            CreatureType::GiantSpider => 120,
            CreatureType::Dog => 25,
            CreatureType::Runner => 30,
            CreatureType::AlienShooter => 40,
            CreatureType::Turret => 50,
            CreatureType::Phantom => 45,
            CreatureType::Exploder => 35,
            CreatureType::Splitter => 40,
            CreatureType::BossSpider => 500,
            CreatureType::BossAlien => 800,
            CreatureType::BossNest => 1000,
        }
    }

    /// The score that a kill of the creature is worth before the multiplier.
    pub fn creature_score(creature_type: CreatureType) -> (r: u32)
        ensures
            r == RushState::spec_creature_score(creature_type),
    {
        match creature_type {
            CreatureType::Zombie => 10,
            CreatureType::Spider => 15,
            CreatureType::Lizard => 20,
            CreatureType::Beetle => 15,
            CreatureType::AlienSpider => 35,
            CreatureType::Giant => 100,
            CreatureType::Necromancer => 80,
            CreatureType::GiantSpider => 120,
            CreatureType::Dog => 25,
            CreatureType::Runner => 30,
            CreatureType::AlienShooter => 40,
            CreatureType::Turret => 50,
            CreatureType::Phantom => 45,
            CreatureType::Exploder => 35,
            CreatureType::Splitter => 40,
            CreatureType::BossSpider => 500,
            CreatureType::BossAlien => 800,
            CreatureType::BossNest => 1000,
        }
    }

    /// The bonus for the time left at the end of the round.
    pub fn calculate_time_bonus(&self) -> (r: u32)
        ensures
            r == self.counters().time_bonus(),
    {
        if self.time_remaining <= 0 {
            0
        } else {
            (self.time_remaining / 100) as u32
        }
    }

    /// The creatures that the round spawns at this point, harder ones the
    /// longer it has run.
    pub fn available_creatures(&self) -> (r: Vec<CreatureType>)
        ensures
            r@ == rush_roster(elapsed(self.counters())),
            3 <= r@.len() <= 10,
    {
        let passed: u32 = if self.time_remaining <= 0 {
            self.round_duration
        } else if self.time_remaining as u32 >= self.round_duration {
            0
        } else {
            self.round_duration - self.time_remaining as u32
        };
        let mut list: Vec<CreatureType> = Vec::new();
        list.push(CreatureType::Zombie);
        list.push(CreatureType::Spider);
        if passed < 30_000 {
            list.push(CreatureType::Beetle);
        } else if passed < 60_000 {
            list.push(CreatureType::Beetle);
            list.push(CreatureType::Runner);
            list.push(CreatureType::Dog);
        } else {
            list.push(CreatureType::Runner);
            list.push(CreatureType::Dog);
            list.push(CreatureType::Lizard);
            list.push(CreatureType::AlienSpider);
            if passed < 90_000 {
                list.push(CreatureType::Phantom);
            } else {
                list.push(CreatureType::AlienShooter);
                list.push(CreatureType::GiantSpider);
                list.push(CreatureType::Necromancer);
                list.push(CreatureType::Exploder);
            }
        }
        assert(list@ =~= rush_roster(elapsed(self.counters())));
        list
    }

    /// The creature at a place among those that the round spawns at this
    /// point; the first of them for a place beyond the last.
    pub open spec fn spec_creature_at(&self, index: usize) -> CreatureType {
        let roster = rush_roster(elapsed(self.counters()));
        if index < roster.len() {
            roster[index as int]
        } else {
            roster[0]
        }
    }

    /// The creature at a place among those that the round spawns at this
    /// point; the first of them for a place beyond the last.
    pub fn creature_at(&self, index: usize) -> (r: CreatureType)
        ensures
            r == self.spec_creature_at(index),
    {
        let list = self.available_creatures();
        if index < list.len() {
            list[index]
        } else {
            list[0]
        }
    }

    /// Draws one of the creatures that the round spawns at this point.
    pub fn pick_creature(&self) -> (r: CreatureType)
        ensures
            rush_roster(elapsed(self.counters())).contains(r),
    {
        let count: usize = self.available_creatures().len();
        let index: i64 = random_between(0, count as i64 - 1);
        self.creature_at(index as usize)
    }

    /// Lets `dt` milliseconds pass.
    pub fn update_timer(&mut self, dt: u32)
        ensures
            final(self).counters() == old(self).counters().after_tick(dt),
            final(self).loadout@ == old(self).loadout@,
    {
        if self.round_over {
            return ;
        }
        let left: i64 = self.time_remaining as i64 - dt as i64;
        self.spawn_timer = self.spawn_timer.saturating_add(dt);
        self.streak_timer = self.streak_timer.saturating_add(dt);
        if self.streak_timer > STREAK_TIMEOUT {
            self.kill_streak = 0;
        }
        if left <= 0 {
            self.time_remaining = 0;
            self.round_over = true;
        } else {
            self.time_remaining = left as i32;
        }
    }

    /// Whether creatures are due: the round runs and the spawn timer has
    /// reached the interval.
    pub open spec fn spawn_due(&self) -> bool {
        !self.round_over && self.spawn_timer >= RUSH_SPAWN_INTERVAL
    }

    /// Where creatures are due, resets the spawn timer and returns true.
    pub fn take_spawn(&mut self) -> (r: bool)
        ensures
            r == old(self).spawn_due(),
            final(self).counters() == if r {
                RushCounters { spawn_timer: 0, ..old(self).counters() }
            } else {
                old(self).counters()
            },
            final(self).loadout@ == old(self).loadout@,
    {
        if !self.round_over && self.spawn_timer >= RUSH_SPAWN_INTERVAL {
            self.spawn_timer = 0;
            true
        } else {
            false
        }
    }

    /// Scores an event.
    pub fn track_score(&mut self, event: RushScoreEvent)
        ensures
            final(self).counters() == old(self).counters().after_score(event),
            final(self).loadout@ == old(self).loadout@,
    {
        let multiplier: u32 = self.streak_multiplier();
        let points: u32 = scale(event.points, multiplier);
        self.score = self.score.saturating_add(points);
        match event.source {
            ScoreSource::Kill(_) => {
                self.kill_streak = self.kill_streak.saturating_add(1);
                self.streak_timer = 0;
                self.total_kills = self.total_kills.saturating_add(1);
                let streak: u32 = self.kill_streak;
                if streak == 10 || streak == 25 || streak == 50 || streak == 100 {
                    let combo: u32 = scale(streak * 10, multiplier);
                    self.score = self.score.saturating_add(combo);
                }
            },
            ScoreSource::TimeBonus => {},
        }
    }

    /// Ends a round that is over: returns the event for the time bonus, where
    /// there is one, and marks the round as handled. A round that still runs
    /// is left alone.
    pub fn handle_round_end(&mut self) -> (r: Option<RushScoreEvent>)
        ensures
            final(self).loadout@ == old(self).loadout@,
            !old(self).round_over ==> r is None && final(self).counters() == old(self).counters(),
            old(self).round_over ==> final(self).counters() == (RushCounters {
                round_over: false,
                time_remaining: -1i32,
                ..old(self).counters()
            }) && r == if old(self).counters().time_bonus() > 0 {
                Some(
                    RushScoreEvent {
                        points: old(self).counters().time_bonus(),
                        source: ScoreSource::TimeBonus,
                    },
                )
            } else {
                None
            },
    {
        if !self.round_over {
            return None;
        }
        let bonus: u32 = self.calculate_time_bonus();
        self.round_over = false;
        self.time_remaining = -1;
        if bonus > 0 {
            Some(RushScoreEvent { points: bonus, source: ScoreSource::TimeBonus })
        } else {
            None
        }
    }
}

impl Default for RushState {
    /// A round of two minutes with the first loadout.
    fn default() -> (r: Self)
        ensures
            r.loadout@ == loadout_table()[0],
            r.counters() == (RushCounters {
                time_remaining: 120_000,
                round_duration: 120_000,
                score: 0,
                kill_streak: 0,
                streak_timer: 0,
                spawn_timer: 0,
                round_over: false,
                total_kills: 0,
            }),
    {
        RushState::new(120_000, RushLoadout::default())
    }
}

/// The score event for a kill.
pub fn handle_rush_kill(creature_type: CreatureType) -> (r: RushScoreEvent)
    ensures
        r == (RushScoreEvent {
            points: RushState::spec_creature_score(creature_type),
            source: ScoreSource::Kill(creature_type),
        }),
{
    RushScoreEvent {
        points: RushState::creature_score(creature_type),
        source: ScoreSource::Kill(creature_type),
    }
}

/// The number of creatures of one spawn: two to four.
pub fn draw_spawn_count() -> (r: u32)
    ensures
        2 <= r <= 4,
{
    random_between(2, 4) as u32
}

/// The slots of an inventory after the first `n` of the perks were added.
pub open spec fn with_perks(slots: Seq<u8>, perks: Seq<PerkId>, n: int) -> Seq<u8>
    decreases n,
{
    if n <= 0 {
        slots
    } else {
        let earlier = with_perks(slots, perks, n - 1);
        earlier.update(
            perks[n - 1].spec_index(),
            if count(earlier, perks[n - 1]) < 255 {
                (count(earlier, perks[n - 1]) + 1) as u8
            } else {
                255u8
            },
        )
    }
}

/// Gives a player the perks of a loadout, and returns the bonuses of the
/// inventory as it then stands.
pub fn apply_loadout_to_player(loadout: &RushLoadout, inventory: &mut PerkInventory) -> (r: PerkBonuses)
    ensures
        final(inventory)@ == with_perks(old(inventory)@, loadout.perks@, loadout.perks@.len() as int),
        r == bonuses_of(final(inventory)@),
{
    let mut i: usize = 0;
    while i < loadout.perks.len()
        invariant
            i <= loadout.perks.len(),
            inventory@ == with_perks(old(inventory)@, loadout.perks@, i as int),
        decreases loadout.perks.len() - i,
    {
        inventory.add_perk(loadout.perks[i]);
        i += 1;
    }
    PerkBonuses::calculate(inventory)
}

/// The weapon that a loadout starts with: full, with ammunition to spare.
pub fn loadout_weapon(loadout: &RushLoadout) -> (r: EquippedWeapon)
    ensures
        r == (EquippedWeapon {
            weapon_id: loadout.weapon,
            ammo: Some(LOADOUT_AMMO),
            fire_cooldown: 0,
            reload_timer: 0,
            max_ammo: Some(LOADOUT_AMMO),
        }),
{
    EquippedWeapon::new(loadout.weapon, Some(LOADOUT_AMMO))
}

} // verus!
