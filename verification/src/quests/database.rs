//! The quests: their waves, and what each wave spawns.

use vstd::prelude::*;
use crate::creatures::components::CreatureType;
use crate::fixed::clamp_u32;

verus! {

/// Unique identifier for each quest.
#[derive(Debug, Clone, Copy, PartialEq, Eq, Hash, Structural)]
pub enum QuestId {
    Q01LandHostile,
    Q02TheHunt,
    Q03NightFall,
    Q04FirstBlood,
    Q05Outbreak,
    Q06Surrounded,
    Q07LastStand,
    Q08RunnerUp,
    Q09Ambush,
    Q10Swarm,
    Q11GiantProblem,
    Q12Necropolis,
    Q13FireStorm,
    Q14DeadEnd,
    Q15Overrun,
    Q16Nightmare,
    Q17Carnage,
    Q18BloodBath,
    Q19Apocalypse,
    Q20Infestation,
    Q21TheNest,
    Q22SpidersDen,
    Q23WebOfDeath,
    Q24Arachnophobia,
    Q25EightLegs,
    Q26PoisonFang,
    Q27SilkTrap,
    Q28SpiderQueen,
    Q29FinalStrike,
    Q30QueenSpider,
    Q40AlienInvasion,
    Q41FirstContact,
    Q42Mothership,
    Q43AreaDenied,
    Q44Extermination,
}

/// A group of creatures of one type in a wave.
#[derive(Debug, Clone, Copy, PartialEq, Eq, Structural)]
pub struct SpawnEntry {
    pub creature: CreatureType,
    pub count: u32,
    /// Time between two spawns, in milliseconds.
    pub interval: u32,
}

/// Data for a wave within a quest.
#[derive(Debug)]
pub struct WaveData {
    /// Delay before this wave starts, in milliseconds.
    pub spawn_delay: u32,
    /// Creatures to spawn in this wave.
    pub spawns: Vec<SpawnEntry>,
}

/// The mathematical content of a [`WaveData`].
pub struct WaveDataView {
    pub spawn_delay: u32,
    pub spawns: Seq<SpawnEntry>,
}

impl View for WaveData {
    type V = WaveDataView;

    open spec fn view(&self) -> WaveDataView {
        WaveDataView { spawn_delay: self.spawn_delay, spawns: self.spawns@ }
    }
}

/// The sum of the counts of the first `n` entries.
pub open spec fn count_sum(spawns: Seq<SpawnEntry>, n: int) -> int
    decreases n,
{
    if n <= 0 {
        0
    } else {
        count_sum(spawns, n - 1) + spawns[n - 1].count
    }
}

/// Whether one of the first `n` entries is a boss.
pub open spec fn has_boss_upto(spawns: Seq<SpawnEntry>, n: int) -> bool
    decreases n,
{
    n > 0 && (has_boss_upto(spawns, n - 1) || spawns[n - 1].creature.spec_is_boss())
}

/// The first boss among the first `n` entries.
pub open spec fn first_boss(spawns: Seq<SpawnEntry>, n: int) -> Option<CreatureType>
    decreases n,
{
    if n <= 0 {
        None
    } else if first_boss(spawns, n - 1) is Some {
        first_boss(spawns, n - 1)
    } else if spawns[n - 1].creature.spec_is_boss() {
        Some(spawns[n - 1].creature)
    } else {
        None
    }
}

impl WaveDataView {
    /// The number of creatures of the wave, as far as it fits.
    pub open spec fn total_creatures(self) -> int {
        clamp_u32(count_sum(self.spawns, self.spawns.len() as int))
    }
}

impl WaveData {
    /// The number of creatures of the wave.
    pub fn total_creatures(&self) -> (r: u32)
        ensures
            r == self@.total_creatures(),
    {
        let mut total: u128 = 0;
        let mut i: usize = 0;
        while i < self.spawns.len()
            invariant
                i <= self.spawns.len(),
                total == count_sum(self.spawns@, i as int),
                total <= i * 0xFFFF_FFFF,
            decreases self.spawns.len() - i,
        {
            total = total + self.spawns[i].count as u128;
            i += 1;
        }
        if total > u32::MAX as u128 {
            u32::MAX
        } else {
            total as u32
        }
    }

    /// The first boss of the wave, if it has one.
    pub fn boss(&self) -> (r: Option<CreatureType>)
        ensures
            r == first_boss(self.spawns@, self.spawns@.len() as int),
    {
        let mut found: Option<CreatureType> = None;
        let mut i: usize = 0;
        while i < self.spawns.len()
            invariant
                i <= self.spawns.len(),
                found == first_boss(self.spawns@, i as int),
            decreases self.spawns.len() - i,
        {
            if found.is_none() && self.spawns[i].creature.is_boss() {
                found = Some(self.spawns[i].creature);
            }
            i += 1;
        }
        found
    }
}

impl Clone for WaveData {
    fn clone(&self) -> (r: Self)
        ensures
            r@ == self@,
    {
        WaveData { spawn_delay: self.spawn_delay, spawns: self.spawns.clone() }
    }
}

/// The views of a list of waves.
pub open spec fn wave_views(waves: Seq<WaveData>) -> Seq<WaveDataView> {
    Seq::new(waves.len(), |i: int| waves[i]@)
}

/// Data for a quest.
#[derive(Debug)]
pub struct QuestData {
    pub id: QuestId,
    pub chapter: u32,
    pub name: String,
    pub description: String,
    pub waves: Vec<WaveData>,
    /// Time limit in milliseconds, if any.
    pub time_limit: Option<u32>,
    /// The quest that must be done first, if any.
    pub unlock_requirement: Option<QuestId>,
}

/// The mathematical content of a [`QuestData`].
pub struct QuestDataView {
    pub id: QuestId,
    pub chapter: u32,
    pub name: Seq<char>,
    pub description: Seq<char>,
    pub waves: Seq<WaveDataView>,
    pub time_limit: Option<u32>,
    pub unlock_requirement: Option<QuestId>,
}

impl View for QuestData {
    type V = QuestDataView;

    open spec fn view(&self) -> QuestDataView {
        QuestDataView {
            id: self.id,
            chapter: self.chapter,
            name: self.name@,
            description: self.description@,
            waves: wave_views(self.waves@),
            time_limit: self.time_limit,
            unlock_requirement: self.unlock_requirement,
        }
    }
}

/// The views of a list of quests.
pub open spec fn quest_views(quests: Seq<QuestData>) -> Seq<QuestDataView> {
    Seq::new(quests.len(), |i: int| quests[i]@)
}

/// The built-in quests.
pub open spec fn builtin_quests() -> Seq<QuestDataView> {
    seq![
        QuestDataView {
            id: QuestId::Q01LandHostile,
            chapter: 1,
            name: "Land Hostile"@,
            description: "The surface is crawling with creatures. Survive the initial onslaught."@,
            waves: seq![
                WaveDataView {
                    spawn_delay: 0,
                    spawns: seq![
                        SpawnEntry { creature: CreatureType::Zombie, count: 10, interval: 500 },
                        SpawnEntry { creature: CreatureType::Spider, count: 5, interval: 300 },
                    ],
                },
                WaveDataView {
                    spawn_delay: 5000,
                    spawns: seq![
                        SpawnEntry { creature: CreatureType::Zombie, count: 20, interval: 300 },
                    ],
                },
            ],
            time_limit: None,
            unlock_requirement: None,
        },
        QuestDataView {
            id: QuestId::Q02TheHunt,
            chapter: 1,
            name: "The Hunt"@,
            description: "Spiders are everywhere. Clear them out."@,
            waves: seq![
                WaveDataView {
                    spawn_delay: 0,
                    spawns: seq![
                        SpawnEntry { creature: CreatureType::Spider, count: 30, interval: 200 },
                    ],
                },
                WaveDataView {
                    spawn_delay: 3000,
                    spawns: seq![
                        SpawnEntry { creature: CreatureType::Spider, count: 20, interval: 200 },
                        SpawnEntry { creature: CreatureType::AlienSpider, count: 5, interval: 1000 },
                    ],
                },
            ],
            time_limit: None,
            unlock_requirement: Some(QuestId::Q01LandHostile),
        },
        QuestDataView {
            id: QuestId::Q03NightFall,
            chapter: 1,
            name: "Night Fall"@,
            description: "Darkness brings more dangerous creatures."@,
            waves: seq![
                WaveDataView {
                    spawn_delay: 0,
                    spawns: seq![
                        SpawnEntry { creature: CreatureType::Zombie, count: 15, interval: 400 },
                        SpawnEntry { creature: CreatureType::Lizard, count: 10, interval: 500 },
                    ],
                },
                WaveDataView {
                    spawn_delay: 5000,
                    spawns: seq![
                        SpawnEntry { creature: CreatureType::Dog, count: 10, interval: 300 },
                        SpawnEntry { creature: CreatureType::Zombie, count: 20, interval: 300 },
                    ],
                },
            ],
            time_limit: None,
            unlock_requirement: Some(QuestId::Q02TheHunt),
        },
        QuestDataView {
            id: QuestId::Q10Swarm,
            chapter: 2,
            name: "Swarm"@,
            description: "An endless swarm approaches. Hold your ground."@,
            waves: seq![
                WaveDataView {
                    spawn_delay: 0,
                    spawns: seq![
                        SpawnEntry { creature: CreatureType::Spider, count: 50, interval: 150 },
                    ],
                },
                WaveDataView {
                    spawn_delay: 3000,
                    spawns: seq![
                        SpawnEntry { creature: CreatureType::Beetle, count: 40, interval: 200 },
                    ],
                },
                WaveDataView {
                    spawn_delay: 3000,
                    spawns: seq![
                        SpawnEntry { creature: CreatureType::Spider, count: 30, interval: 100 },
                        SpawnEntry { creature: CreatureType::AlienSpider, count: 10, interval: 500 },
                    ],
                },
            ],
            time_limit: None,
            unlock_requirement: Some(QuestId::Q03NightFall),
        },
        QuestDataView {
            id: QuestId::Q11GiantProblem,
            chapter: 2,
            name: "Giant Problem"@,
            description: "Giants have been spotted. They're slow but deadly."@,
            waves: seq![
                WaveDataView {
                    spawn_delay: 0,
                    spawns: seq![
                        SpawnEntry { creature: CreatureType::Giant, count: 3, interval: 2000 },
                        SpawnEntry { creature: CreatureType::Zombie, count: 20, interval: 300 },
                    ],
                },
                WaveDataView {
                    spawn_delay: 5000,
                    spawns: seq![
                        SpawnEntry { creature: CreatureType::Giant, count: 5, interval: 1500 },
                        SpawnEntry { creature: CreatureType::Lizard, count: 15, interval: 400 },
                    ],
                },
            ],
            time_limit: None,
            unlock_requirement: Some(QuestId::Q10Swarm),
        },
        QuestDataView {
            id: QuestId::Q20Infestation,
            chapter: 3,
            name: "Infestation"@,
            description: "The hive must be destroyed."@,
            waves: seq![
                WaveDataView {
                    spawn_delay: 0,
                    spawns: seq![
                        SpawnEntry { creature: CreatureType::AlienSpider, count: 20, interval: 300 },
                        SpawnEntry { creature: CreatureType::Spider, count: 30, interval: 200 },
                    ],
                },
                WaveDataView {
                    spawn_delay: 5000,
                    spawns: seq![
                        SpawnEntry { creature: CreatureType::GiantSpider, count: 3, interval: 3000 },
                    ],
                },
            ],
            time_limit: None,
            unlock_requirement: Some(QuestId::Q11GiantProblem),
        },
        QuestDataView {
            id: QuestId::Q30QueenSpider,
            chapter: 3,
            name: "Queen Spider"@,
            description: "The queen of all spiders awaits. This is the final battle."@,
            waves: seq![
                WaveDataView {
                    spawn_delay: 0,
                    spawns: seq![
                        SpawnEntry { creature: CreatureType::Spider, count: 20, interval: 300 },
                    ],
                },
                WaveDataView {
                    spawn_delay: 5000,
                    spawns: seq![
                        SpawnEntry { creature: CreatureType::BossSpider, count: 1, interval: 0 },
                        SpawnEntry { creature: CreatureType::AlienSpider, count: 10, interval: 1000 },
                    ],
                },
            ],
            time_limit: None,
            unlock_requirement: Some(QuestId::Q20Infestation),
        },
        QuestDataView {
            id: QuestId::Q40AlienInvasion,
            chapter: 4,
            name: "Alien Invasion"@,
            description: "Aliens have landed. Repel the invasion."@,
            waves: seq![
                WaveDataView {
                    spawn_delay: 0,
                    spawns: seq![
                        SpawnEntry { creature: CreatureType::AlienShooter, count: 10, interval: 500 },
                        SpawnEntry { creature: CreatureType::AlienSpider, count: 15, interval: 300 },
                    ],
                },
                WaveDataView {
                    spawn_delay: 8000,
                    spawns: seq![
                        SpawnEntry { creature: CreatureType::BossAlien, count: 1, interval: 0 },
                    ],
                },
            ],
            time_limit: None,
            unlock_requirement: Some(QuestId::Q30QueenSpider),
        },
    ]
}

/// Whether the quest at `index` is the first one with the id.
pub open spec fn is_first_quest(quests: Seq<QuestData>, id: QuestId, index: int) -> bool {
    &&& 0 <= index < quests.len()
    &&& quests[index].id == id
    &&& forall|j: int| 0 <= j < index ==> (#[trigger] quests[j]).id != id
}

/// Database of all quests.
#[derive(Debug)]
pub struct QuestDatabase {
    pub quests: Vec<QuestData>,
}

impl Default for QuestDatabase {
    fn default() -> (r: Self)
        ensures
            quest_views(r.quests@) == builtin_quests(),
    {
        QuestDatabase::new()
    }
}

impl QuestDatabase {
    /// A database that holds the built-in quests.
    pub fn new() -> (r: Self)
        ensures
            quest_views(r.quests@) == builtin_quests(),
    {
        let mut db = QuestDatabase { quests: Vec::new() };
        db.register_all_quests();
        db
    }

    /// The first quest with the id, or `None` for a quest the database does
    /// not hold.
    pub fn get(&self, id: QuestId) -> (r: Option<&QuestData>)
        ensures
            match r {
                Some(q) => exists|i: int| is_first_quest(self.quests@, id, i) && self.quests@[i] == *q,
                None => forall|j: int| 0 <= j < self.quests@.len() ==> (#[trigger] self.quests@[j]).id != id,
            },
    {
        let mut i: usize = 0;
        while i < self.quests.len()
            invariant
                i <= self.quests.len(),
                forall|j: int| 0 <= j < i ==> (#[trigger] self.quests@[j]).id != id,
            decreases self.quests.len() - i,
        {
            if self.quests[i].id == id {
                assert(is_first_quest(self.quests@, id, i as int));
                return Some(&self.quests[i]);
            }
            i += 1;
        }
        None
    }

    /// The quest at `index`, if there is one.
    pub fn get_by_index(&self, index: usize) -> (r: Option<&QuestData>)
        ensures
            match r {
                Some(q) => index < self.quests@.len() && self.quests@[index as int] == *q,
                None => index >= self.quests@.len(),
            },
    {
        if index < self.quests.len() {
            Some(&self.quests[index])
        } else {
            None
        }
    }

    /// Replaces the contents by the built-in quests.
    pub fn register_all_quests(&mut self)
        ensures
            quest_views(final(self).quests@) == builtin_quests(),
    {
        let mut quests: Vec<QuestData> = Vec::new();
        let mut waves: Vec<WaveData> = Vec::new();
        let mut spawns: Vec<SpawnEntry> = Vec::new();
        spawns.push(SpawnEntry { creature: CreatureType::Zombie, count: 10, interval: 500 });
        spawns.push(SpawnEntry { creature: CreatureType::Spider, count: 5, interval: 300 });
        waves.push(WaveData { spawn_delay: 0, spawns });
        let mut spawns: Vec<SpawnEntry> = Vec::new();
        spawns.push(SpawnEntry { creature: CreatureType::Zombie, count: 20, interval: 300 });
        waves.push(WaveData { spawn_delay: 5000, spawns });
        assert(wave_views(waves@) =~= builtin_quests()[0].waves) by {
            assert forall|i: int| 0 <= i < waves@.len() implies (#[trigger] waves@[i])@
                == builtin_quests()[0].waves[i] by {
                assert(waves@[i].spawns@ =~= builtin_quests()[0].waves[i].spawns);
            }
        }
        quests.push(
            QuestData {
                id: QuestId::Q01LandHostile,
                chapter: 1,
                name: "Land Hostile".to_owned(),
                description: "The surface is crawling with creatures. Survive the initial onslaught.".to_owned(),
                waves,
                time_limit: None,
                unlock_requirement: None,
            },
        );
        let mut waves: Vec<WaveData> = Vec::new();
        let mut spawns: Vec<SpawnEntry> = Vec::new();
        spawns.push(SpawnEntry { creature: CreatureType::Spider, count: 30, interval: 200 });
        waves.push(WaveData { spawn_delay: 0, spawns });
        let mut spawns: Vec<SpawnEntry> = Vec::new();
        spawns.push(SpawnEntry { creature: CreatureType::Spider, count: 20, interval: 200 });
        spawns.push(SpawnEntry { creature: CreatureType::AlienSpider, count: 5, interval: 1000 });
        waves.push(WaveData { spawn_delay: 3000, spawns });
        assert(wave_views(waves@) =~= builtin_quests()[1].waves) by {
            assert forall|i: int| 0 <= i < waves@.len() implies (#[trigger] waves@[i])@
                == builtin_quests()[1].waves[i] by {
                assert(waves@[i].spawns@ =~= builtin_quests()[1].waves[i].spawns);
            }
        }
        quests.push(
            QuestData {
                id: QuestId::Q02TheHunt,
                chapter: 1,
                name: "The Hunt".to_owned(),
                description: "Spiders are everywhere. Clear them out.".to_owned(),
                waves,
                time_limit: None,
                unlock_requirement: Some(QuestId::Q01LandHostile),
            },
        );
        let mut waves: Vec<WaveData> = Vec::new();
        let mut spawns: Vec<SpawnEntry> = Vec::new();
        spawns.push(SpawnEntry { creature: CreatureType::Zombie, count: 15, interval: 400 });
        spawns.push(SpawnEntry { creature: CreatureType::Lizard, count: 10, interval: 500 });
        waves.push(WaveData { spawn_delay: 0, spawns });
        let mut spawns: Vec<SpawnEntry> = Vec::new();
        spawns.push(SpawnEntry { creature: CreatureType::Dog, count: 10, interval: 300 });
        spawns.push(SpawnEntry { creature: CreatureType::Zombie, count: 20, interval: 300 });
        waves.push(WaveData { spawn_delay: 5000, spawns });
        assert(wave_views(waves@) =~= builtin_quests()[2].waves) by {
            assert forall|i: int| 0 <= i < waves@.len() implies (#[trigger] waves@[i])@
                == builtin_quests()[2].waves[i] by {
                assert(waves@[i].spawns@ =~= builtin_quests()[2].waves[i].spawns);
            }
        }
        quests.push(
            QuestData {
                id: QuestId::Q03NightFall,
                chapter: 1,
                name: "Night Fall".to_owned(),
                description: "Darkness brings more dangerous creatures.".to_owned(),
                waves,
                time_limit: None,
                unlock_requirement: Some(QuestId::Q02TheHunt),
            },
        );
        let mut waves: Vec<WaveData> = Vec::new();
        let mut spawns: Vec<SpawnEntry> = Vec::new();
        spawns.push(SpawnEntry { creature: CreatureType::Spider, count: 50, interval: 150 });
        waves.push(WaveData { spawn_delay: 0, spawns });
        let mut spawns: Vec<SpawnEntry> = Vec::new();
        spawns.push(SpawnEntry { creature: CreatureType::Beetle, count: 40, interval: 200 });
        waves.push(WaveData { spawn_delay: 3000, spawns });
        let mut spawns: Vec<SpawnEntry> = Vec::new();
        spawns.push(SpawnEntry { creature: CreatureType::Spider, count: 30, interval: 100 });
        spawns.push(SpawnEntry { creature: CreatureType::AlienSpider, count: 10, interval: 500 });
        waves.push(WaveData { spawn_delay: 3000, spawns });
        assert(wave_views(waves@) =~= builtin_quests()[3].waves) by {
            assert forall|i: int| 0 <= i < waves@.len() implies (#[trigger] waves@[i])@
                == builtin_quests()[3].waves[i] by {
                assert(waves@[i].spawns@ =~= builtin_quests()[3].waves[i].spawns);
            }
        }
        quests.push(
            QuestData {
                id: QuestId::Q10Swarm,
                chapter: 2,
                name: "Swarm".to_owned(),
                description: "An endless swarm approaches. Hold your ground.".to_owned(),
                waves,
                time_limit: None,
                unlock_requirement: Some(QuestId::Q03NightFall),
            },
        );
        let mut waves: Vec<WaveData> = Vec::new();
        let mut spawns: Vec<SpawnEntry> = Vec::new();
        spawns.push(SpawnEntry { creature: CreatureType::Giant, count: 3, interval: 2000 });
        spawns.push(SpawnEntry { creature: CreatureType::Zombie, count: 20, interval: 300 });
        waves.push(WaveData { spawn_delay: 0, spawns });
        let mut spawns: Vec<SpawnEntry> = Vec::new();
        spawns.push(SpawnEntry { creature: CreatureType::Giant, count: 5, interval: 1500 });
        spawns.push(SpawnEntry { creature: CreatureType::Lizard, count: 15, interval: 400 });
        waves.push(WaveData { spawn_delay: 5000, spawns });
        assert(wave_views(waves@) =~= builtin_quests()[4].waves) by {
            assert forall|i: int| 0 <= i < waves@.len() implies (#[trigger] waves@[i])@
                == builtin_quests()[4].waves[i] by {
                assert(waves@[i].spawns@ =~= builtin_quests()[4].waves[i].spawns);
            }
        }
        quests.push(
            QuestData {
                id: QuestId::Q11GiantProblem,
                chapter: 2,
                name: "Giant Problem".to_owned(),
                description: "Giants have been spotted. They're slow but deadly.".to_owned(),
                waves,
                time_limit: None,
                unlock_requirement: Some(QuestId::Q10Swarm),
            },
        );
        let mut waves: Vec<WaveData> = Vec::new();
        let mut spawns: Vec<SpawnEntry> = Vec::new();
        spawns.push(SpawnEntry { creature: CreatureType::AlienSpider, count: 20, interval: 300 });
        spawns.push(SpawnEntry { creature: CreatureType::Spider, count: 30, interval: 200 });
        waves.push(WaveData { spawn_delay: 0, spawns });
        let mut spawns: Vec<SpawnEntry> = Vec::new();
        spawns.push(SpawnEntry { creature: CreatureType::GiantSpider, count: 3, interval: 3000 });
        waves.push(WaveData { spawn_delay: 5000, spawns });
        assert(wave_views(waves@) =~= builtin_quests()[5].waves) by {
            assert forall|i: int| 0 <= i < waves@.len() implies (#[trigger] waves@[i])@
                == builtin_quests()[5].waves[i] by {
                assert(waves@[i].spawns@ =~= builtin_quests()[5].waves[i].spawns);
            }
        }
        quests.push(
            QuestData {
                id: QuestId::Q20Infestation,
                chapter: 3,
                name: "Infestation".to_owned(),
                description: "The hive must be destroyed.".to_owned(),
                waves,
                time_limit: None,
                unlock_requirement: Some(QuestId::Q11GiantProblem),
            },
        );
        let mut waves: Vec<WaveData> = Vec::new();
        let mut spawns: Vec<SpawnEntry> = Vec::new();
        spawns.push(SpawnEntry { creature: CreatureType::Spider, count: 20, interval: 300 });
        waves.push(WaveData { spawn_delay: 0, spawns });
        let mut spawns: Vec<SpawnEntry> = Vec::new();
        spawns.push(SpawnEntry { creature: CreatureType::BossSpider, count: 1, interval: 0 });
        spawns.push(SpawnEntry { creature: CreatureType::AlienSpider, count: 10, interval: 1000 });
        waves.push(WaveData { spawn_delay: 5000, spawns });
        assert(wave_views(waves@) =~= builtin_quests()[6].waves) by {
            assert forall|i: int| 0 <= i < waves@.len() implies (#[trigger] waves@[i])@
                == builtin_quests()[6].waves[i] by {
                assert(waves@[i].spawns@ =~= builtin_quests()[6].waves[i].spawns);
            }
        }
        quests.push(
            QuestData {
                id: QuestId::Q30QueenSpider,
                chapter: 3,
                name: "Queen Spider".to_owned(),
                description: "The queen of all spiders awaits. This is the final battle.".to_owned(),
                waves,
                time_limit: None,
                unlock_requirement: Some(QuestId::Q20Infestation),
            },
        );
        let mut waves: Vec<WaveData> = Vec::new();
        let mut spawns: Vec<SpawnEntry> = Vec::new();
        spawns.push(SpawnEntry { creature: CreatureType::AlienShooter, count: 10, interval: 500 });
        spawns.push(SpawnEntry { creature: CreatureType::AlienSpider, count: 15, interval: 300 });
        waves.push(WaveData { spawn_delay: 0, spawns });
        let mut spawns: Vec<SpawnEntry> = Vec::new();
        spawns.push(SpawnEntry { creature: CreatureType::BossAlien, count: 1, interval: 0 });
        waves.push(WaveData { spawn_delay: 8000, spawns });
        assert(wave_views(waves@) =~= builtin_quests()[7].waves) by {
            assert forall|i: int| 0 <= i < waves@.len() implies (#[trigger] waves@[i])@
                == builtin_quests()[7].waves[i] by {
                assert(waves@[i].spawns@ =~= builtin_quests()[7].waves[i].spawns);
            }
        }
        quests.push(
            QuestData {
                id: QuestId::Q40AlienInvasion,
                chapter: 4,
                name: "Alien Invasion".to_owned(),
                description: "Aliens have landed. Repel the invasion.".to_owned(),
                waves,
                time_limit: None,
                unlock_requirement: Some(QuestId::Q30QueenSpider),
            },
        );
        assert(quest_views(quests@) =~= builtin_quests());
        self.quests = quests;
    }
}

/// Every built-in quest has waves, and every wave has creatures.
pub proof fn lemma_builtin_quests_have_creatures(q: int, w: int)
    requires
        0 <= q < builtin_quests().len(),
        0 <= w < builtin_quests()[q].waves.len(),
    ensures
        builtin_quests()[q].waves.len() >= 2,
        builtin_quests()[q].waves[w].spawns.len() >= 1,
        builtin_quests()[q].waves[w].spawns[0].count > 0,
{
}

} // verus!
