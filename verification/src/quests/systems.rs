//! The progress through a quest: timers, spawning, and the end of waves and
//! quests.

use vstd::prelude::*;
use crate::creatures::components::CreatureType;
use crate::fixed::clamp_u32;
use crate::quests::builders::{
    create_standard_builder, create_wave_builder, expanded, repeat_creature, BossWaveBuilder,
    QuestBuilder, SpawnCommand, SwarmBuilder, TimedWaveBuilder, WaveType,
};
use crate::quests::database::{
    first_boss, is_first_quest, QuestData, QuestDatabase, QuestId, SpawnEntry, WaveData,
    WaveDataView,
};

verus! {

/// Currently active quest.
#[derive(Debug, Clone, Copy, PartialEq, Eq, Structural)]
pub struct ActiveQuest {
    pub quest_id: Option<QuestId>,
}

impl Default for ActiveQuest {
    fn default() -> (r: Self)
        ensures
            r.quest_id is None,
    {
        ActiveQuest { quest_id: None }
    }
}

impl ActiveQuest {
    /// The quest with the id, active.
    pub fn new(quest_id: QuestId) -> (r: Self)
        ensures
            r.quest_id == Some(quest_id),
    {
        ActiveQuest { quest_id: Some(quest_id) }
    }
}

/// Whether a quest is active.
pub fn quest_is_active(active_quest: &ActiveQuest) -> (r: bool)
    ensures
        r == (active_quest.quest_id is Some),
{
    active_quest.quest_id.is_some()
}

/// A quest was completed.
#[derive(Debug, Clone, Copy, PartialEq, Eq, Structural)]
pub struct QuestCompletedEvent {
    pub quest_id: QuestId,
    /// Time the quest took, in milliseconds.
    pub time: u32,
    pub kills: u32,
}

/// A wave was completed.
#[derive(Debug, Clone, Copy, PartialEq, Eq, Structural)]
pub struct WaveCompletedEvent {
    pub wave_index: usize,
}

/// Progress through the current quest: times in milliseconds.
#[derive(Debug)]
pub struct QuestProgress {
    /// Current wave index.
    pub current_wave: usize,
    /// Time elapsed in the current wave.
    pub wave_time: u32,
    /// Total time elapsed in the quest.
    pub total_time: u32,
    /// Creatures spawned so far of each entry of the current wave.
    pub spawned_in_wave: Vec<u32>,
    /// Time until the next spawn of each entry.
    pub spawn_timers: Vec<u32>,
    /// Whether the current wave is complete.
    pub wave_complete: bool,
    /// Time left before the wave starts.
    pub wave_delay_timer: u32,
    /// Whether the wave waits for its delay.
    pub waiting_for_delay: bool,
    /// Total kills in this quest.
    pub kills: u32,
    /// Boss kills in this quest.
    pub boss_kills: u32,
}

/// The mathematical content of a [`QuestProgress`].
pub struct QuestProgressView {
    pub current_wave: usize,
    pub wave_time: u32,
    pub total_time: u32,
    pub spawned_in_wave: Seq<u32>,
    pub spawn_timers: Seq<u32>,
    pub wave_complete: bool,
    pub wave_delay_timer: u32,
    pub waiting_for_delay: bool,
    pub kills: u32,
    pub boss_kills: u32,
}

impl View for QuestProgress {
    type V = QuestProgressView;

    open spec fn view(&self) -> QuestProgressView {
        QuestProgressView {
            current_wave: self.current_wave,
            wave_time: self.wave_time,
            total_time: self.total_time,
            spawned_in_wave: self.spawned_in_wave@,
            spawn_timers: self.spawn_timers@,
            wave_complete: self.wave_complete,
            wave_delay_timer: self.wave_delay_timer,
            waiting_for_delay: self.waiting_for_delay,
            kills: self.kills,
            boss_kills: self.boss_kills,
        }
    }
}

/// `a + b`, stopping at the top of `u32`.
pub open spec fn added(a: u32, b: u32) -> u32 {
    clamp_u32(a + b) as u32
}

/// `a - b`, stopping at zero.
pub open spec fn run_down(a: u32, b: u32) -> u32 {
    if a >= b {
        (a - b) as u32
    } else {
        0
    }
}

/// `n` zeros.
pub open spec fn zeros(n: nat) -> Seq<u32> {
    Seq::new(n, |i: int| 0u32)
}

/// Whether entry `i` of the wave spawns a creature in the next `dt`
/// milliseconds: its counter is kept, it has creatures left, and its timer
/// runs out.
pub open spec fn spawns_now(p: QuestProgressView, spawns: Seq<SpawnEntry>, dt: u32, i: int) -> bool {
    i < p.spawned_in_wave.len() && p.spawned_in_wave[i] < spawns[i].count && p.spawn_timers[i]
        <= dt
}

/// The creatures that the first `n` entries of the wave spawn in the next
/// `dt` milliseconds, in the order of the entries.
pub open spec fn spawned_now(p: QuestProgressView, spawns: Seq<SpawnEntry>, dt: u32, n: int) -> Seq<
    CreatureType,
>
    decreases n,
{
    if n <= 0 {
        Seq::empty()
    } else if spawns_now(p, spawns, dt, n - 1) {
        spawned_now(p, spawns, dt, n - 1).push(spawns[n - 1].creature)
    } else {
        spawned_now(p, spawns, dt, n - 1)
    }
}

/// The counter of entry `i` after the next `dt` milliseconds.
pub open spec fn counter_after(p: QuestProgressView, spawns: Seq<SpawnEntry>, dt: u32, i: int) -> u32 {
    if i < spawns.len() && spawns_now(p, spawns, dt, i) {
        (p.spawned_in_wave[i] + 1) as u32
    } else {
        p.spawned_in_wave[i]
    }
}

/// The timer of entry `i` after the next `dt` milliseconds: it runs while
/// the entry has creatures left, and starts anew with each spawn.
pub open spec fn timer_after(p: QuestProgressView, spawns: Seq<SpawnEntry>, dt: u32, i: int) -> u32 {
    if i >= spawns.len() || i >= p.spawned_in_wave.len() || p.spawned_in_wave[i]
        >= spawns[i].count {
        p.spawn_timers[i]
    } else if p.spawn_timers[i] <= dt {
        spawns[i].interval
    } else {
        (p.spawn_timers[i] - dt) as u32
    }
}

/// Whether every entry among the first `n` that the progress keeps a counter
/// for has spawned all its creatures.
pub open spec fn all_spawned_upto(p: QuestProgressView, spawns: Seq<SpawnEntry>, n: int) -> bool
    decreases n,
{
    n <= 0 || (all_spawned_upto(p, spawns, n - 1) && (n - 1 >= p.spawned_in_wave.len() || n - 1
        >= spawns.len() || p.spawned_in_wave[n - 1] >= spawns[n - 1].count))
}

/// Once an entry has creatures left, so has every longer run of entries.
pub proof fn lemma_not_all_spawned(p: QuestProgressView, spawns: Seq<SpawnEntry>, n: int, m: int)
    requires
        0 <= n <= m,
        !all_spawned_upto(p, spawns, n),
    ensures
        !all_spawned_upto(p, spawns, m),
    decreases m - n,
{
    if n < m {
        lemma_not_all_spawned(p, spawns, n, m - 1);
    }
}

impl QuestProgressView {
    /// There is a timer for every counter.
    pub open spec fn wf(self) -> bool {
        self.spawn_timers.len() == self.spawned_in_wave.len()
    }

    /// Progress at the start of a quest.
    pub open spec fn fresh() -> QuestProgressView {
        QuestProgressView {
            current_wave: 0,
            wave_time: 0,
            total_time: 0,
            spawned_in_wave: Seq::empty(),
            spawn_timers: Seq::empty(),
            wave_complete: false,
            wave_delay_timer: 0,
            waiting_for_delay: false,
            kills: 0,
            boss_kills: 0,
        }
    }

    /// Progress at the start of a wave with `entries` entries and the delay.
    pub open spec fn starting(self, entries: nat, spawn_delay: u32) -> QuestProgressView {
        QuestProgressView {
            wave_time: 0,
            spawned_in_wave: zeros(entries),
            spawn_timers: zeros(entries),
            wave_complete: false,
            wave_delay_timer: spawn_delay,
            waiting_for_delay: spawn_delay > 0,
            ..self
        }
    }

    /// Progress in the next wave.
    pub open spec fn advanced(self) -> QuestProgressView {
        QuestProgressView {
            current_wave: if self.current_wave < usize::MAX {
                (self.current_wave + 1) as usize
            } else {
                self.current_wave
            },
            wave_complete: false,
            ..self
        }
    }

    /// Progress after `dt` milliseconds: the clocks run, and the delay of the
    /// wave runs down.
    pub open spec fn after_tick(self, dt: u32) -> QuestProgressView {
        QuestProgressView {
            total_time: added(self.total_time, dt),
            wave_time: added(self.wave_time, dt),
            wave_delay_timer: if self.waiting_for_delay {
                run_down(self.wave_delay_timer, dt)
            } else {
                self.wave_delay_timer
            },
            waiting_for_delay: self.waiting_for_delay && self.wave_delay_timer > dt,
            ..self
        }
    }

    /// Progress after the kill of a creature.
    pub open spec fn after_kill(self, creature_type: CreatureType) -> QuestProgressView {
        QuestProgressView {
            kills: added(self.kills, 1),
            boss_kills: if creature_type.spec_is_boss() {
                added(self.boss_kills, 1)
            } else {
                self.boss_kills
            },
            ..self
        }
    }
}

impl Default for QuestProgress {
    fn default() -> (r: Self)
        ensures
            r@ == QuestProgressView::fresh(),
    {
        QuestProgress {
            current_wave: 0,
            wave_time: 0,
            total_time: 0,
            spawned_in_wave: Vec::new(),
            spawn_timers: Vec::new(),
            wave_complete: false,
            wave_delay_timer: 0,
            waiting_for_delay: false,
            kills: 0,
            boss_kills: 0,
        }
    }
}

/// A list of `n` zeros.
fn zero_list(n: usize) -> (r: Vec<u32>)
    ensures
        r@ == zeros(n as nat),
{
    let mut list: Vec<u32> = Vec::new();
    let mut i: usize = 0;
    while i < n
        invariant
            i <= n,
            list@.len() == i,
            forall|j: int| 0 <= j < i ==> list@[j] == 0,
        decreases n - i,
    {
        list.push(0);
        i += 1;
    }
    assert(list@ =~= zeros(n as nat));
    list
}

impl QuestProgress {
    /// Back to the start of a quest.
    pub fn reset(&mut self)
        ensures
            final(self)@ == QuestProgressView::fresh(),
    {
        *self = QuestProgress::default();
    }

    /// Starts a wave: nothing spawned yet, and the delay of the wave ahead.
    pub fn start_wave(&mut self, wave_data: &WaveData)
        ensures
            final(self)@ == old(self)@.starting(wave_data.spawns@.len(), wave_data.spawn_delay),
            final(self)@.wf(),
    {
        self.wave_time = 0;
        self.spawned_in_wave = zero_list(wave_data.spawns.len());
        self.spawn_timers = zero_list(wave_data.spawns.len());
        self.wave_complete = false;
        self.wave_delay_timer = wave_data.spawn_delay;
        self.waiting_for_delay = wave_data.spawn_delay > 0;
    }

    /// Moves on to the next wave.
    pub fn advance_wave(&mut self)
        ensures
            final(self)@ == old(self)@.advanced(),
    {
        if self.current_wave < usize::MAX {
            self.current_wave = self.current_wave + 1;
        }
        self.wave_complete = false;
    }

    /// Lets `dt` milliseconds pass on the clocks and on the delay of the wave.
    pub fn update(&mut self, dt: u32)
        ensures
            final(self)@ == old(self)@.after_tick(dt),
    {
        self.total_time = self.total_time.saturating_add(dt);
        self.wave_time = self.wave_time.saturating_add(dt);
        if self.waiting_for_delay {
            self.wave_delay_timer = self.wave_delay_timer.saturating_sub(dt);
            if self.wave_delay_timer == 0 {
                self.waiting_for_delay = false;
            }
        }
    }

    /// Counts a kill, and a boss kill where the creature is a boss.
    pub fn track_kill(&mut self, creature_type: CreatureType)
        ensures
            final(self)@ == old(self)@.after_kill(creature_type),
    {
        self.kills = self.kills.saturating_add(1);
        if creature_type.is_boss() {
            self.boss_kills = self.boss_kills.saturating_add(1);
        }
    }

    /// Whether every entry of the wave that a counter is kept for has
    /// spawned all its creatures.
    pub fn all_spawned(&self, wave_data: &WaveData) -> (r: bool)
        ensures
            r == all_spawned_upto(self@, wave_data.spawns@, wave_data.spawns@.len() as int),
    {
        let mut i: usize = 0;
        while i < wave_data.spawns.len()
            invariant
                i <= wave_data.spawns.len(),
                all_spawned_upto(self@, wave_data.spawns@, i as int),
            decreases wave_data.spawns.len() - i,
        {
            if i < self.spawned_in_wave.len() && self.spawned_in_wave[i] < wave_data.spawns[i].count {
                proof {
                    lemma_not_all_spawned(
                        self@,
                        wave_data.spawns@,
                        i + 1,
                        wave_data.spawns@.len() as int,
                    );
                }
                return false;
            }
            i += 1;
        }
        true
    }

    /// Spawns the creatures of the wave that are due in the next `dt`
    /// milliseconds: for each entry with creatures left the timer runs, and
    /// when it runs out one creature is spawned and the timer starts anew.
    /// Nothing happens while the wave waits for its delay.
    pub fn spawn_wave_creatures(&mut self, wave_data: &WaveData, dt: u32) -> (spawned: Vec<CreatureType>)
        requires
            old(self)@.wf(),
        ensures
            final(self)@.wf(),
            old(self).waiting_for_delay ==> final(self)@ == old(self)@ && spawned@.len() == 0,
            !old(self).waiting_for_delay ==> {
                &&& spawned@ == spawned_now(
                    old(self)@,
                    wave_data.spawns@,
                    dt,
                    wave_data.spawns@.len() as int,
                )
                &&& final(self)@.spawned_in_wave.len() == old(self)@.spawned_in_wave.len()
                &&& forall|i: int|
                    0 <= i < old(self)@.spawned_in_wave.len()
                        ==> #[trigger] final(self).spawned_in_wave@[i] == counter_after(
                        old(self)@,
                        wave_data.spawns@,
                        dt,
                        i,
                    )
                &&& forall|i: int|
                    0 <= i < old(self)@.spawned_in_wave.len()
                        ==> #[trigger] final(self).spawn_timers@[i] == timer_after(
                        old(self)@,
                        wave_data.spawns@,
                        dt,
                        i,
                    )
                &&& final(self).current_wave == old(self).current_wave
                &&& final(self).wave_time == old(self).wave_time
                &&& final(self).total_time == old(self).total_time
                &&& final(self).wave_complete == old(self).wave_complete
                &&& final(self).wave_delay_timer == old(self).wave_delay_timer
                &&& !final(self).waiting_for_delay
                &&& final(self).kills == old(self).kills
                &&& final(self).boss_kills == old(self).boss_kills
            },
    {
        let mut spawned: Vec<CreatureType> = Vec::new();
        if self.waiting_for_delay {
            return spawned;
        }
        let ghost before = self@;
        let mut i: usize = 0;
        while i < wave_data.spawns.len()
            invariant
                i <= wave_data.spawns.len(),
                before.wf(),
                self@.wf(),
                self@.spawned_in_wave.len() == before.spawned_in_wave.len(),
                spawned@ == spawned_now(before, wave_data.spawns@, dt, i as int),
                forall|j: int|
                    0 <= j < before.spawned_in_wave.len() && j < i
                        ==> #[trigger] self.spawned_in_wave@[j] == counter_after(
                        before,
                        wave_data.spawns@,
                        dt,
                        j,
                    ),
                forall|j: int|
                    0 <= j < before.spawned_in_wave.len() && j < i
                        ==> #[trigger] self.spawn_timers@[j] == timer_after(
                        before,
                        wave_data.spawns@,
                        dt,
                        j,
                    ),
                forall|j: int|
                    0 <= j < before.spawned_in_wave.len() && j >= i
                        ==> #[trigger] self.spawned_in_wave@[j] == before.spawned_in_wave[j],
                forall|j: int|
                    0 <= j < before.spawned_in_wave.len() && j >= i
                        ==> #[trigger] self.spawn_timers@[j] == before.spawn_timers[j],
                self.current_wave == before.current_wave,
                self.wave_time == before.wave_time,
                self.total_time == before.total_time,
                self.wave_complete == before.wave_complete,
                self.wave_delay_timer == before.wave_delay_timer,
                self.waiting_for_delay == before.waiting_for_delay,
                self.kills == before.kills,
                self.boss_kills == before.boss_kills,
            decreases wave_data.spawns.len() - i,
        {
            if i < self.spawned_in_wave.len() && self.spawned_in_wave[i] < wave_data.spawns[i].count {
                let entry = wave_data.spawns[i];
                if self.spawn_timers[i] <= dt {
                    spawned.push(entry.creature);
                    let next: u32 = self.spawned_in_wave[i] + 1;
                    self.spawned_in_wave[i] = next;
                    self.spawn_timers[i] = entry.interval;
                } else {
                    let left: u32 = self.spawn_timers[i] - dt;
                    self.spawn_timers[i] = left;
                }
            }
            i += 1;
        }
        spawned
    }
}

/// What follows a completed wave.
#[derive(Debug, Clone, Copy, PartialEq, Eq, Structural)]
pub enum NextStep {
    /// It was the last wave.
    LastWave,
    /// A boss encounter, with the boss of the next wave.
    BossEncounter(CreatureType),
    /// The transition to the wave with this number, counted from one.
    WaveTransition(u32),
}

/// The name under which a boss is announced.
pub fn boss_name(creature_type: CreatureType) -> (r: &'static str)
    ensures
        r@ == match creature_type {
            CreatureType::BossSpider => "Giant Spider Queen"@,
            CreatureType::BossAlien => "Alien Overlord"@,
            CreatureType::BossNest => "The Hive Mind"@,
            _ => "Boss"@,
        },
{
    match creature_type {
        CreatureType::BossSpider => "Giant Spider Queen",
        CreatureType::BossAlien => "Alien Overlord",
        CreatureType::BossNest => "The Hive Mind",
        _ => "Boss",
    }
}

/// Whether the current wave of the quest has just been completed: it was not
/// complete before, it exists, all its creatures were spawned, and none is
/// alive.
pub open spec fn wave_done(p: QuestProgressView, quest: QuestData, creatures_alive: usize) -> bool {
    &&& !p.wave_complete
    &&& p.current_wave < quest.waves@.len()
    &&& all_spawned_upto(
        p,
        quest.waves@[p.current_wave as int].spawns@,
        quest.waves@[p.current_wave as int].spawns@.len() as int,
    )
    &&& creatures_alive == 0
}

/// What follows the wave at `current` of the quest.
pub open spec fn next_step(quest: QuestData, current: usize) -> NextStep {
    if current + 1 < quest.waves@.len() {
        let next = quest.waves@[current + 1];
        match first_boss(next.spawns@, next.spawns@.len() as int) {
            Some(boss) => NextStep::BossEncounter(boss),
            None => NextStep::WaveTransition(clamp_u32(current + 2) as u32),
        }
    } else {
        NextStep::LastWave
    }
}

/// Checks whether the current wave is complete. Where it is, returns the
/// event for it and what follows, and starts the next wave if there is one;
/// else returns `None` and changes nothing.
pub fn check_wave_completion(progress: &mut QuestProgress, quest: &QuestData, creatures_alive: usize) -> (r:
    Option<(WaveCompletedEvent, NextStep)>)
    ensures
        !wave_done(old(progress)@, *quest, creatures_alive) ==> r is None && final(progress)@ == old(
            progress,
        )@,
        wave_done(old(progress)@, *quest, creatures_alive) ==> {
            &&& r == Some(
                (
                    WaveCompletedEvent { wave_index: old(progress).current_wave },
                    next_step(*quest, old(progress).current_wave),
                ),
            )
            &&& final(progress)@ == if old(progress).current_wave + 1 < quest.waves@.len() {
                old(progress)@.advanced().starting(
                    quest.waves@[old(progress).current_wave + 1].spawns@.len(),
                    quest.waves@[old(progress).current_wave + 1].spawn_delay,
                )
            } else {
                QuestProgressView { wave_complete: true, ..old(progress)@ }
            }
        },
{
    if progress.wave_complete {
        return None;
    }
    if progress.current_wave >= quest.waves.len() {
        return None;
    }
    let current: usize = progress.current_wave;
    if !progress.all_spawned(&quest.waves[current]) {
        return None;
    }
    if creatures_alive != 0 {
        return None;
    }
    progress.wave_complete = true;
    let event = WaveCompletedEvent { wave_index: current };
    if current + 1 < quest.waves.len() {
        let next = &quest.waves[current + 1];
        let number: u32 = if current >= 0xFFFF_FFFE {
            u32::MAX
        } else {
            (current + 2) as u32
        };
        let step = match next.boss() {
            Some(boss) => NextStep::BossEncounter(boss),
            None => NextStep::WaveTransition(number),
        };
        progress.advance_wave();
        progress.start_wave(next);
        Some((event, step))
    } else {
        Some((event, NextStep::LastWave))
    }
}

/// Whether the quest is complete: its last wave is complete and no creature
/// is alive.
pub open spec fn quest_done(p: QuestProgressView, quest: QuestData, creatures_alive: usize) -> bool {
    p.current_wave + 1 >= quest.waves@.len() && p.wave_complete && creatures_alive == 0
}

/// Checks whether the quest is complete, and returns the event for it.
pub fn check_quest_completion(progress: &QuestProgress, quest: &QuestData, creatures_alive: usize) -> (r:
    Option<QuestCompletedEvent>)
    ensures
        r == if quest_done(progress@, *quest, creatures_alive) {
            Some(
                QuestCompletedEvent {
                    quest_id: quest.id,
                    time: progress.total_time,
                    kills: progress.kills,
                },
            )
        } else {
            None
        },
{
    if progress.current_wave < quest.waves.len() && progress.current_wave + 1 < quest.waves.len() {
        return None;
    }
    if !progress.wave_complete {
        return None;
    }
    if creatures_alive > 0 {
        return None;
    }
    Some(QuestCompletedEvent { quest_id: quest.id, time: progress.total_time, kills: progress.kills })
}

/// The sum of the creature counts of the first `n` waves, each as far as it
/// fits.
pub open spec fn wave_total_sum(quest: QuestData, n: int) -> int
    decreases n,
{
    if n <= 0 {
        0
    } else {
        wave_total_sum(quest, n - 1) + quest.waves@[n - 1]@.total_creatures()
    }
}

/// The number of creatures of all waves of the quest, as far as it fits.
pub fn quest_total_creatures(quest: &QuestData) -> (r: u32)
    ensures
        r == clamp_u32(wave_total_sum(*quest, quest.waves@.len() as int)),
{
    let mut total: u128 = 0;
    let mut i: usize = 0;
    while i < quest.waves.len()
        invariant
            i <= quest.waves.len(),
            total == wave_total_sum(*quest, i as int),
            total <= i * 0xFFFF_FFFF,
        decreases quest.waves.len() - i,
    {
        total = total + quest.waves[i].total_creatures() as u128;
        i += 1;
    }
    if total > u32::MAX as u128 {
        u32::MAX
    } else {
        total as u32
    }
}

/// The creature and count of each entry.
pub open spec fn entry_pairs(spawns: Seq<SpawnEntry>) -> Seq<(CreatureType, u32)> {
    Seq::new(spawns.len(), |i: int| (spawns[i].creature, spawns[i].count))
}

/// The swarm of a large wave of one kind: bursts of five, a fifth of the
/// creatures many, and two at least.
pub open spec fn swarm_bursts(total: u32) -> u32 {
    if total / 5 < 2 {
        2
    } else {
        total / 5
    }
}

/// The creature that a wave of one kind is made of: that of its first
/// entry, and the zombie for a wave without entries.
pub open spec fn primary_creature(wave: WaveDataView) -> CreatureType {
    if wave.spawns.len() > 0 {
        wave.spawns[0].creature
    } else {
        CreatureType::Zombie
    }
}

/// The strategy that suits a wave.
pub enum BuilderChoice {
    /// Several entries: all their creatures in order, with the boss last
    /// where there is one.
    Mixed(Option<CreatureType>),
    /// One kind, twenty or more, no boss: bursts.
    Swarm,
    /// One entry that is a boss.
    Boss(CreatureType),
    /// One kind, fewer than twenty: one after the other.
    Timed,
}

/// The strategy that suits a wave.
pub open spec fn builder_choice(wave: WaveDataView) -> BuilderChoice {
    let boss = first_boss(wave.spawns, wave.spawns.len() as int);
    if wave.spawns.len() > 1 {
        BuilderChoice::Mixed(boss)
    } else if wave.total_creatures() >= 20 && boss is None {
        BuilderChoice::Swarm
    } else if boss is Some {
        BuilderChoice::Boss(boss->0)
    } else {
        BuilderChoice::Timed
    }
}

/// Whether `builder` is the fresh builder that suits the wave: well formed,
/// of the kind that the wave's make-up calls for, over the wave's creatures,
/// with that kind's timing and nothing released yet.
pub open spec fn suits(builder: QuestBuilder, wave: WaveDataView) -> bool {
    &&& builder.wf()
    &&& match builder_choice(wave) {
        BuilderChoice::Mixed(Some(boss)) => (builder matches QuestBuilder::Boss(b) && b.minions@
            == expanded(entry_pairs(wave.spawns), wave.spawns.len() as int) && b.boss == boss
            && b.minion_interval == 400 && b.boss_delay == 3000 && b.timer == 0 && b.boss_timer
            == 0 && b.minion_index == 0 && !b.boss_spawned),
        BuilderChoice::Mixed(None) => (builder matches QuestBuilder::Timed(b) && b.creatures@
            == expanded(entry_pairs(wave.spawns), wave.spawns.len() as int) && b.spawn_interval
            == 500 && b.timer == 0 && b.current_index == 0 && !b.spawned_all),
        BuilderChoice::Swarm => builder == QuestBuilder::Swarm(
            SwarmBuilder {
                creature_type: primary_creature(wave),
                total_bursts: swarm_bursts(wave.total_creatures() as u32),
                creatures_per_burst: 5,
                burst_interval: 2500,
                current_burst: 0,
                timer: 0,
            },
        ),
        BuilderChoice::Boss(boss) => (builder matches QuestBuilder::Boss(b) && b.minions@
            == Seq::new(wave.total_creatures() as nat, |j: int| primary_creature(wave)) && b.boss
            == boss && b.minion_interval == 300 && b.boss_delay == 2000 && b.timer == 0
            && b.boss_timer == 0 && b.minion_index == 0 && !b.boss_spawned),
        BuilderChoice::Timed => (builder matches QuestBuilder::Timed(b) && b.creatures@
            == Seq::new(wave.total_creatures() as nat, |j: int| primary_creature(wave))
            && b.spawn_interval == 500 && b.timer == 0 && b.current_index == 0
            && !b.spawned_all),
    }
}

/// The active quest builder.
#[derive(Debug)]
pub struct ActiveQuestBuilder {
    pub builder: QuestBuilder,
}

impl ActiveQuestBuilder {
    /// Wraps a builder.
    pub fn new(builder: QuestBuilder) -> (r: Self)
        ensures
            r.builder == builder,
    {
        ActiveQuestBuilder { builder }
    }

    /// The builder that suits a wave: for a wave of several entries the
    /// standard builder over all its creatures; for a large wave of one kind
    /// without a boss a swarm; for a wave of one boss a boss wave; else a
    /// timed wave.
    pub fn for_wave_data(wave: &WaveData) -> (r: Self)
        ensures
            suits(r.builder, wave@),
    {
        let has_boss = wave.boss();
        let total_count: u32 = wave.total_creatures();
        let primary: CreatureType = if wave.spawns.len() > 0 {
            wave.spawns[0].creature
        } else {
            CreatureType::Zombie
        };
        let builder = if wave.spawns.len() > 1 {
            let mut pairs: Vec<(CreatureType, u32)> = Vec::new();
            let mut i: usize = 0;
            while i < wave.spawns.len()
                invariant
                    i <= wave.spawns.len(),
                    pairs@.len() == i,
                    forall|j: int|
                        0 <= j < i ==> pairs@[j] == (
                            wave.spawns@[j].creature,
                            wave.spawns@[j].count,
                        ),
                decreases wave.spawns.len() - i,
            {
                pairs.push((wave.spawns[i].creature, wave.spawns[i].count));
                i += 1;
            }
            assert(pairs@ =~= entry_pairs(wave.spawns@));
            create_standard_builder(&pairs, has_boss)
        } else if total_count >= 20 && has_boss.is_none() {
            let fifth: u32 = total_count / 5;
            create_wave_builder(
                WaveType::Swarm {
                    bursts: if fifth < 2 {
                        2
                    } else {
                        fifth
                    },
                    per_burst: 5,
                },
                primary,
                total_count,
                None,
            )
        } else if has_boss.is_some() {
            create_wave_builder(WaveType::Boss, primary, total_count, has_boss)
        } else {
            create_wave_builder(WaveType::Standard, primary, total_count, None)
        };
        ActiveQuestBuilder { builder }
    }

    /// The builder for a wave of a quest: the one that suits the wave at
    /// `wave_index` of the first quest with the id; `None` where the
    /// database has no such quest or the quest no such wave.
    pub fn for_wave(quest_db: &QuestDatabase, quest_id: QuestId, wave_index: usize) -> (r: Option<Self>)
        ensures
            match r {
                Some(active) => exists|q: int|
                    is_first_quest(quest_db.quests@, quest_id, q) && wave_index
                        < (#[trigger] quest_db.quests@[q]).waves@.len() && suits(
                        active.builder,
                        quest_db.quests@[q].waves@[wave_index as int]@,
                    ),
                None => forall|q: int|
                    is_first_quest(quest_db.quests@, quest_id, q) ==> wave_index
                        >= (#[trigger] quest_db.quests@[q]).waves@.len(),
            },
    {
        match quest_db.get(quest_id) {
            Some(quest) => {
                if wave_index < quest.waves.len() {
                    Some(ActiveQuestBuilder::for_wave_data(&quest.waves[wave_index]))
                } else {
                    None
                }
            },
            None => None,
        }
    }

    /// A swarm with a burst every two seconds.
    pub fn swarm(creature_type: CreatureType, bursts: u32, per_burst: u32) -> (r: Self)
        ensures
            r.builder == QuestBuilder::Swarm(
                SwarmBuilder {
                    creature_type,
                    total_bursts: bursts,
                    creatures_per_burst: per_burst,
                    burst_interval: 2000,
                    current_burst: 0,
                    timer: 0,
                },
            ),
    {
        ActiveQuestBuilder {
            builder: QuestBuilder::Swarm(
                SwarmBuilder::new(creature_type, bursts, per_burst).with_burst_interval(2000),
            ),
        }
    }

    /// A boss wave with a minion every three tenths of a second and the boss
    /// two seconds after the last.
    pub fn boss_wave(minion_type: CreatureType, minion_count: u32, boss: CreatureType) -> (r: Self)
        ensures
            r.builder.wf(),
            r.builder matches QuestBuilder::Boss(b) && b.minions@ == Seq::new(
                minion_count as nat,
                |j: int| minion_type,
            ) && b.boss == boss && b.minion_interval == 300 && b.boss_delay == 2000 && b.timer == 0
                && b.boss_timer == 0 && b.minion_index == 0 && !b.boss_spawned,
    {
        ActiveQuestBuilder {
            builder: QuestBuilder::Boss(
                BossWaveBuilder::new(
                    repeat_creature(minion_type, minion_count),
                    boss,
                ).with_minion_interval(300).with_boss_delay(2000),
            ),
        }
    }

    /// A timed wave over the creatures, `interval` milliseconds apart.
    pub fn timed_wave(creatures: Vec<CreatureType>, interval: u32) -> (r: Self)
        ensures
            r.builder.wf(),
            r.builder matches QuestBuilder::Timed(b) && b.creatures@ == creatures@
                && b.spawn_interval == interval && b.timer == 0 && b.current_index == 0
                && !b.spawned_all,
    {
        ActiveQuestBuilder { builder: QuestBuilder::Timed(TimedWaveBuilder::new(creatures, interval)) }
    }
}

/// Spawn commands that wait for their delay, each with the time left.
#[derive(Debug)]
pub struct DelayedSpawns {
    pub commands: Vec<(u32, SpawnCommand)>,
}

/// The commands among the first `n` whose delay runs out in the next `dt`
/// milliseconds, in their order.
pub open spec fn ready(commands: Seq<(u32, SpawnCommand)>, dt: u32, n: int) -> Seq<SpawnCommand>
    decreases n,
{
    if n <= 0 {
        Seq::empty()
    } else if commands[n - 1].0 <= dt {
        ready(commands, dt, n - 1).push(commands[n - 1].1)
    } else {
        ready(commands, dt, n - 1)
    }
}

/// The commands among the first `n` that still wait after the next `dt`
/// milliseconds, with the time then left.
pub open spec fn waiting(commands: Seq<(u32, SpawnCommand)>, dt: u32, n: int) -> Seq<
    (u32, SpawnCommand),
>
    decreases n,
{
    if n <= 0 {
        Seq::empty()
    } else if commands[n - 1].0 <= dt {
        waiting(commands, dt, n - 1)
    } else {
        waiting(commands, dt, n - 1).push(((commands[n - 1].0 - dt) as u32, commands[n - 1].1))
    }
}

/// The commands among the first `n` that are to be carried out at once.
pub open spec fn immediate_of(commands: Seq<SpawnCommand>, n: int) -> Seq<SpawnCommand>
    decreases n,
{
    if n <= 0 {
        Seq::empty()
    } else if commands[n - 1].delay > 0 {
        immediate_of(commands, n - 1)
    } else {
        immediate_of(commands, n - 1).push(commands[n - 1])
    }
}

/// The commands among the first `n` that are to wait, each with its delay.
pub open spec fn delayed_of(commands: Seq<SpawnCommand>, n: int) -> Seq<(u32, SpawnCommand)>
    decreases n,
{
    if n <= 0 {
        Seq::empty()
    } else if commands[n - 1].delay > 0 {
        delayed_of(commands, n - 1).push((commands[n - 1].delay, commands[n - 1]))
    } else {
        delayed_of(commands, n - 1)
    }
}

impl Default for DelayedSpawns {
    fn default() -> (r: Self)
        ensures
            r.commands@.len() == 0,
    {
        DelayedSpawns { commands: Vec::new() }
    }
}

impl DelayedSpawns {
    /// Lets `dt` milliseconds pass: returns the commands whose delay has run
    /// out, and keeps the others with what is left of theirs.
    pub fn advance(&mut self, dt: u32) -> (due: Vec<SpawnCommand>)
        ensures
            due@ == ready(old(self).commands@, dt, old(self).commands@.len() as int),
            final(self).commands@ == waiting(
                old(self).commands@,
                dt,
                old(self).commands@.len() as int,
            ),
    {
        let mut due: Vec<SpawnCommand> = Vec::new();
        let mut kept: Vec<(u32, SpawnCommand)> = Vec::new();
        let mut i: usize = 0;
        while i < self.commands.len()
            invariant
                i <= self.commands.len(),
                due@ == ready(self.commands@, dt, i as int),
                kept@ == waiting(self.commands@, dt, i as int),
            decreases self.commands.len() - i,
        {
            let (timer, command) = self.commands[i];
            if timer <= dt {
                due.push(command);
            } else {
                kept.push((timer - dt, command));
            }
            i += 1;
        }
        self.commands = kept;
        due
    }

    /// Sorts commands fresh from a builder: returns those to carry out at
    /// once, and queues the others with their delay.
    pub fn dispatch(&mut self, commands: &Vec<SpawnCommand>) -> (now: Vec<SpawnCommand>)
        ensures
            now@ == immediate_of(commands@, commands@.len() as int),
            final(self).commands@ == old(self).commands@ + delayed_of(
                commands@,
                commands@.len() as int,
            ),
    {
        let ghost before = self.commands@;
        let mut now: Vec<SpawnCommand> = Vec::new();
        let mut i: usize = 0;
        assert(self.commands@ =~= before + delayed_of(commands@, 0));
        while i < commands.len()
            invariant
                i <= commands.len(),
                now@ == immediate_of(commands@, i as int),
                self.commands@ == before + delayed_of(commands@, i as int),
            decreases commands.len() - i,
        {
            let command = commands[i];
            if command.delay > 0 {
                self.commands.push((command.delay, command));
                assert(self.commands@ =~= before + delayed_of(commands@, i + 1));
            } else {
                now.push(command);
            }
            i += 1;
        }
        now
    }
}

/// One tick of the quest builder: the delayed commands that are due come
/// first, then the commands that the builder releases at once; commands that
/// the builder releases with a delay are queued.
pub fn update_quest_builder(builder: &mut ActiveQuestBuilder, delayed: &mut DelayedSpawns, dt: u32) -> (r:
    (Vec<SpawnCommand>, Vec<SpawnCommand>))
    requires
        old(builder).builder.wf(),
    ensures
        final(builder).builder.wf(),
        r.0@ == ready(old(delayed).commands@, dt, old(delayed).commands@.len() as int),
        exists|released: Seq<SpawnCommand>|
            {
                &&& #[trigger] old(builder).builder.steps_to(&final(builder).builder, dt, released)
                &&& r.1@ == immediate_of(released, released.len() as int)
                &&& final(delayed).commands@ == waiting(
                    old(delayed).commands@,
                    dt,
                    old(delayed).commands@.len() as int,
                ) + delayed_of(released, released.len() as int)
            },
{
    let due = delayed.advance(dt);
    let released = builder.builder.update(dt);
    let now = delayed.dispatch(&released);
    assert(old(builder).builder.steps_to(&builder.builder, dt, released@));
    (due, now)
}

} // verus!
