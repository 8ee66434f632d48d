//! Wave builders: each decides, tick by tick, which creatures to spawn.

use vstd::prelude::*;
use crate::creatures::components::CreatureType;
use crate::geometry::Vector;

verus! {

/// Command to spawn a creature.
#[derive(Debug, Clone, Copy, PartialEq, Eq, Structural)]
pub struct SpawnCommand {
    pub creature_type: CreatureType,
    /// Where to spawn; `None` leaves the place to the spawner.
    pub position: Option<Vector>,
    /// Delay before spawning, in milliseconds.
    pub delay: u32,
}

impl SpawnCommand {
    /// The command to spawn `creature_type` at once, anywhere.
    pub open spec fn spec_immediate(creature_type: CreatureType) -> SpawnCommand {
        SpawnCommand { creature_type, position: None, delay: 0 }
    }

    /// A command to spawn at once, at a place the spawner picks.
    pub fn immediate(creature_type: CreatureType) -> (r: Self)
        ensures
            r == SpawnCommand::spec_immediate(creature_type),
    {
        SpawnCommand { creature_type, position: None, delay: 0 }
    }

    /// A command to spawn at once, at `position`.
    pub fn at_position(creature_type: CreatureType, position: Vector) -> (r: Self)
        ensures
            r == (SpawnCommand { creature_type, position: Some(position), delay: 0 }),
    {
        SpawnCommand { creature_type, position: Some(position), delay: 0 }
    }

    /// A command to spawn after `delay`, at a place the spawner picks.
    pub fn delayed(creature_type: CreatureType, delay: u32) -> (r: Self)
        ensures
            r == (SpawnCommand { creature_type, position: None, delay }),
    {
        SpawnCommand { creature_type, position: None, delay }
    }
}

/// How many creatures are due when `t` milliseconds have gathered on the
/// timer, one is released per `interval`, and `remaining` are left: one for
/// each whole interval, as far as creatures are left.
pub open spec fn due(t: nat, interval: nat, remaining: nat) -> nat
    decreases remaining,
{
    if remaining == 0 || t < interval {
        0
    } else {
        1 + due((t - interval) as nat, interval, (remaining - 1) as nat)
    }
}

/// With an interval of zero every remaining creature is due; else as many
/// as whole intervals have passed, and no more than remain.
pub proof fn lemma_due(t: nat, interval: nat, remaining: nat)
    ensures
        interval == 0 ==> due(t, interval, remaining) == remaining,
        interval > 0 ==> due(t, interval, remaining) == if t / interval < remaining {
            t / interval
        } else {
            remaining
        },
        due(t, interval, remaining) <= remaining,
        due(t, interval, remaining) * interval <= t,
    decreases remaining,
{
    if remaining > 0 && t >= interval {
        lemma_due((t - interval) as nat, interval, (remaining - 1) as nat);
        let rest = due((t - interval) as nat, interval, (remaining - 1) as nat);
        assert((1 + rest) * interval == interval + rest * interval) by (nonlinear_arith);
        if interval > 0 {
            assert(t / interval == 1 + (t - interval) / (interval as int)) by {
                vstd::arithmetic::div_mod::lemma_div_plus_one((t - interval) as int, interval as int);
            }
        }
    } else if interval > 0 && remaining > 0 {
        vstd::arithmetic::div_mod::lemma_basic_div(t as int, interval as int);
    } else if remaining == 0 {
        if interval > 0 {
            vstd::arithmetic::div_mod::lemma_div_pos_is_pos(t as int, interval as int);
        }
        assert(due(t, interval, remaining) * interval == 0) by (nonlinear_arith)
            requires
                due(t, interval, remaining) == 0,
        ;
    }
    if remaining > 0 && t < interval {
        assert(due(t, interval, remaining) * interval == 0) by (nonlinear_arith)
            requires
                due(t, interval, remaining) == 0,
        ;
    }
}

/// The commands for the `count` creatures from index `from` on.
pub open spec fn released(creatures: Seq<CreatureType>, from: int, count: nat) -> Seq<SpawnCommand> {
    Seq::new(count, |j: int| SpawnCommand::spec_immediate(creatures[from + j]))
}

/// `a + b`, stopping at the top of `u32`.
pub open spec fn gathered(a: u32, b: u32) -> u32 {
    if a + b > u32::MAX {
        u32::MAX
    } else {
        (a + b) as u32
    }
}

/// Releases the creatures that are due, one per interval, from `index` on.
fn release(
    creatures: &Vec<CreatureType>,
    interval: u32,
    timer: &mut u32,
    index: &mut usize,
    commands: &mut Vec<SpawnCommand>,
)
    requires
        *old(index) <= creatures@.len(),
        old(commands)@.len() == 0,
    ensures
        ({
            let k = due(
                *old(timer) as nat,
                interval as nat,
                (creatures@.len() - *old(index)) as nat,
            );
            &&& final(commands)@ == released(creatures@, *old(index) as int, k)
            &&& *final(index) == *old(index) + k
            &&& *final(timer) == *old(timer) - k * interval
        }),
{
    let ghost t0 = *timer as nat;
    let ghost i0 = *index as int;
    let ghost rem = (creatures@.len() - *index) as nat;
    let ghost mut j: nat = 0;
    assert(commands@ =~= released(creatures@, i0, 0));
    assert(0 * interval == 0) by (nonlinear_arith);
    while *timer >= interval && *index < creatures.len()
        invariant
            j <= rem,
            i0 + rem == creatures@.len(),
            *index == i0 + j,
            *timer == t0 - j * interval,
            due(t0, interval as nat, rem) == j + due(*timer as nat, interval as nat, (rem - j) as nat),
            commands@ == released(creatures@, i0, j),
        decreases creatures@.len() - *index,
    {
        let ghost before = commands@;
        commands.push(SpawnCommand::immediate(creatures[*index]));
        *index = *index + 1;
        *timer = *timer - interval;
        proof {
            assert((j + 1) * interval == j * interval + interval) by (nonlinear_arith);
            assert(before.push(SpawnCommand::spec_immediate(creatures@[i0 + j])) =~= released(
                creatures@,
                i0,
                j + 1,
            ));
            j = j + 1;
        }
    }
}

/// Spawns creatures at regular intervals, in the order of its list.
#[derive(Debug, Clone)]
pub struct TimedWaveBuilder {
    /// Creatures to spawn.
    pub creatures: Vec<CreatureType>,
    /// Time between spawns, in milliseconds.
    pub spawn_interval: u32,
    /// Time gathered toward the next spawn.
    pub timer: u32,
    /// Index of the next creature.
    pub current_index: usize,
    /// Whether all creatures have been spawned.
    pub spawned_all: bool,
}

impl TimedWaveBuilder {
    /// The index lies within the list.
    pub open spec fn wf(&self) -> bool {
        self.current_index <= self.creatures@.len()
    }

    /// The number of creatures that the next `delta` milliseconds release.
    pub open spec fn due_after(&self, delta: u32) -> nat {
        due(
            gathered(self.timer, delta) as nat,
            self.spawn_interval as nat,
            (self.creatures@.len() - self.current_index) as nat,
        )
    }

    /// A builder that has spawned nothing yet.
    pub fn new(creatures: Vec<CreatureType>, spawn_interval: u32) -> (r: Self)
        ensures
            r.creatures@ == creatures@,
            r.spawn_interval == spawn_interval,
            r.timer == 0,
            r.current_index == 0,
            !r.spawned_all,
            r.wf(),
    {
        TimedWaveBuilder { creatures, spawn_interval, timer: 0, current_index: 0, spawned_all: false }
    }

    /// Whether `next` and `commands` are what `delta` milliseconds make of
    /// this builder: nothing changes once all are spawned; else the creatures
    /// due are released in order, and the builder is done when none is left.
    pub open spec fn steps_to(&self, next: &Self, delta: u32, commands: Seq<SpawnCommand>) -> bool {
        &&& next.creatures@ == self.creatures@
        &&& next.spawn_interval == self.spawn_interval
        &&& if self.spawned_all {
            &&& commands.len() == 0
            &&& next.timer == self.timer
            &&& next.current_index == self.current_index
            &&& next.spawned_all
        } else {
            &&& commands == released(self.creatures@, self.current_index as int, self.due_after(delta))
            &&& next.current_index == self.current_index + self.due_after(delta)
            &&& next.timer == gathered(self.timer, delta) - self.due_after(delta)
                * self.spawn_interval
            &&& next.spawned_all == (next.current_index >= self.creatures@.len())
        }
    }

    /// Lets `delta` milliseconds pass and returns the commands for the
    /// creatures that are due. A builder that has spawned all does nothing.
    pub fn update(&mut self, delta: u32) -> (commands: Vec<SpawnCommand>)
        requires
            old(self).wf(),
        ensures
            final(self).wf(),
            old(self).steps_to(final(self), delta, commands@),
    {
        let mut commands: Vec<SpawnCommand> = Vec::new();
        if self.spawned_all {
            return commands;
        }
        let mut timer: u32 = self.timer.saturating_add(delta);
        let mut index: usize = self.current_index;
        proof {
            lemma_due(
                timer as nat,
                self.spawn_interval as nat,
                (self.creatures@.len() - index) as nat,
            );
        }
        release(&self.creatures, self.spawn_interval, &mut timer, &mut index, &mut commands);
        self.timer = timer;
        self.current_index = index;
        if self.current_index >= self.creatures.len() {
            self.spawned_all = true;
        }
        commands
    }

    /// Whether all creatures have been spawned.
    pub fn is_complete(&self) -> (r: bool)
        ensures
            r == self.spawned_all,
    {
        self.spawned_all
    }

    /// The name of this builder.
    pub fn name(&self) -> (r: &'static str)
        ensures
            r@ == "TimedWaveBuilder"@,
    {
        "TimedWaveBuilder"
    }
}

/// Spawns minions at regular intervals, then, after a delay, a boss.
#[derive(Debug, Clone)]
pub struct BossWaveBuilder {
    /// Minions to spawn first.
    pub minions: Vec<CreatureType>,
    /// The boss.
    pub boss: CreatureType,
    /// Time between minions, in milliseconds.
    pub minion_interval: u32,
    /// Time gathered toward the next minion.
    pub timer: u32,
    /// Index of the next minion.
    pub minion_index: usize,
    /// Whether the boss has been spawned.
    pub boss_spawned: bool,
    /// Delay after the last minion before the boss.
    pub boss_delay: u32,
    /// Time gathered toward the boss.
    pub boss_timer: u32,
}

impl BossWaveBuilder {
    /// The index lies within the list.
    pub open spec fn wf(&self) -> bool {
        self.minion_index <= self.minions@.len()
    }

    /// The number of minions that the next `delta` milliseconds release.
    pub open spec fn due_after(&self, delta: u32) -> nat {
        due(
            gathered(self.timer, delta) as nat,
            self.minion_interval as nat,
            (self.minions@.len() - self.minion_index) as nat,
        )
    }

    /// A builder with a minion every half second and the boss two seconds
    /// after the last.
    pub fn new(minions: Vec<CreatureType>, boss: CreatureType) -> (r: Self)
        ensures
            r.minions@ == minions@,
            r.boss == boss,
            r.minion_interval == 500,
            r.boss_delay == 2000,
            r.timer == 0,
            r.boss_timer == 0,
            r.minion_index == 0,
            !r.boss_spawned,
            r.wf(),
    {
        BossWaveBuilder {
            minions,
            boss,
            minion_interval: 500,
            timer: 0,
            minion_index: 0,
            boss_spawned: false,
            boss_delay: 2000,
            boss_timer: 0,
        }
    }

    /// The same builder with another time between minions.
    pub fn with_minion_interval(self, interval: u32) -> (r: Self)
        ensures
            r.minion_interval == interval,
            r.minions@ == self.minions@,
            r.boss == self.boss,
            r.timer == self.timer,
            r.minion_index == self.minion_index,
            r.boss_spawned == self.boss_spawned,
            r.boss_delay == self.boss_delay,
            r.boss_timer == self.boss_timer,
    {
        let mut builder = self;
        builder.minion_interval = interval;
        builder
    }

    /// The same builder with another delay before the boss.
    pub fn with_boss_delay(self, delay: u32) -> (r: Self)
        ensures
            r.boss_delay == delay,
            r.minions@ == self.minions@,
            r.boss == self.boss,
            r.timer == self.timer,
            r.minion_index == self.minion_index,
            r.boss_spawned == self.boss_spawned,
            r.minion_interval == self.minion_interval,
            r.boss_timer == self.boss_timer,
    {
        let mut builder = self;
        builder.boss_delay = delay;
        builder
    }

    /// Whether `next` and `commands` are what `delta` milliseconds make of
    /// this builder. While minions are left, those due are released. Once
    /// none is left, the time counts toward the boss, who is spawned when the
    /// delay has passed. After the boss nothing changes.
    pub open spec fn steps_to(&self, next: &Self, delta: u32, commands: Seq<SpawnCommand>) -> bool {
        &&& next.minions@ == self.minions@
        &&& next.boss == self.boss
        &&& next.minion_interval == self.minion_interval
        &&& next.boss_delay == self.boss_delay
        &&& if self.boss_spawned {
            &&& commands.len() == 0
            &&& next.timer == self.timer
            &&& next.minion_index == self.minion_index
            &&& next.boss_timer == self.boss_timer
            &&& next.boss_spawned
        } else if self.minion_index < self.minions@.len() {
            &&& commands == released(self.minions@, self.minion_index as int, self.due_after(delta))
            &&& next.minion_index == self.minion_index + self.due_after(delta)
            &&& next.timer == gathered(self.timer, delta) - self.due_after(delta)
                * self.minion_interval
            &&& next.boss_timer == self.boss_timer
            &&& !next.boss_spawned
        } else {
            &&& next.boss_timer == gathered(self.boss_timer, delta)
            &&& next.boss_spawned == (next.boss_timer >= self.boss_delay)
            &&& commands == if next.boss_spawned {
                seq![SpawnCommand::spec_immediate(self.boss)]
            } else {
                Seq::<SpawnCommand>::empty()
            }
            &&& next.timer == self.timer
            &&& next.minion_index == self.minion_index
        }
    }

    /// Lets `delta` milliseconds pass and returns the commands that are due.
    pub fn update(&mut self, delta: u32) -> (commands: Vec<SpawnCommand>)
        requires
            old(self).wf(),
        ensures
            final(self).wf(),
            old(self).steps_to(final(self), delta, commands@),
    {
        let mut commands: Vec<SpawnCommand> = Vec::new();
        if self.boss_spawned {
            return commands;
        }
        if self.minion_index < self.minions.len() {
            let mut timer: u32 = self.timer.saturating_add(delta);
            let mut index: usize = self.minion_index;
            proof {
                lemma_due(
                    timer as nat,
                    self.minion_interval as nat,
                    (self.minions@.len() - index) as nat,
                );
            }
            release(&self.minions, self.minion_interval, &mut timer, &mut index, &mut commands);
            self.timer = timer;
            self.minion_index = index;
        } else {
            self.boss_timer = self.boss_timer.saturating_add(delta);
            if self.boss_timer >= self.boss_delay {
                commands.push(SpawnCommand::immediate(self.boss));
                self.boss_spawned = true;
                assert(commands@ =~= seq![SpawnCommand::spec_immediate(self.boss)]);
            } else {
                assert(commands@ =~= Seq::<SpawnCommand>::empty());
            }
        }
        commands
    }

    /// Whether the boss has been spawned.
    pub fn is_complete(&self) -> (r: bool)
        ensures
            r == self.boss_spawned,
    {
        self.boss_spawned
    }

    /// The name of this builder.
    pub fn name(&self) -> (r: &'static str)
        ensures
            r@ == "BossWaveBuilder"@,
    {
        "BossWaveBuilder"
    }
}

/// Spawns one kind of creature in bursts.
#[derive(Debug, Clone, Copy, PartialEq, Eq, Structural)]
pub struct SwarmBuilder {
    /// Creature type to swarm with.
    pub creature_type: CreatureType,
    /// Number of bursts.
    pub total_bursts: u32,
    /// Creatures per burst.
    pub creatures_per_burst: u32,
    /// Time between bursts, in milliseconds.
    pub burst_interval: u32,
    /// Bursts released so far.
    pub current_burst: u32,
    /// Time gathered toward the next burst.
    pub timer: u32,
}

impl SwarmBuilder {
    /// Whether all bursts have been released.
    pub open spec fn spec_is_complete(self) -> bool {
        self.current_burst >= self.total_bursts
    }

    /// Whether the next `delta` milliseconds release a burst.
    pub open spec fn bursts_after(self, delta: u32) -> bool {
        !self.spec_is_complete() && gathered(self.timer, delta) >= self.burst_interval
    }

    /// The builder after `delta` milliseconds: a burst resets the timer.
    pub open spec fn after_update(self, delta: u32) -> SwarmBuilder {
        if self.spec_is_complete() {
            self
        } else if self.bursts_after(delta) {
            SwarmBuilder { timer: 0, current_burst: (self.current_burst + 1) as u32, ..self }
        } else {
            SwarmBuilder { timer: gathered(self.timer, delta), ..self }
        }
    }

    /// A builder with a burst every three seconds.
    pub fn new(creature_type: CreatureType, total_bursts: u32, creatures_per_burst: u32) -> (r: Self)
        ensures
            r == (SwarmBuilder {
                creature_type,
                total_bursts,
                creatures_per_burst,
                burst_interval: 3000,
                current_burst: 0,
                timer: 0,
            }),
    {
        SwarmBuilder {
            creature_type,
            total_bursts,
            creatures_per_burst,
            burst_interval: 3000,
            current_burst: 0,
            timer: 0,
        }
    }

    /// The same builder with another time between bursts.
    pub fn with_burst_interval(self, interval: u32) -> (r: Self)
        ensures
            r == (SwarmBuilder { burst_interval: interval, ..self }),
    {
        SwarmBuilder { burst_interval: interval, ..self }
    }

    /// The commands that the next `delta` milliseconds release: one for each
    /// creature of a burst, where a burst is due.
    pub open spec fn burst_after(self, delta: u32) -> Seq<SpawnCommand> {
        if self.bursts_after(delta) {
            Seq::new(
                self.creatures_per_burst as nat,
                |j: int| SpawnCommand::spec_immediate(self.creature_type),
            )
        } else {
            Seq::empty()
        }
    }

    /// Lets `delta` milliseconds pass; where a burst is due, returns one
    /// command for each creature of the burst.
    pub fn update(&mut self, delta: u32) -> (commands: Vec<SpawnCommand>)
        ensures
            *final(self) == old(self).after_update(delta),
            commands@ == old(self).burst_after(delta),
    {
        let mut commands: Vec<SpawnCommand> = Vec::new();
        if self.current_burst >= self.total_bursts {
            assert(commands@ =~= Seq::<SpawnCommand>::empty());
            return commands;
        }
        self.timer = self.timer.saturating_add(delta);
        if self.timer >= self.burst_interval {
            self.timer = 0;
            self.current_burst = self.current_burst + 1;
            let mut n: u32 = 0;
            while n < self.creatures_per_burst
                invariant
                    n <= self.creatures_per_burst,
                    commands@.len() == n,
                    forall|j: int|
                        0 <= j < n ==> commands@[j] == SpawnCommand::spec_immediate(
                            self.creature_type,
                        ),
                decreases self.creatures_per_burst - n,
            {
                commands.push(SpawnCommand::immediate(self.creature_type));
                n += 1;
            }
            assert(commands@ =~= Seq::new(
                self.creatures_per_burst as nat,
                |j: int| SpawnCommand::spec_immediate(self.creature_type),
            ));
        } else {
            assert(commands@ =~= Seq::<SpawnCommand>::empty());
        }
        commands
    }

    /// Whether all bursts have been released.
    pub fn is_complete(&self) -> (r: bool)
        ensures
            r == self.spec_is_complete(),
    {
        self.current_burst >= self.total_bursts
    }

    /// The name of this builder.
    pub fn name(&self) -> (r: &'static str)
        ensures
            r@ == "SwarmBuilder"@,
    {
        "SwarmBuilder"
    }
}

/// Wave type for builder selection.
#[derive(Debug, Clone, Copy, PartialEq, Eq, Structural)]
pub enum WaveType {
    /// Standard timed spawning.
    Standard,
    /// Swarm burst spawning.
    Swarm { bursts: u32, per_burst: u32 },
    /// Boss wave with minions.
    Boss,
}

/// One of the three wave builders.
#[derive(Debug, Clone)]
pub enum QuestBuilder {
    Timed(TimedWaveBuilder),
    Boss(BossWaveBuilder),
    Swarm(SwarmBuilder),
}

impl QuestBuilder {
    /// The builder inside is well-formed.
    pub open spec fn wf(&self) -> bool {
        match self {
            QuestBuilder::Timed(b) => b.wf(),
            QuestBuilder::Boss(b) => b.wf(),
            QuestBuilder::Swarm(_) => true,
        }
    }

    /// Whether the builder has released everything.
    pub open spec fn spec_is_complete(&self) -> bool {
        match self {
            QuestBuilder::Timed(b) => b.spawned_all,
            QuestBuilder::Boss(b) => b.boss_spawned,
            QuestBuilder::Swarm(b) => b.spec_is_complete(),
        }
    }

    /// Whether the builder has released everything.
    pub fn is_complete(&self) -> (r: bool)
        ensures
            r == self.spec_is_complete(),
    {
        match self {
            QuestBuilder::Timed(b) => b.is_complete(),
            QuestBuilder::Boss(b) => b.is_complete(),
            QuestBuilder::Swarm(b) => b.is_complete(),
        }
    }

    /// Whether `next` and `commands` are what `delta` milliseconds make of
    /// the builder inside.
    pub open spec fn steps_to(&self, next: &Self, delta: u32, commands: Seq<SpawnCommand>) -> bool {
        match (self, next) {
            (QuestBuilder::Timed(a), QuestBuilder::Timed(b)) => a.steps_to(b, delta, commands),
            (QuestBuilder::Boss(a), QuestBuilder::Boss(b)) => a.steps_to(b, delta, commands),
            (QuestBuilder::Swarm(a), QuestBuilder::Swarm(b)) => *b == a.after_update(delta)
                && commands == a.burst_after(delta),
            _ => false,
        }
    }

    /// Lets `delta` milliseconds pass and returns the commands that are due.
    pub fn update(&mut self, delta: u32) -> (commands: Vec<SpawnCommand>)
        requires
            old(self).wf(),
        ensures
            final(self).wf(),
            old(self).steps_to(final(self), delta, commands@),
    {
        match self {
            QuestBuilder::Timed(b) => b.update(delta),
            QuestBuilder::Boss(b) => b.update(delta),
            QuestBuilder::Swarm(b) => b.update(delta),
        }
    }

    /// The name of the builder inside.
    pub fn name(&self) -> (r: &'static str)
        ensures
            r@ == match self {
                QuestBuilder::Timed(_) => "TimedWaveBuilder"@,
                QuestBuilder::Boss(_) => "BossWaveBuilder"@,
                QuestBuilder::Swarm(_) => "SwarmBuilder"@,
            },
    {
        match self {
            QuestBuilder::Timed(b) => b.name(),
            QuestBuilder::Boss(b) => b.name(),
            QuestBuilder::Swarm(b) => b.name(),
        }
    }
}

/// `count` creatures of one type.
pub fn repeat_creature(creature_type: CreatureType, count: u32) -> (r: Vec<CreatureType>)
    ensures
        r@ == Seq::new(count as nat, |j: int| creature_type),
{
    let mut list: Vec<CreatureType> = Vec::new();
    let mut n: u32 = 0;
    while n < count
        invariant
            n <= count,
            list@.len() == n,
            forall|j: int| 0 <= j < n ==> list@[j] == creature_type,
        decreases count - n,
    {
        list.push(creature_type);
        n += 1;
    }
    assert(list@ =~= Seq::new(count as nat, |j: int| creature_type));
    list
}

/// The creatures of the first `n` entries, each as often as its count says,
/// in order.
pub open spec fn expanded(entries: Seq<(CreatureType, u32)>, n: int) -> Seq<CreatureType>
    decreases n,
{
    if n <= 0 {
        Seq::empty()
    } else {
        expanded(entries, n - 1) + Seq::new(entries[n - 1].1 as nat, |j: int| entries[n - 1].0)
    }
}

/// The list of the creatures of all entries, each as often as its count says.
pub fn expand_counts(entries: &Vec<(CreatureType, u32)>) -> (r: Vec<CreatureType>)
    ensures
        r@ == expanded(entries@, entries@.len() as int),
{
    let mut list: Vec<CreatureType> = Vec::new();
    let mut i: usize = 0;
    while i < entries.len()
        invariant
            i <= entries.len(),
            list@ == expanded(entries@, i as int),
        decreases entries.len() - i,
    {
        let (creature_type, count) = entries[i];
        let ghost so_far = list@;
        let mut n: u32 = 0;
        while n < count
            invariant
                n <= count,
                list@ == so_far + Seq::new(n as nat, |j: int| creature_type),
            decreases count - n,
        {
            list.push(creature_type);
            assert(list@ =~= so_far + Seq::new((n + 1) as nat, |j: int| creature_type));
            n += 1;
        }
        i += 1;
    }
    list
}

/// The builder for a mixed wave: a boss wave where a boss is named, with a
/// minion every four tenths of a second and the boss after three seconds;
/// else a timed wave with a creature every half second.
pub fn create_standard_builder(creatures: &Vec<(CreatureType, u32)>, has_boss: Option<CreatureType>) -> (r:
    QuestBuilder)
    ensures
        r.wf(),
        match has_boss {
            Some(boss) => r matches QuestBuilder::Boss(b) && b.minions@ == expanded(
                creatures@,
                creatures@.len() as int,
            ) && b.boss == boss && b.minion_interval == 400 && b.boss_delay == 3000 && b.timer == 0
                && b.boss_timer == 0 && b.minion_index == 0 && !b.boss_spawned,
            None => r matches QuestBuilder::Timed(b) && b.creatures@ == expanded(
                creatures@,
                creatures@.len() as int,
            ) && b.spawn_interval == 500 && b.timer == 0 && b.current_index == 0 && !b.spawned_all,
        },
{
    let list = expand_counts(creatures);
    match has_boss {
        Some(boss) => QuestBuilder::Boss(
            BossWaveBuilder::new(list, boss).with_minion_interval(400).with_boss_delay(3000),
        ),
        None => QuestBuilder::Timed(TimedWaveBuilder::new(list, 500)),
    }
}

/// The builder for a wave of the given type: a timed wave with a creature
/// every half second; a swarm with a burst every two and a half seconds; or
/// minions every three tenths of a second and then the boss, the boss
/// spider where none is named.
pub fn create_wave_builder(
    wave_type: WaveType,
    creature_type: CreatureType,
    total_count: u32,
    boss: Option<CreatureType>,
) -> (r: QuestBuilder)
    ensures
        r.wf(),
        match wave_type {
            WaveType::Standard => r matches QuestBuilder::Timed(b) && b.creatures@ == Seq::new(
                total_count as nat,
                |j: int| creature_type,
            ) && b.spawn_interval == 500 && b.timer == 0 && b.current_index == 0 && !b.spawned_all,
            WaveType::Swarm { bursts, per_burst } => r == QuestBuilder::Swarm(
                SwarmBuilder {
                    creature_type,
                    total_bursts: bursts,
                    creatures_per_burst: per_burst,
                    burst_interval: 2500,
                    current_burst: 0,
                    timer: 0,
                },
            ),
            WaveType::Boss => r matches QuestBuilder::Boss(b) && b.minions@ == Seq::new(
                total_count as nat,
                |j: int| creature_type,
            ) && b.boss == (match boss {
                Some(named) => named,
                None => CreatureType::BossSpider,
            }) && b.minion_interval == 300 && b.boss_delay == 2000 && b.timer == 0 && b.boss_timer
                == 0 && b.minion_index == 0 && !b.boss_spawned,
        },
{
    match wave_type {
        WaveType::Standard => QuestBuilder::Timed(
            TimedWaveBuilder::new(repeat_creature(creature_type, total_count), 500),
        ),
        WaveType::Swarm { bursts, per_burst } => QuestBuilder::Swarm(
            SwarmBuilder::new(creature_type, bursts, per_burst).with_burst_interval(2500),
        ),
        WaveType::Boss => {
            let boss_type = match boss {
                Some(named) => named,
                None => CreatureType::BossSpider,
            };
            QuestBuilder::Boss(
                BossWaveBuilder::new(
                    repeat_creature(creature_type, total_count),
                    boss_type,
                ).with_minion_interval(300).with_boss_delay(2000),
            )
        },
    }
}

} // verus!
