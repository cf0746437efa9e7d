//! The wave progression state machine: scripted, timed enemy spawning in
//! discrete waves. The script collaborator stays outside; it hands in a
//! plain wave description and receives hook events back, and each hook
//! fires at most once per wave.

use vstd::prelude::*;
use crate::models::{EntityType, entity_from_chars};
use crate::config::{TIME_LIMIT, DT_LIMIT, COUNT_LIMIT};

verus! {

/// The states a wave runs through, in a fixed cycle.
#[derive(Clone, Copy, PartialEq, Eq, Structural, Debug)]
pub enum WaveState {
    /// Idle, awaiting the next wave start.
    Ready,
    /// Countdown before spawning begins.
    Preparing,
    /// Spawn groups running; ends only when all spawned and none alive.
    Active,
    /// All enemies defeated; the completion hook fires here.
    Complete,
    /// Fixed pause before returning to `Ready`.
    Transition,
}

/// The pause between waves, in milliseconds.
pub const WAVE_TRANSITION_MS: i64 = 3_000;

/// One spawn group of a wave: so many enemies of one kind, so far apart.
#[derive(Clone, Copy, PartialEq, Eq, Structural, Debug)]
pub struct WaveSpawn {
    pub enemy_type: EntityType,
    pub count: usize,
    /// Milliseconds between spawns of this group.
    pub interval: i64,
    /// Delay before the group's first spawn (copied into the timer).
    pub delay: i64,
    /// How many this group has spawned so far.
    pub spawned: usize,
    /// Milliseconds until this group's next spawn.
    pub timer: i64,
}

impl WaveSpawn {
    pub open spec fn wf(self) -> bool {
        &&& self.count <= COUNT_LIMIT
        &&& 0 <= self.interval <= TIME_LIMIT
        &&& 0 <= self.delay <= TIME_LIMIT
        &&& self.spawned <= self.count
        &&& 0 <= self.timer <= TIME_LIMIT
    }
}

/// A wave description from the script collaborator, already reduced to
/// plain values: the kinds arrive as names, and the hooks as flags saying
/// whether the script supplied them.
pub struct ScriptSpawn {
    pub enemy_type: String,
    pub count: usize,
    pub interval: i64,
    pub delay: i64,
}

impl ScriptSpawn {
    pub open spec fn wf(self) -> bool {
        &&& self.count <= COUNT_LIMIT
        &&& 0 <= self.interval <= TIME_LIMIT
        &&& 0 <= self.delay <= TIME_LIMIT
    }
}

/// A whole scripted wave, as handed over by the collaborator.
pub struct ScriptWave {
    pub wave_number: usize,
    pub name: String,
    pub prep_time: i64,
    pub spawns: Vec<ScriptSpawn>,
    pub has_on_start: bool,
    pub has_on_complete: bool,
}

impl ScriptWave {
    pub open spec fn wf(self) -> bool {
        &&& 0 <= self.prep_time <= TIME_LIMIT
        &&& self.spawns@.len() <= 10_000
        &&& forall|i: int| 0 <= i < self.spawns@.len() ==> (#[trigger] self.spawns@[i]).wf()
    }
}

/// A parsed wave definition, consumed as spawning progresses.
pub struct WaveDefinition {
    pub wave_number: usize,
    pub name: String,
    pub prep_time: i64,
    pub spawns: Vec<WaveSpawn>,
}

impl WaveDefinition {
    pub open spec fn wf(self) -> bool {
        &&& 0 <= self.prep_time <= TIME_LIMIT
        &&& self.spawns@.len() <= 10_000
        &&& forall|i: int| 0 <= i < self.spawns@.len() ==> (#[trigger] self.spawns@[i]).wf()
    }
}

/// What parsing one scripted spawn group yields: nothing for an unknown
/// kind name, else a fresh group whose timer starts at its delay.
pub open spec fn spec_parse_spawn(s: ScriptSpawn) -> Option<WaveSpawn> {
    match entity_from_chars(s.enemy_type@) {
        Some(et) => Some(
            WaveSpawn {
                enemy_type: et,
                count: s.count,
                interval: s.interval,
                delay: s.delay,
                spawned: 0,
                timer: s.delay,
            },
        ),
        None => None,
    }
}

/// The spawn groups a scripted list parses to, unknown kinds skipped.
pub open spec fn spec_parse_spawns(ss: Seq<ScriptSpawn>) -> Seq<WaveSpawn>
    decreases ss.len(),
{
    if ss.len() == 0 {
        Seq::empty()
    } else {
        let rest = spec_parse_spawns(ss.drop_last());
        match spec_parse_spawn(ss.last()) {
            Some(w) => rest.push(w),
            None => rest,
        }
    }
}

impl WaveDefinition {
    /// Convert a scripted wave description. Spawn groups with unknown kind
    /// names are skipped; a wave with no valid group at all is rejected
    /// (the wave load aborts rather than crashing the run).
    pub fn from_script(script: ScriptWave) -> (r: Option<WaveDefinition>)
        requires
            script.wf(),
        ensures
            r is Some <==> spec_parse_spawns(script.spawns@).len() > 0,
            r is Some ==> {
                &&& r->0.wave_number == script.wave_number
                &&& r->0.name@ == script.name@
                &&& r->0.prep_time == script.prep_time
                &&& r->0.spawns@ == spec_parse_spawns(script.spawns@)
                &&& r->0.wf()
            },
    {
        let mut spawns: Vec<WaveSpawn> = Vec::new();
        let mut i: usize = 0;
        while i < script.spawns.len()
            invariant
                0 <= i <= script.spawns@.len(),
                script.wf(),
                spawns@ == spec_parse_spawns(script.spawns@.take(i as int)),
                spawns@.len() <= i,
                forall|j: int| 0 <= j < spawns@.len() ==> (#[trigger] spawns@[j]).wf(),
            decreases script.spawns@.len() - i,
        {
            proof {
                assert(script.spawns@.take(i + 1).drop_last() =~= script.spawns@.take(i as int));
                assert(script.spawns@.take(i + 1).last() == script.spawns@[i as int]);
            }
            let sp = &script.spawns[i];
            match EntityType::from_string(sp.enemy_type.as_str()) {
                Some(entity_type) => {
                    spawns.push(
                        WaveSpawn {
                            enemy_type: entity_type,
                            count: sp.count,
                            interval: sp.interval,
                            delay: sp.delay,
                            spawned: 0,
                            timer: sp.delay,
                        },
                    );
                },
                None => {},
            }
            i += 1;
        }
        proof {
            assert(script.spawns@.take(script.spawns@.len() as int) =~= script.spawns@);
        }
        if spawns.len() == 0 {
            return None;
        }
        Some(
            WaveDefinition {
                wave_number: script.wave_number,
                name: script.name,
                prep_time: script.prep_time,
                spawns,
            },
        )
    }

    /// The number of enemies the wave will spawn in total, as a
    /// specification.
    pub open spec fn spec_total_count(spawns: Seq<WaveSpawn>) -> int
        decreases spawns.len(),
    {
        if spawns.len() == 0 {
            0int
        } else {
            Self::spec_total_count(spawns.drop_last()) + spawns.last().count
        }
    }

    /// The number of enemies spawned so far, as a specification.
    pub open spec fn spec_spawned_count(spawns: Seq<WaveSpawn>) -> int
        decreases spawns.len(),
    {
        if spawns.len() == 0 {
            0int
        } else {
            Self::spec_spawned_count(spawns.drop_last()) + spawns.last().spawned
        }
    }

    /// Total enemies in this wave, summed over its spawn groups.
    pub fn total_enemy_count(&self) -> (n: usize)
        requires
            self.wf(),
        ensures
            n == Self::spec_total_count(self.spawns@),
    {
        let mut n: usize = 0;
        let mut i: usize = 0;
        while i < self.spawns.len()
            invariant
                0 <= i <= self.spawns@.len(),
                self.wf(),
                n == Self::spec_total_count(self.spawns@.take(i as int)),
                n <= i * COUNT_LIMIT,
            decreases self.spawns@.len() - i,
        {
            proof {
                assert(self.spawns@.take(i + 1).drop_last() =~= self.spawns@.take(i as int));
                assert(self.spawns@.take(i + 1).last() == self.spawns@[i as int]);
                assert((i + 1) * COUNT_LIMIT == i * COUNT_LIMIT + COUNT_LIMIT) by (nonlinear_arith);
                assert(i * COUNT_LIMIT <= 10_000 * COUNT_LIMIT) by (nonlinear_arith)
                    requires
                        0 <= i <= 10_000,
                ;
            }
            n = n + self.spawns[i].count;
            i += 1;
        }
        proof {
            assert(self.spawns@.take(self.spawns@.len() as int) =~= self.spawns@);
        }
        n
    }

    /// Enemies spawned so far, summed over its spawn groups.
    pub fn spawned_enemy_count(&self) -> (n: usize)
        requires
            self.wf(),
        ensures
            n == Self::spec_spawned_count(self.spawns@),
    {
        let mut n: usize = 0;
        let mut i: usize = 0;
        while i < self.spawns.len()
            invariant
                0 <= i <= self.spawns@.len(),
                self.wf(),
                n == Self::spec_spawned_count(self.spawns@.take(i as int)),
                n <= i * COUNT_LIMIT,
            decreases self.spawns@.len() - i,
        {
            proof {
                assert(self.spawns@.take(i + 1).drop_last() =~= self.spawns@.take(i as int));
                assert(self.spawns@.take(i + 1).last() == self.spawns@[i as int]);
                assert((i + 1) * COUNT_LIMIT == i * COUNT_LIMIT + COUNT_LIMIT) by (nonlinear_arith);
                assert(i * COUNT_LIMIT <= 10_000 * COUNT_LIMIT) by (nonlinear_arith)
                    requires
                        0 <= i <= 10_000,
                ;
            }
            n = n + self.spawns[i].spawned;
            i += 1;
        }
        proof {
            assert(self.spawns@.take(self.spawns@.len() as int) =~= self.spawns@);
        }
        n
    }
}

/// Whether every spawn group of the wave has spawned its full count.
pub open spec fn spec_all_spawned(spawns: Seq<WaveSpawn>) -> bool {
    forall|i: int| 0 <= i < spawns.len() ==> (#[trigger] spawns[i]).spawned >= spawns[i].count
}

/// Count down every unfinished spawn group of a wave; a group whose timer
/// runs out spawns one enemy of its kind and resets its timer. Returns the
/// kinds due this tick, one at most per group, in group order.
fn step_spawn_groups(spawns: &mut Vec<WaveSpawn>, delta: i64) -> (due: Vec<EntityType>)
    requires
        0 <= delta <= DT_LIMIT,
        forall|j: int| 0 <= j < old(spawns)@.len() ==> (#[trigger] old(spawns)@[j]).wf(),
    ensures
        final(spawns)@.len() == old(spawns)@.len(),
        forall|j: int|
            0 <= j < final(spawns)@.len() ==> #[trigger] final(spawns)@[j]
                == WaveManager::spec_group_step(old(spawns)@[j], delta as int).0,
        forall|j: int| 0 <= j < final(spawns)@.len() ==> (#[trigger] final(spawns)@[j]).wf(),
        due@ == WaveManager::spec_due_kinds(old(spawns)@, delta as int),
{
    let mut due: Vec<EntityType> = Vec::new();
    let n: usize = spawns.len();
    let mut i: usize = 0;
    while i < n
        invariant
            0 <= i <= n,
            n == spawns@.len() == old(spawns)@.len(),
            0 <= delta <= DT_LIMIT,
            forall|j: int| 0 <= j < old(spawns)@.len() ==> (#[trigger] old(spawns)@[j]).wf(),
            forall|j: int| i <= j < n ==> spawns@[j] == #[trigger] old(spawns)@[j],
            forall|j: int|
                0 <= j < i ==> #[trigger] spawns@[j] == WaveManager::spec_group_step(
                    old(spawns)@[j],
                    delta as int,
                ).0,
            forall|j: int| 0 <= j < n ==> (#[trigger] spawns@[j]).wf(),
            due@ == WaveManager::spec_due_kinds(old(spawns)@.take(i as int), delta as int),
        decreases n - i,
    {
        proof {
            assert(old(spawns)@.take(i + 1).drop_last() =~= old(spawns)@.take(i as int));
            assert(old(spawns)@.take(i + 1).last() == old(spawns)@[i as int]);
        }
        let sp = vstd::std_specs::vec::vec_index_mut(spawns, i);
        if sp.spawned < sp.count {
            sp.timer = sp.timer - delta;
            if sp.timer <= 0 {
                sp.spawned = sp.spawned + 1;
                sp.timer = sp.interval;
                due.push(sp.enemy_type);
            }
        }
        i += 1;
    }
    proof {
        assert(old(spawns)@.take(n as int) =~= old(spawns)@);
    }
    due
}

/// The hook events one state-machine step asks the script collaborator to
/// run. Each hook fires at most once per wave: its pending flag is cleared
/// the moment it is reported.
#[derive(Clone, Copy, PartialEq, Eq, Structural, Debug)]
pub struct WaveEvents {
    pub run_on_start: bool,
    pub run_on_complete: bool,
}

/// Summary of the current wave for display.
pub struct WaveInfo {
    pub wave_number: usize,
    pub name: String,
    pub enemies_spawned: usize,
    pub enemies_total: usize,
}

/// Drives wave progression and scripted spawning. Exactly one instance runs
/// per session.
pub struct WaveManager {
    pub current_wave_number: usize,
    pub current_wave: Option<WaveDefinition>,
    pub state: WaveState,
    /// Countdown before the wave starts, in milliseconds.
    pub prep_timer: i64,
    /// Pause between waves, in milliseconds.
    pub transition_timer: i64,
    pub total_waves: usize,
    /// Whether the wave's start hook still waits to fire.
    pub on_start_pending: bool,
    /// Whether the wave's completion hook still waits to fire.
    pub on_complete_pending: bool,
}

impl WaveManager {
    pub open spec fn wf(self) -> bool {
        &&& self.current_wave_number <= COUNT_LIMIT
        &&& self.total_waves <= COUNT_LIMIT
        &&& -DT_LIMIT <= self.prep_timer <= TIME_LIMIT
        &&& -DT_LIMIT <= self.transition_timer <= TIME_LIMIT
        &&& match self.current_wave {
            Some(w) => w.wf(),
            None => true,
        }
    }

    /// A fresh manager: no wave loaded, idle, counting from zero.
    pub fn new(total_waves: usize) -> (m: WaveManager)
        requires
            total_waves <= COUNT_LIMIT,
        ensures
            m.current_wave_number == 0,
            m.current_wave is None,
            m.state is Ready,
            m.prep_timer == 0,
            m.transition_timer == 0,
            m.total_waves == total_waves,
            !m.on_start_pending,
            !m.on_complete_pending,
            m.wf(),
    {
        WaveManager {
            current_wave_number: 0,
            current_wave: None,
            state: WaveState::Ready,
            prep_timer: 0,
            transition_timer: 0,
            total_waves,
            on_start_pending: false,
            on_complete_pending: false,
        }
    }

    /// Whether the campaign has run out of waves.
    pub fn is_game_complete(&self) -> (b: bool)
        ensures
            b == (self.current_wave_number >= self.total_waves && self.state is Transition),
    {
        self.current_wave_number >= self.total_waves && match self.state {
            WaveState::Transition => true,
            _ => false,
        }
    }

    /// The wave number a successful start would load next.
    pub fn upcoming_wave_number(&self) -> (n: usize)
        requires
            self.wf(),
        ensures
            n == self.current_wave_number + 1,
    {
        self.current_wave_number + 1
    }

    /// Try to start the next wave from the script collaborator's
    /// description. The wave counter always advances (saturating at the
    /// count cap so it stays modelled), even when the wave count is
    /// exhausted and campaign completion is reported instead of a start. A
    /// missing or unparseable description likewise advances the counter but
    /// aborts the start, leaving every other field alone: progression halts
    /// rather than crashing. On success the wave is installed, its hooks
    /// are armed, and the machine enters `Preparing`.
    pub fn start_next_wave(&mut self, script: Option<ScriptWave>) -> (started: bool)
        requires
            old(self).wf(),
            match script {
                Some(w) => w.wf(),
                None => true,
            },
        ensures
            final(self).wf(),
            final(self).total_waves == old(self).total_waves,
            final(self).current_wave_number as int == (if old(self).current_wave_number
                < COUNT_LIMIT {
                old(self).current_wave_number + 1
            } else {
                old(self).current_wave_number as int
            }),
            old(self).current_wave_number >= old(self).total_waves ==> !started && *final(self)
                == (WaveManager {
                current_wave_number: final(self).current_wave_number,
                ..*old(self)
            }),
            old(self).current_wave_number < old(self).total_waves ==> {
                &&& match script {
                    None => {
                        &&& !started
                        &&& *final(self) == (WaveManager {
                            current_wave_number: final(self).current_wave_number,
                            ..*old(self)
                        })
                    },
                    Some(w) => {
                        if spec_parse_spawns(w.spawns@).len() > 0 {
                            &&& started
                            &&& final(self).state is Preparing
                            &&& final(self).prep_timer == w.prep_time
                            &&& final(self).transition_timer == old(self).transition_timer
                            &&& final(self).on_start_pending == w.has_on_start
                            &&& final(self).on_complete_pending == w.has_on_complete
                            &&& match final(self).current_wave {
                                Some(def) => {
                                    &&& def.spawns@ == spec_parse_spawns(w.spawns@)
                                    &&& def.wave_number == w.wave_number
                                    &&& def.prep_time == w.prep_time
                                },
                                None => false,
                            }
                        } else {
                            &&& !started
                            &&& *final(self) == (WaveManager {
                                current_wave_number: final(self).current_wave_number,
                                ..*old(self)
                            })
                        }
                    },
                }
            },
    {
        let exhausted: bool = self.current_wave_number >= self.total_waves;
        if self.current_wave_number < COUNT_LIMIT {
            self.current_wave_number = self.current_wave_number + 1;
        }
        if exhausted {
            return false;
        }
        match script {
            None => false,
            Some(w) => {
                let has_on_start = w.has_on_start;
                let has_on_complete = w.has_on_complete;
                let prep = w.prep_time;
                match WaveDefinition::from_script(w) {
                    Some(def) => {
                        self.on_start_pending = has_on_start;
                        self.on_complete_pending = has_on_complete;
                        self.prep_timer = prep;
                        self.current_wave = Some(def);
                        self.state = WaveState::Preparing;
                        true
                    },
                    None => false,
                }
            },
        }
    }

    /// Everything one state-machine tick relates, from the manager before
    /// to the manager after, with the live enemy count it saw and the hook
    /// events it reported.
    ///
    /// The wave-completion rule is this relation's `Active` case: the
    /// machine leaves `Active` for `Complete` exactly when every spawn
    /// group has spawned its full count and no enemies remain alive; on any
    /// other condition it stays `Active`. The start hook fires when the
    /// preparation countdown runs out; the completion hook fires on the
    /// `Complete` step; each at most once per wave.
    pub open spec fn spec_state_stepped(
        pre: WaveManager,
        post: WaveManager,
        enemies_alive: int,
        delta: int,
        events: WaveEvents,
    ) -> bool {
        &&& post.current_wave == pre.current_wave
        &&& post.current_wave_number == pre.current_wave_number
        &&& post.total_waves == pre.total_waves
        &&& match pre.state {
            WaveState::Ready => post == pre && events == (WaveEvents {
                run_on_start: false,
                run_on_complete: false,
            }),
            WaveState::Preparing => {
                &&& post.prep_timer as int == (if pre.prep_timer > 0 {
                    pre.prep_timer - delta
                } else {
                    pre.prep_timer as int
                })
                &&& (post.prep_timer <= 0 ==> post.state is Active && events.run_on_start
                    == pre.on_start_pending && !post.on_start_pending)
                &&& (post.prep_timer > 0 ==> post.state is Preparing && !events.run_on_start
                    && post.on_start_pending == pre.on_start_pending)
                &&& !events.run_on_complete
                &&& post.on_complete_pending == pre.on_complete_pending
                &&& post.transition_timer == pre.transition_timer
            },
            WaveState::Active => {
                &&& (post.state is Complete <==> (match pre.current_wave {
                    Some(w) => spec_all_spawned(w.spawns@) && enemies_alive == 0,
                    None => false,
                }))
                &&& (post.state is Complete ==> post == (WaveManager {
                    state: WaveState::Complete,
                    ..pre
                }))
                &&& (!(post.state is Complete) ==> post == pre)
                &&& events == (WaveEvents { run_on_start: false, run_on_complete: false })
            },
            WaveState::Complete => {
                &&& post.state is Transition
                &&& post.transition_timer == WAVE_TRANSITION_MS
                &&& events.run_on_complete == pre.on_complete_pending
                &&& !post.on_complete_pending
                &&& !events.run_on_start
                &&& post.prep_timer == pre.prep_timer
                &&& post.on_start_pending == pre.on_start_pending
            },
            WaveState::Transition => {
                &&& post.transition_timer as int == (if pre.transition_timer > 0 {
                    pre.transition_timer - delta
                } else {
                    pre.transition_timer as int
                })
                &&& (post.transition_timer <= 0 ==> post.state is Ready)
                &&& (post.transition_timer > 0 ==> post.state is Transition)
                &&& events == (WaveEvents { run_on_start: false, run_on_complete: false })
                &&& post.prep_timer == pre.prep_timer
                &&& post.on_start_pending == pre.on_start_pending
                &&& post.on_complete_pending == pre.on_complete_pending
            },
        }
    }

    /// Advance the wave state machine one tick, exactly as
    /// `spec_state_stepped` relates.
    pub fn update_state(&mut self, enemies_alive: usize, delta: i64) -> (events: WaveEvents)
        requires
            old(self).wf(),
            0 <= delta <= DT_LIMIT,
        ensures
            final(self).wf(),
            Self::spec_state_stepped(
                *old(self),
                *final(self),
                enemies_alive as int,
                delta as int,
                events,
            ),
    {
        let mut events = WaveEvents { run_on_start: false, run_on_complete: false };
        match self.state {
            WaveState::Ready => {},
            WaveState::Preparing => {
                if self.prep_timer > 0 {
                    self.prep_timer = self.prep_timer - delta;
                }
                if self.prep_timer <= 0 {
                    events.run_on_start = self.on_start_pending;
                    self.on_start_pending = false;
                    self.state = WaveState::Active;
                }
            },
            WaveState::Active => {
                let complete: bool = match &self.current_wave {
                    Some(wave) => {
                        let mut all: bool = true;
                        let mut i: usize = 0;
                        while i < wave.spawns.len()
                            invariant
                                0 <= i <= wave.spawns@.len(),
                                all == (forall|j: int|
                                    0 <= j < i ==> (#[trigger] wave.spawns@[j]).spawned
                                        >= wave.spawns@[j].count),
                            decreases wave.spawns@.len() - i,
                        {
                            if wave.spawns[i].spawned < wave.spawns[i].count {
                                all = false;
                            }
                            i += 1;
                        }
                        all && enemies_alive == 0
                    },
                    None => false,
                };
                if complete {
                    self.state = WaveState::Complete;
                }
            },
            WaveState::Complete => {
                events.run_on_complete = self.on_complete_pending;
                self.on_complete_pending = false;
                self.transition_timer = WAVE_TRANSITION_MS;
                self.state = WaveState::Transition;
            },
            WaveState::Transition => {
                if self.transition_timer > 0 {
                    self.transition_timer = self.transition_timer - delta;
                }
                if self.transition_timer <= 0 {
                    self.state = WaveState::Ready;
                }
            },
        }
        events
    }

    /// What one spawn tick does to one group: a finished group rests; an
    /// unfinished one counts down and, on reaching zero, spawns one enemy
    /// and resets its timer to the configured interval.
    pub open spec fn spec_group_step(s: WaveSpawn, delta: int) -> (WaveSpawn, bool) {
        if s.spawned >= s.count {
            (s, false)
        } else if s.timer - delta <= 0 {
            (
                WaveSpawn { spawned: (s.spawned + 1) as usize, timer: s.interval, ..s },
                true,
            )
        } else {
            (WaveSpawn { timer: (s.timer - delta) as i64, ..s }, false)
        }
    }

    /// The kinds due to spawn this tick, one at most per group, in group
    /// order.
    pub open spec fn spec_due_kinds(spawns: Seq<WaveSpawn>, delta: int) -> Seq<EntityType>
        decreases spawns.len(),
    {
        if spawns.len() == 0 {
            Seq::empty()
        } else {
            let rest = Self::spec_due_kinds(spawns.drop_last(), delta);
            if Self::spec_group_step(spawns.last(), delta).1 {
                rest.push(spawns.last().enemy_type)
            } else {
                rest
            }
        }
    }

    /// Everything one spawn-collection tick relates: outside `Active`
    /// nothing happens and nothing is due; in `Active` every group steps by
    /// `spec_group_step` and the due kinds are exactly
    /// `spec_due_kinds`, one enemy per group at most, in group order.
    pub open spec fn spec_due_collected(
        pre: WaveManager,
        post: WaveManager,
        delta: int,
        due: Seq<EntityType>,
    ) -> bool {
        &&& post.state == pre.state
        &&& post.current_wave_number == pre.current_wave_number
        &&& post.total_waves == pre.total_waves
        &&& post.prep_timer == pre.prep_timer
        &&& post.transition_timer == pre.transition_timer
        &&& post.on_start_pending == pre.on_start_pending
        &&& post.on_complete_pending == pre.on_complete_pending
        &&& (!(pre.state is Active) ==> post == pre && due.len() == 0)
        &&& (pre.state is Active ==> match (pre.current_wave, post.current_wave) {
            (Some(ow), Some(nw)) => {
                &&& nw.spawns@.len() == ow.spawns@.len()
                &&& forall|i: int|
                    0 <= i < nw.spawns@.len() ==> #[trigger] nw.spawns@[i]
                        == Self::spec_group_step(ow.spawns@[i], delta).0
                &&& due == Self::spec_due_kinds(ow.spawns@, delta)
                &&& nw.wave_number == ow.wave_number
                &&& nw.prep_time == ow.prep_time
                &&& nw.name@ == ow.name@
            },
            (None, None) => due.len() == 0,
            _ => false,
        })
    }

    /// Count down every unfinished spawn group and collect the kinds whose
    /// timers ran out this tick, exactly as `spec_due_collected` relates.
    /// Spawn groups progress independently.
    pub fn collect_due_spawns(&mut self, delta: i64) -> (due: Vec<EntityType>)
        requires
            old(self).wf(),
            0 <= delta <= DT_LIMIT,
        ensures
            final(self).wf(),
            Self::spec_due_collected(*old(self), *final(self), delta as int, due@),
    {
        let is_active: bool = match self.state {
            WaveState::Active => true,
            _ => false,
        };
        if !is_active {
            return Vec::new();
        }
        match &mut self.current_wave {
            None => Vec::new(),
            Some(wave) => step_spawn_groups(&mut wave.spawns, delta),
        }
    }

    /// The prep countdown, shown only while preparing.
    pub fn get_prep_countdown(&self) -> (r: Option<i64>)
        ensures
            self.state is Preparing ==> r == Some(self.prep_timer),
            !(self.state is Preparing) ==> r is None,
    {
        match self.state {
            WaveState::Preparing => Some(self.prep_timer),
            _ => None,
        }
    }
}

} // verus!
