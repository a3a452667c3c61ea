//! The CS9 reveal cutscene staged in ops1: a master sequencer that runs the
//! show on a fixed timeline once tripped, and the exhibit control that raises
//! the eggs and grubs one at a time.
//!
//! The timeline uses the measured lengths of SHODAN's nine monologue schemas,
//! in milliseconds: a pause before the first, a short gap between each, the
//! screens coming up six seconds into the first, the exhibits arriving with the
//! third and the rumblers leaving with the seventh, then the teardown.
use vstd::prelude::*;

use crate::effect::{Effect, EntityId, MessagePayload};

verus! {

/// One step of the show.
#[derive(Clone, Copy, Debug)]
pub enum Cs9Action {
    /// Send `TurnOn` to every entity with this name.
    TurnOnByName(&'static str),
    /// Send `TurnOff` to every entity with this name.
    TurnOffByName(&'static str),
    /// Start a monologue schema.
    PlaySchema(&'static str),
}

/// The nine monologue schemas and their audio lengths in milliseconds.
pub const CS9_SCHEMAS: [(&'static str, u32); 9] = [
    ("cs0901", 28700),
    ("cs0902", 30800),
    ("cs0903", 23800),
    ("cs0904", 15700),
    ("cs0905", 11700),
    ("cs0906", 27400),
    ("cs0907", 14100),
    ("cs0908", 23400),
    ("cs0909", 38400),
];

/// The pause before the first schema, and between consecutive schemas.
pub const CS9_INITIAL_DELAY_MS: u32 = 2000;
pub const CS9_INTER_SCHEMA_GAP_MS: u32 = 600;

/// When schema `i` starts: after the initial delay and every earlier schema
/// with its gap.
pub open spec fn schema_start(i: int) -> int
    decreases i,
{
    if i <= 0 {
        CS9_INITIAL_DELAY_MS as int
    } else {
        schema_start(i - 1) + CS9_SCHEMAS[i - 1].1 + CS9_INTER_SCHEMA_GAP_MS
    }
}

/// The master sequencer (`CS9_MasterControl`): tripped by `TurnOn`, it fires
/// its timeline once, in order.
pub struct CS9MasterControl {
    pub started: bool,
    pub elapsed_ms: u64,
    /// `(fire time, action)`, in time order; `next` is the first unfired.
    pub schedule: Vec<(u32, Cs9Action)>,
    pub next: usize,
}

/// A timeline in time order.
pub open spec fn time_sorted(s: Seq<(u32, Cs9Action)>) -> bool {
    forall|i: int, j: int| 0 <= i <= j < s.len() ==> s[i].0 <= s[j].0
}

/// The names of the six SHODAN screens.
pub const CS9_SCREENS: [&'static str; 6] = [
    "ShodanScreenTL",
    "ShodanScreenTM",
    "ShodanScreenTR",
    "ShodanScreenBL",
    "ShodanScreenBM",
    "ShodanScreenBR",
];

/// The four holo rumblers.
pub const CS9_RUMBLERS: [&'static str; 4] = ["Rumbler1", "Rumbler2", "Rumbler3", "Rumbler4"];

fn push_each(schedule: &mut Vec<(u32, Cs9Action)>, at: u32, names: &[&'static str], on: bool)
    ensures
        final(schedule)@.len() == old(schedule)@.len() + names@.len(),
        forall|k: int| 0 <= k < old(schedule)@.len() ==> final(schedule)@[k] == old(schedule)@[k],
        forall|k: int| 0 <= k < names@.len() ==> #[trigger] final(schedule)@[old(schedule)@.len() + k].0 == at,
{
    let mut i: usize = 0;
    while i < names.len()
        invariant
            i <= names@.len(),
            schedule@.len() == old(schedule)@.len() + i,
            forall|k: int| 0 <= k < old(schedule)@.len() ==> schedule@[k] == old(schedule)@[k],
            forall|k: int| 0 <= k < i ==> #[trigger] schedule@[old(schedule)@.len() + k].0 == at,
        decreases names@.len() - i,
    {
        let action = if on {
            Cs9Action::TurnOnByName(names[i])
        } else {
            Cs9Action::TurnOffByName(names[i])
        };
        schedule.push((at, action));
        i += 1;
    }
}

proof fn lemma_extend_sorted(old: Seq<(u32, Cs9Action)>, new: Seq<(u32, Cs9Action)>, at: u32)
    requires
        time_sorted(old),
        old.len() > 0 ==> old.last().0 <= at,
        new.len() >= old.len(),
        forall|k: int| 0 <= k < old.len() ==> new[k] == old[k],
        forall|k: int| 0 <= k < new.len() - old.len() ==> #[trigger] new[old.len() + k].0 == at,
    ensures
        time_sorted(new),
        new.len() > old.len() ==> new.last().0 == at,
{
    assert forall|a: int, b: int| 0 <= a <= b < new.len() implies new[a].0 <= new[b].0 by {
        if b >= old.len() {
            assert(new[old.len() + (b - old.len())].0 == at);
            if a >= old.len() {
                assert(new[old.len() + (a - old.len())].0 == at);
            } else {
                assert(new[a] == old[a]);
                assert(old[a].0 <= old.last().0);
            }
        } else {
            assert(new[a] == old[a]);
            assert(new[b] == old[b]);
        }
    }
    if new.len() > old.len() {
        assert(new[old.len() + (new.len() - 1 - old.len())].0 == at);
    }
}

impl CS9MasterControl {
    /// The show, not yet tripped: seal the player in and start pulling the
    /// walls apart at once; each schema at its start (the screens six seconds
    /// into the first, the exhibits and rumblers with the third, the rumblers
    /// gone with the seventh); then fade the screens, stash the exhibits, close
    /// the walls, and two seconds later release the player.
    pub fn new() -> (r: CS9MasterControl)
        ensures
            !r.started,
            r.elapsed_ms == 0,
            r.next == 0,
            time_sorted(r.schedule@),
            r.schedule@.len() == 2 + 9 + 6 + 5 + 4 + 8 + 1,
            r.schedule@[0].1 matches Cs9Action::TurnOnByName(n) && n@ == "MasterForceField"@,
            r.schedule@.last().0 == schema_start(9) + 2000,
            r.schedule@.last().1 matches Cs9Action::TurnOffByName(n) && n@ == "MasterForceField"@,
    {
        let mut schedule: Vec<(u32, Cs9Action)> = Vec::new();
        schedule.push((0, Cs9Action::TurnOnByName("MasterForceField")));
        schedule.push((0, Cs9Action::TurnOnByName("SlowDoorControl")));
        let mut t: u32 = CS9_INITIAL_DELAY_MS;
        let mut i: usize = 0;
        while i < 9
            invariant
                i <= 9,
                t == schema_start(i as int),
                t <= 221400,
                time_sorted(schedule@),
                schedule@.len() > 0,
                schedule@.last().0 <= t,
                schedule@[0].1 matches Cs9Action::TurnOnByName(n) && n@ == "MasterForceField"@,
                schedule@.len() == 2 + i + (if i >= 1 { 6int } else { 0 }) + (if i >= 3 { 5int } else { 0 }) + (
                if i >= 7 { 4int } else { 0 }),
            decreases 9 - i,
        {
            proof {
                reveal_with_fuel(schema_start, 10);
                assert(schema_start(1) == 31300);
                assert(schema_start(2) == 62700);
                assert(schema_start(3) == 87100);
                assert(schema_start(4) == 103400);
                assert(schema_start(5) == 115700);
                assert(schema_start(6) == 143700);
                assert(schema_start(7) == 158400);
                assert(schema_start(8) == 182400);
                assert(schema_start(9) == 221400);
            }
            let (schema, duration) = CS9_SCHEMAS[i];
            assert(duration == CS9_SCHEMAS[i as int].1);
            assert(CS9_SCHEMAS[0].1 == 28700);
            let ghost before = schedule@;
            schedule.push((t, Cs9Action::PlaySchema(schema)));
            proof {
                lemma_extend_sorted(before, schedule@, t);
            }
            if i == 0 {
                let ghost mid = schedule@;
                push_each(&mut schedule, t + 6000, CS9_SCREENS.as_slice(), true);
                proof {
                    lemma_extend_sorted(mid, schedule@, (t + 6000) as u32);
                }
            } else if i == 2 {
                let ghost mid0 = schedule@;
                schedule.push((t, Cs9Action::TurnOnByName("EggsandGrubsControl")));
                proof {
                    lemma_extend_sorted(mid0, schedule@, t);
                }
                let ghost mid = schedule@;
                push_each(&mut schedule, t, CS9_RUMBLERS.as_slice(), true);
                proof {
                    lemma_extend_sorted(mid, schedule@, t);
                }
            } else if i == 6 {
                let ghost mid = schedule@;
                push_each(&mut schedule, t, CS9_RUMBLERS.as_slice(), false);
                proof {
                    lemma_extend_sorted(mid, schedule@, t);
                }
            }
            proof {
                assert(schedule@[0] == before[0]);
            }
            t = t + duration + CS9_INTER_SCHEMA_GAP_MS;
            i += 1;
        }
        proof {
            reveal_with_fuel(schema_start, 10);
        }
        let ghost start = schedule@;
        push_each(&mut schedule, t, CS9_SCREENS.as_slice(), false);
        proof {
            lemma_extend_sorted(start, schedule@, t);
        }
        let ghost s1 = schedule@;
        schedule.push((t, Cs9Action::TurnOffByName("EggsandGrubsControl")));
        proof {
            lemma_extend_sorted(s1, schedule@, t);
        }
        let ghost s2 = schedule@;
        schedule.push((t, Cs9Action::TurnOffByName("SlowDoorControl")));
        proof {
            lemma_extend_sorted(s2, schedule@, t);
        }
        let ghost s3 = schedule@;
        schedule.push((t + 2000, Cs9Action::TurnOffByName("MasterForceField")));
        proof {
            lemma_extend_sorted(s3, schedule@, (t + 2000) as u32);
            assert(schedule@[0] == start[0]);
        }
        CS9MasterControl { started: false, elapsed_ms: 0, schedule, next: 0 }
    }

    /// `TurnOn` trips the show (once); nothing else does anything.
    pub fn handle_message(&mut self, msg: &MessagePayload) -> (e: Effect)
        ensures
            final(self).started == (old(self).started || *msg is TurnOn),
            final(self).elapsed_ms == old(self).elapsed_ms,
            final(self).schedule@ == old(self).schedule@,
            final(self).next == old(self).next,
            e is NoEffect,
    {
        if matches!(msg, MessagePayload::TurnOn { .. }) {
            self.started = true;
        }
        Effect::NoEffect
    }

    /// A frame of `elapsed_ms` passes. Once tripped, the show's clock runs
    /// (holding at the top of its range) and every action now due fires, in
    /// timeline order; before it is tripped, or once it is over, nothing
    /// happens.
    pub fn update(&mut self, elapsed_ms: u64) -> (due: Vec<Cs9Action>)
        ensures
            final(self).started == old(self).started,
            final(self).schedule@ == old(self).schedule@,
            (!old(self).started || old(self).next >= old(self).schedule@.len()) ==> {
                &&& final(self).elapsed_ms == old(self).elapsed_ms
                &&& final(self).next == old(self).next
                &&& due@.len() == 0
            },
            (old(self).started && old(self).next < old(self).schedule@.len()) ==> {
                let clock = if old(self).elapsed_ms + elapsed_ms > u64::MAX {
                    u64::MAX as int
                } else {
                    old(self).elapsed_ms + elapsed_ms
                };
                &&& final(self).elapsed_ms == clock
                &&& old(self).next <= final(self).next <= old(self).schedule@.len()
                &&& forall|k: int| old(self).next <= k < final(self).next ==> #[trigger] old(self).schedule@[k].0 <= clock
                &&& final(self).next == old(self).schedule@.len() || old(self).schedule@[final(self).next as int].0
                    > clock
                &&& due@.len() == final(self).next - old(self).next
                &&& forall|k: int| 0 <= k < due@.len() ==> #[trigger] due@[k] == old(self).schedule@[old(self).next + k].1
            },
    {
        let mut due: Vec<Cs9Action> = Vec::new();
        if !self.started || self.next >= self.schedule.len() {
            return due;
        }
        self.elapsed_ms = self.elapsed_ms.saturating_add(elapsed_ms);
        let start = self.next;
        while self.next < self.schedule.len() && self.schedule[self.next].0 as u64 <= self.elapsed_ms
            invariant
                start <= self.next <= self.schedule@.len(),
                self.schedule@ == old(self).schedule@,
                self.started == old(self).started,
                start == old(self).next,
                self.elapsed_ms == (if old(self).elapsed_ms + elapsed_ms > u64::MAX {
                    u64::MAX as int
                } else {
                    old(self).elapsed_ms + elapsed_ms
                }),
                forall|k: int| start <= k < self.next ==> #[trigger] self.schedule@[k].0 <= self.elapsed_ms,
                due@.len() == self.next - start,
                forall|k: int| 0 <= k < due@.len() ==> #[trigger] due@[k] == self.schedule@[start + k].1,
            decreases self.schedule@.len() - self.next,
        {
            due.push(self.schedule[self.next].1);
            self.next += 1;
        }
        due
    }
}

/// What firing `action` does, from the sequencer `source`: a message to each
/// of `targets` (the entities the action names), or the schema played.
pub fn run_action(source: EntityId, action: Cs9Action, targets: &Vec<EntityId>) -> (e: Effect)
    ensures
        match action {
            Cs9Action::PlaySchema(name) => e matches Effect::PlayNamedSound { source: s, name: n } && s is None && n@
                == name@,
            Cs9Action::TurnOnByName(_) => e matches Effect::Combined { effects } && effects@ == Seq::new(
                targets@.len(),
                |i: int| Effect::Send { to: targets@[i], payload: MessagePayload::TurnOn { from: source } },
            ),
            Cs9Action::TurnOffByName(_) => e matches Effect::Combined { effects } && effects@ == Seq::new(
                targets@.len(),
                |i: int| Effect::Send { to: targets@[i], payload: MessagePayload::TurnOff { from: source } },
            ),
        },
{
    let payload = match action {
        Cs9Action::PlaySchema(name) => {
            return Effect::PlayNamedSound { source: None, name: String::from_str(name) };
        },
        Cs9Action::TurnOnByName(_) => MessagePayload::TurnOn { from: source },
        Cs9Action::TurnOffByName(_) => MessagePayload::TurnOff { from: source },
    };
    let mut effects: Vec<Effect> = Vec::new();
    let mut i: usize = 0;
    while i < targets.len()
        invariant
            i <= targets@.len(),
            effects@ =~= Seq::new(i as nat, |k: int| Effect::Send { to: targets@[k], payload }),
        decreases targets@.len() - i,
    {
        effects.push(Effect::Send { to: targets[i], payload });
        i += 1;
    }
    Effect::Combined { effects }
}

/// How long apart the exhibits rise.
pub const EXHIBIT_INTERVAL_MS: i64 = 1200;

/// The exhibit control (`CS9_EggsandGrubs`): on `TurnOn` it raises its chain
/// of exhibits one at a time, the first at once and each later one an interval
/// after the last; on `TurnOff` everything raised or still waiting is
/// stashed.
pub struct CS9EggsAndGrubs {
    /// The chain still to raise, in order.
    pub pending: Vec<EntityId>,
    /// The exhibits raised so far, in order.
    pub revealed: Vec<EntityId>,
    /// Milliseconds until the next exhibit rises.
    pub tick_timer_ms: i64,
    pub active: bool,
}

impl CS9EggsAndGrubs {
    pub fn new() -> (r: CS9EggsAndGrubs)
        ensures
            r.pending@.len() == 0,
            r.revealed@.len() == 0,
            r.tick_timer_ms == 0,
            !r.active,
    {
        CS9EggsAndGrubs { pending: Vec::new(), revealed: Vec::new(), tick_timer_ms: 0, active: false }
    }

    /// `TurnOn`, with the exhibit chain found from its first egg (`None` when
    /// the level has no first egg, which does nothing): the chain is what
    /// rises next, starting at once.
    pub fn turn_on(&mut self, chain: Option<Vec<EntityId>>)
        ensures
            chain is None ==> final(self).pending@ == old(self).pending@ && final(self).active == old(self).active
                && final(self).tick_timer_ms == old(self).tick_timer_ms,
            chain matches Some(c) ==> final(self).pending@ == c@ && final(self).active && final(self).tick_timer_ms
                == 0,
            final(self).revealed@ == old(self).revealed@,
    {
        if let Some(c) = chain {
            self.pending = c;
            self.active = true;
            self.tick_timer_ms = 0;
        }
    }

    /// `TurnOff`: the show stops, and every exhibit raised or still waiting
    /// is returned to be stashed, raised ones first.
    pub fn turn_off(&mut self) -> (stash: Vec<EntityId>)
        ensures
            stash@ == old(self).revealed@ + old(self).pending@,
            !final(self).active,
            final(self).revealed@.len() == 0,
            final(self).pending@.len() == 0,
    {
        self.active = false;
        let mut stash: Vec<EntityId> = Vec::new();
        stash.append(&mut self.revealed);
        stash.append(&mut self.pending);
        stash
    }

    /// A frame of `elapsed_ms` passes: while active with exhibits waiting,
    /// the timer runs down, and when it runs out the next exhibit rises (it is
    /// returned, to be moved to its display marker and turned on) and the
    /// timer starts over.
    pub fn update(&mut self, elapsed_ms: u32) -> (raised: Option<EntityId>)
        ensures
            (!old(self).active || old(self).pending@.len() == 0) ==> raised is None && final(self).pending@
                == old(self).pending@ && final(self).revealed@ == old(self).revealed@ && final(self).tick_timer_ms
                == old(self).tick_timer_ms,
            (old(self).active && old(self).pending@.len() > 0) ==> {
                let left = if old(self).tick_timer_ms - elapsed_ms < i64::MIN {
                    i64::MIN as int
                } else {
                    old(self).tick_timer_ms - elapsed_ms
                };
                if left > 0 {
                    &&& raised is None
                    &&& final(self).tick_timer_ms == left
                    &&& final(self).pending@ == old(self).pending@
                    &&& final(self).revealed@ == old(self).revealed@
                } else {
                    &&& raised == Some(old(self).pending@[0])
                    &&& final(self).tick_timer_ms == EXHIBIT_INTERVAL_MS
                    &&& final(self).pending@ == old(self).pending@.drop_first()
                    &&& final(self).revealed@ == old(self).revealed@.push(old(self).pending@[0])
                }
            },
            final(self).active == old(self).active,
    {
        if !self.active || self.pending.len() == 0 {
            return None;
        }
        self.tick_timer_ms = if self.tick_timer_ms < i64::MIN + elapsed_ms as i64 {
            i64::MIN
        } else {
            self.tick_timer_ms - elapsed_ms as i64
        };
        if self.tick_timer_ms > 0 {
            return None;
        }
        self.tick_timer_ms = EXHIBIT_INTERVAL_MS;
        let egg = self.pending.remove(0);
        self.revealed.push(egg);
        Some(egg)
    }
}

} // verus!
