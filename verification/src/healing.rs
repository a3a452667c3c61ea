//! Medical patches and kits: frobbing one starts a timed course of healing
//! pulses (the first after 0.1 s, then every 1.5 s) until the item's budget
//! is spent. Courses run on the player, never past the maximum, and a pulse
//! spent at the maximum is spent for good.
//!
//! Time is counted in whole milliseconds.
use vstd::prelude::*;

use crate::effect::{Effect, EntityId, MessagePayload};

verus! {

/// The first pulse of a course comes this long after the frob.
pub const HEALING_FIRST_PULSE_MS: u32 = 100;

/// Later pulses come this far apart.
pub const HEALING_PULSE_INTERVAL_MS: u32 = 1500;

/// The two healing items.
#[derive(Clone, Copy, Debug, PartialEq, Eq, Structural)]
pub enum HealingItemKind {
    MedPatch,
    MedicalKit,
}

impl HealingItemKind {
    /// The item's healing budget before any bonus.
    pub fn base_total(self) -> (r: i32)
        ensures
            r == if self == HealingItemKind::MedPatch {
                10i32
            } else {
                200i32
            },
    {
        match self {
            HealingItemKind::MedPatch => 10,
            HealingItemKind::MedicalKit => 200,
        }
    }

    /// The item's pulse size before any bonus.
    pub fn base_pulse(self) -> (r: i32)
        ensures
            r == if self == HealingItemKind::MedPatch {
                2i32
            } else {
                5i32
            },
    {
        match self {
            HealingItemKind::MedPatch => 2,
            HealingItemKind::MedicalKit => 5,
        }
    }
}

/// `base * 6` saturated to the `i32` range.
pub open spec fn saturated_six_times(base: i32) -> int {
    if base * 6 > i32::MAX {
        i32::MAX as int
    } else if base * 6 < i32::MIN {
        i32::MIN as int
    } else {
        base * 6
    }
}

/// Integer division rounding toward zero.
pub open spec fn div_toward_zero(n: int, d: int) -> int {
    if n >= 0 {
        n / d
    } else {
        -((-n) / d)
    }
}

/// An amount with the Pharmo-Friendly bonus: 1.2 times it, truncated,
/// computed as `saturating_mul(6) / 5`.
pub open spec fn spec_retail_amount(base: i32, pharmo_friendly: bool) -> int {
    if pharmo_friendly {
        div_toward_zero(saturated_six_times(base), 5)
    } else {
        base as int
    }
}

/// The script shared by both healing items.
pub struct HealingItemScript {
    pub kind: HealingItemKind,
}

impl HealingItemScript {
    pub fn new(kind: HealingItemKind) -> (r: HealingItemScript)
        ensures
            r.kind == kind,
    {
        HealingItemScript { kind }
    }

    /// An amount with the Pharmo-Friendly bonus when the player has it; see
    /// [`spec_retail_amount`].
    pub fn retail_amount(base: i32, pharmo_friendly: bool) -> (r: i32)
        ensures
            r == spec_retail_amount(base, pharmo_friendly),
    {
        if !pharmo_friendly {
            return base;
        }
        let wide: i64 = base as i64 * 6;
        let saturated: i64 = if wide > i32::MAX as i64 {
            i32::MAX as i64
        } else if wide < i32::MIN as i64 {
            i32::MIN as i64
        } else {
            wide
        };
        let q: i64 = if saturated >= 0 {
            saturated / 5
        } else {
            -((-saturated) / 5)
        };
        q as i32
    }

    /// Frobbing the item starts its course: the budget and pulse with the
    /// Pharmo-Friendly bonus, the patch's budget half as large again on Easy.
    /// Any other message does nothing.
    pub fn handle_message(&self, entity_id: EntityId, msg: &MessagePayload, pharmo_friendly: bool, easy: bool) -> (e:
        Effect)
        ensures
            *msg != MessagePayload::Frob ==> e is NoEffect,
            *msg == MessagePayload::Frob ==> e == (Effect::UseHealingItem {
                entity_id,
                total: (if self.kind == HealingItemKind::MedPatch && easy {
                    spec_retail_amount(10, pharmo_friendly) * 3 / 2
                } else {
                    spec_retail_amount(
                        if self.kind == HealingItemKind::MedPatch {
                            10i32
                        } else {
                            200i32
                        },
                        pharmo_friendly,
                    )
                }) as i32,
                pulse: spec_retail_amount(
                    if self.kind == HealingItemKind::MedPatch {
                        2i32
                    } else {
                        5i32
                    },
                    pharmo_friendly,
                ) as i32,
                first_pulse_ms: HEALING_FIRST_PULSE_MS,
                pulse_interval_ms: HEALING_PULSE_INTERVAL_MS,
            }),
    {
        if *msg != MessagePayload::Frob {
            return Effect::NoEffect;
        }
        let mut total = Self::retail_amount(self.kind.base_total(), pharmo_friendly);
        if self.kind == HealingItemKind::MedPatch && easy {
            assert(total <= 12);
            total = total * 3 / 2;
        }
        Effect::UseHealingItem {
            entity_id,
            total,
            pulse: Self::retail_amount(self.kind.base_pulse(), pharmo_friendly),
            first_pulse_ms: HEALING_FIRST_PULSE_MS,
            pulse_interval_ms: HEALING_PULSE_INTERVAL_MS,
        }
    }
}

/// One running course: what is left of its budget, its pulse size, and its
/// timer to the next pulse.
#[derive(Clone, Copy, Debug, PartialEq, Eq, Structural)]
pub struct HealingDose {
    pub remaining: i32,
    pub pulse: i32,
    pub ms_until_pulse: i64,
    pub pulse_interval_ms: i64,
}

/// A course that can run: budget and pulse positive, a positive interval.
/// Restored saves can hold anything else, which is dropped unplayed.
pub open spec fn dose_valid(d: HealingDose) -> bool {
    d.remaining > 0 && d.pulse > 0 && d.pulse_interval_ms > 0
}

/// The courses of healing running on the player, in the order they began.
#[derive(Clone, Debug)]
pub struct ActiveHealing {
    pub doses: Vec<HealingDose>,
}

impl Default for ActiveHealing {
    fn default() -> (r: ActiveHealing)
        ensures
            r.doses@.len() == 0,
    {
        ActiveHealing { doses: Vec::new() }
    }
}

/// The hit points one pulse of `budget` restores at `hp` out of `maximum`:
/// the budget, but never past the maximum.
pub open spec fn pulse_heal(budget: int, hp: int, maximum: int) -> int {
    let missing = if maximum - hp > 0 {
        maximum - hp
    } else {
        0
    };
    if budget < missing {
        budget
    } else {
        missing
    }
}

/// Plays a course's due pulses (its timer already advanced): each spends
/// `min(pulse, remaining)` of the budget and heals what fits under the
/// maximum, and moves the timer one interval on.
pub open spec fn run_dose(d: HealingDose, hp: int, maximum: int) -> (HealingDose, int)
    decreases d.remaining,
{
    if d.remaining > 0 && d.pulse > 0 && d.ms_until_pulse <= 0 && d.pulse_interval_ms > 0 {
        let budget: int = if d.pulse < d.remaining {
            d.pulse as int
        } else {
            d.remaining as int
        };
        run_dose(
            HealingDose {
                remaining: (d.remaining - budget) as i32,
                ms_until_pulse: (d.ms_until_pulse + d.pulse_interval_ms) as i64,
                ..d
            },
            hp + pulse_heal(budget, hp, maximum),
            maximum,
        )
    } else {
        (d, hp)
    }
}

/// A course's timer after `elapsed` milliseconds (held at the `i64` floor).
pub open spec fn ticked(d: HealingDose, elapsed: int) -> HealingDose {
    HealingDose {
        ms_until_pulse: if d.ms_until_pulse - elapsed < i64::MIN {
            i64::MIN
        } else {
            (d.ms_until_pulse - elapsed) as i64
        },
        ..d
    }
}

/// Runs every course in order for `elapsed` milliseconds, from `hp`: the
/// courses after their pulses, and the hit points reached.
pub open spec fn run_doses(doses: Seq<HealingDose>, elapsed: int, hp: int, maximum: int) -> (Seq<HealingDose>, int)
    decreases doses.len(),
{
    if doses.len() == 0 {
        (seq![], hp)
    } else {
        let before = run_doses(doses.drop_last(), elapsed, hp, maximum);
        let last = run_dose(ticked(doses.last(), elapsed), before.1, maximum);
        (before.0.push(last.0), last.1)
    }
}

/// The courses still running: those with budget left, in order.
pub open spec fn unfinished(doses: Seq<HealingDose>) -> Seq<HealingDose>
    decreases doses.len(),
{
    if doses.len() == 0 {
        seq![]
    } else if doses.last().remaining > 0 {
        unfinished(doses.drop_last()).push(doses.last())
    } else {
        unfinished(doses.drop_last())
    }
}

/// The courses that can run, in order.
pub open spec fn valid_doses(doses: Seq<HealingDose>) -> Seq<HealingDose>
    decreases doses.len(),
{
    if doses.len() == 0 {
        seq![]
    } else if dose_valid(doses.last()) {
        valid_doses(doses.drop_last()).push(doses.last())
    } else {
        valid_doses(doses.drop_last())
    }
}

proof fn lemma_valid_doses(doses: Seq<HealingDose>)
    ensures
        forall|i: int| 0 <= i < valid_doses(doses).len() ==> dose_valid(#[trigger] valid_doses(doses)[i]),
    decreases doses.len(),
{
    if doses.len() > 0 {
        lemma_valid_doses(doses.drop_last());
        let before = valid_doses(doses.drop_last());
        if dose_valid(doses.last()) {
            assert forall|i: int| 0 <= i < before.push(doses.last()).len() implies dose_valid(
                #[trigger] before.push(doses.last())[i],
            ) by {
                if i < before.len() {
                    assert(before.push(doses.last())[i] == before[i]);
                }
            }
        }
    }
}

/// The hit points healing starts from: the current ones, held at the
/// maximum (itself at least zero).
pub open spec fn start_hp(current_hp: i32, maximum_hp: i32) -> int {
    let maximum: int = if maximum_hp < 0 {
        0
    } else {
        maximum_hp as int
    };
    if current_hp < maximum {
        current_hp as int
    } else {
        maximum
    }
}

/// The maximum held at zero.
pub open spec fn floor_maximum(maximum_hp: i32) -> int {
    if maximum_hp < 0 {
        0
    } else {
        maximum_hp as int
    }
}

/// The sum of a sequence of courses' remaining budgets.
pub open spec fn total_remaining(doses: Seq<HealingDose>) -> int
    decreases doses.len(),
{
    if doses.len() == 0 {
        0
    } else {
        total_remaining(doses.drop_last()) + doses.last().remaining
    }
}

proof fn lemma_run_dose(d: HealingDose, hp: int, maximum: int)
    requires
        hp <= maximum,
        d.remaining >= 0,
    ensures
        ({
            let (after, hp2) = run_dose(d, hp, maximum);
            &&& hp <= hp2 <= maximum
            &&& 0 <= after.remaining <= d.remaining
            &&& hp2 - hp <= d.remaining - after.remaining
            &&& after.pulse == d.pulse
            &&& after.pulse_interval_ms == d.pulse_interval_ms
            &&& (after.remaining > 0 && dose_valid(d) ==> after.ms_until_pulse > 0)
            &&& (dose_valid(d) ==> after.ms_until_pulse <= if d.ms_until_pulse > 0 {
                d.ms_until_pulse as int
            } else {
                d.pulse_interval_ms as int
            })
        }),
    decreases d.remaining,
{
    if d.remaining > 0 && d.pulse > 0 && d.ms_until_pulse <= 0 && d.pulse_interval_ms > 0 {
        let budget: int = if d.pulse < d.remaining {
            d.pulse as int
        } else {
            d.remaining as int
        };
        let next = HealingDose {
            remaining: (d.remaining - budget) as i32,
            ms_until_pulse: (d.ms_until_pulse + d.pulse_interval_ms) as i64,
            ..d
        };
        lemma_run_dose(next, hp + pulse_heal(budget, hp, maximum), maximum);
    }
}

proof fn lemma_run_doses(doses: Seq<HealingDose>, elapsed: int, hp: int, maximum: int)
    requires
        hp <= maximum,
        forall|i: int| 0 <= i < doses.len() ==> #[trigger] doses[i].remaining >= 0,
    ensures
        ({
            let (after, hp2) = run_doses(doses, elapsed, hp, maximum);
            &&& after.len() == doses.len()
            &&& hp <= hp2 <= maximum
            &&& hp2 - hp + total_remaining(after) <= total_remaining(doses)
            &&& forall|i: int| 0 <= i < after.len() ==> #[trigger] after[i].remaining >= 0
        }),
    decreases doses.len(),
{
    if doses.len() > 0 {
        lemma_run_doses(doses.drop_last(), elapsed, hp, maximum);
        let before = run_doses(doses.drop_last(), elapsed, hp, maximum);
        lemma_run_dose(ticked(doses.last(), elapsed), before.1, maximum);
        let last = run_dose(ticked(doses.last(), elapsed), before.1, maximum);
        assert(before.0.push(last.0).drop_last() =~= before.0);
        assert forall|i: int| 0 <= i < before.0.push(last.0).len() implies #[trigger] before.0.push(last.0)[i].remaining
            >= 0 by {
            if i < before.0.len() {
            }
        }
    }
}

proof fn lemma_total_remaining_filter(doses: Seq<HealingDose>)
    requires
        forall|i: int| 0 <= i < doses.len() ==> #[trigger] doses[i].remaining >= 0,
    ensures
        total_remaining(unfinished(doses)) == total_remaining(doses),
    decreases doses.len(),
{
    if doses.len() > 0 {
        lemma_total_remaining_filter(doses.drop_last());
        if doses.last().remaining > 0 {
            assert(unfinished(doses.drop_last()).push(doses.last()).drop_last() =~= unfinished(doses.drop_last()));
        }
    }
}

/// What advancing the courses `before` by `elapsed_ms` does: the courses
/// that could not run are dropped first, then each course in order plays its
/// due pulses from the current hit points (held at the maximum), finished
/// courses are dropped, and `delta` is the hit point change. Nothing plays
/// when no time passed.
pub open spec fn advance_holds(
    before: Seq<HealingDose>,
    after: Seq<HealingDose>,
    elapsed_ms: i64,
    current_hp: i32,
    maximum_hp: i32,
    delta: int,
) -> bool {
    let valid = valid_doses(before);
    if elapsed_ms <= 0 {
        delta == 0 && after == valid
    } else {
        let (ran, hp) = run_doses(valid, elapsed_ms as int, start_hp(current_hp, maximum_hp), floor_maximum(maximum_hp));
        &&& delta == hp - current_hp
        &&& after == unfinished(ran)
    }
}

impl ActiveHealing {
    /// Starts a course of `total` hit points in pulses of `pulse`, the first
    /// after `first_pulse_ms`, then every `pulse_interval_ms`. A course that
    /// could not run is refused and nothing changes.
    pub fn queue(&mut self, total: i32, pulse: i32, first_pulse_ms: i64, pulse_interval_ms: i64) -> (queued: bool)
        ensures
            queued == (total > 0 && pulse > 0 && first_pulse_ms >= 0 && pulse_interval_ms > 0),
            queued ==> final(self).doses@ == old(self).doses@.push(
                HealingDose { remaining: total, pulse, ms_until_pulse: first_pulse_ms, pulse_interval_ms },
            ),
            !queued ==> final(self).doses@ == old(self).doses@,
    {
        if total <= 0 || pulse <= 0 || first_pulse_ms < 0 || pulse_interval_ms <= 0 {
            return false;
        }
        self.doses.push(HealingDose { remaining: total, pulse, ms_until_pulse: first_pulse_ms, pulse_interval_ms });
        true
    }

    /// Advances every course by `elapsed_ms` and gives the hit point change
    /// for the mission to apply; see [`advance_holds`].
    pub fn advance(&mut self, elapsed_ms: i64, current_hp: i32, maximum_hp: i32) -> (delta: i32)
        requires
            floor_maximum(maximum_hp) - current_hp <= i32::MAX,
        ensures
            advance_holds(old(self).doses@, final(self).doses@, elapsed_ms, current_hp, maximum_hp, delta as int),
    {
        let ghost valid = valid_doses(self.doses@);
        let mut kept: Vec<HealingDose> = Vec::new();
        let mut i: usize = 0;
        while i < self.doses.len()
            invariant
                i <= self.doses@.len(),
                kept@ == valid_doses(self.doses@.take(i as int)),
            decreases self.doses@.len() - i,
        {
            let d = self.doses[i];
            assert(self.doses@.take(i as int + 1).drop_last() =~= self.doses@.take(i as int));
            if d.remaining > 0 && d.pulse > 0 && d.pulse_interval_ms > 0 {
                kept.push(d);
            }
            i += 1;
        }
        assert(self.doses@.take(self.doses@.len() as int) =~= self.doses@);
        self.doses = kept;
        if elapsed_ms <= 0 {
            return 0;
        }
        let maximum: i64 = if maximum_hp < 0 {
            0
        } else {
            maximum_hp as i64
        };
        let mut live_hp: i64 = if (current_hp as i64) < maximum {
            current_hp as i64
        } else {
            maximum
        };
        let ghost start = live_hp as int;
        let mut ran: Vec<HealingDose> = Vec::new();
        let mut j: usize = 0;
        proof {
            lemma_valid_doses(old(self).doses@);
        }
        while j < self.doses.len()
            invariant
                j <= self.doses@.len(),
                self.doses@ == valid,
                forall|k: int| 0 <= k < valid.len() ==> dose_valid(#[trigger] valid[k]),
                elapsed_ms > 0,
                maximum == floor_maximum(maximum_hp),
                start == start_hp(current_hp, maximum_hp),
                start <= maximum,
                i32::MIN <= start,
                (ran@, live_hp as int) == run_doses(valid.take(j as int), elapsed_ms as int, start, maximum as int),
                start <= live_hp <= maximum,
            decreases self.doses@.len() - j,
        {
            let d0 = self.doses[j];
            proof {
                assert(valid.take(j as int + 1).drop_last() =~= valid.take(j as int));
                assert(valid.take(j as int + 1).last() == d0);
                assert(dose_valid(valid[j as int]));
            }
            let mut d = HealingDose {
                ms_until_pulse: if d0.ms_until_pulse < i64::MIN + elapsed_ms {
                    i64::MIN
                } else {
                    d0.ms_until_pulse - elapsed_ms
                },
                ..d0
            };
            assert(d == ticked(d0, elapsed_ms as int));
            let ghost hp_before = live_hp as int;
            while d.remaining > 0 && d.ms_until_pulse <= 0
                invariant
                    d.pulse > 0,
                    d.pulse_interval_ms > 0,
                    d.remaining >= 0,
                    start <= live_hp <= maximum,
                    i32::MIN <= start,
                    maximum <= i32::MAX,
                    run_dose(d, live_hp as int, maximum as int) == run_dose(ticked(d0, elapsed_ms as int), hp_before,
                        maximum as int),
                decreases d.remaining,
            {
                let budget = if d.pulse < d.remaining {
                    d.pulse
                } else {
                    d.remaining
                };
                let missing: i64 = if maximum - live_hp > 0 {
                    maximum - live_hp
                } else {
                    0
                };
                let heal: i64 = if (budget as i64) < missing {
                    budget as i64
                } else {
                    missing
                };
                live_hp = live_hp + heal;
                d.remaining = d.remaining - budget;
                d.ms_until_pulse = d.ms_until_pulse + d.pulse_interval_ms;
            }
            proof {
                lemma_run_dose(ticked(d0, elapsed_ms as int), hp_before, maximum as int);
            }
            ran.push(d);
            j += 1;
        }
        assert(valid.take(valid.len() as int) =~= valid);
        let mut still_running: Vec<HealingDose> = Vec::new();
        let mut k: usize = 0;
        while k < ran.len()
            invariant
                k <= ran@.len(),
                still_running@ == unfinished(ran@.take(k as int)),
            decreases ran@.len() - k,
        {
            let d = ran[k];
            assert(ran@.take(k as int + 1).drop_last() =~= ran@.take(k as int));
            if d.remaining > 0 {
                still_running.push(d);
            }
            k += 1;
        }
        assert(ran@.take(ran@.len() as int) =~= ran@);
        self.doses = still_running;
        (live_hp - current_hp as i64) as i32
    }
}

/// Healing never takes the player past the maximum (held at zero), and never
/// heals more than the budgets it spends: whatever the courses and however
/// much time passes, the hit points reached are at most the maximum, at least
/// the starting ones, and the hit points healed plus the budget left are at
/// most the budget there was.
pub proof fn law_healing_respects_the_maximum_and_the_budget(
    doses: Seq<HealingDose>,
    elapsed_ms: int,
    current_hp: i32,
    maximum_hp: i32,
)
    requires
        forall|i: int| 0 <= i < doses.len() ==> dose_valid(#[trigger] doses[i]),
    ensures
        ({
            let (after, hp) = run_doses(doses, elapsed_ms, start_hp(current_hp, maximum_hp), floor_maximum(maximum_hp));
            &&& start_hp(current_hp, maximum_hp) <= hp <= floor_maximum(maximum_hp)
            &&& hp - start_hp(current_hp, maximum_hp) + total_remaining(unfinished(after)) <= total_remaining(doses)
        }),
{
    lemma_run_doses(doses, elapsed_ms, start_hp(current_hp, maximum_hp), floor_maximum(maximum_hp));
    let (after, hp) = run_doses(doses, elapsed_ms, start_hp(current_hp, maximum_hp), floor_maximum(maximum_hp));
    lemma_total_remaining_filter(after);
}

/// A course's own pulses: whether it plays and what it leaves do not depend
/// on the hit points, and below the maximum it heals exactly the budget it
/// spends; a course that is due plays at least once and is left with no
/// pulse overdue, one that is not due is untouched.
proof fn lemma_run_dose_alone(d: HealingDose, hp: int, hp2: int, maximum: int)
    requires
        d.remaining >= 0,
    ensures
        run_dose(d, hp, maximum).0 == run_dose(d, hp2, maximum).0,
        hp + d.remaining <= maximum ==> run_dose(d, hp, maximum).1 - hp == d.remaining - run_dose(d, hp, maximum).0.remaining,
        dose_valid(d) && d.ms_until_pulse <= 0 ==> run_dose(d, hp, maximum).0.remaining < d.remaining,
        dose_valid(d) ==> run_dose(d, hp, maximum).0.remaining == 0 || run_dose(d, hp, maximum).0.ms_until_pulse > 0,
        d.ms_until_pulse > 0 ==> run_dose(d, hp, maximum).0 == d,
        run_dose(d, hp, maximum).0.remaining >= 0,
    decreases d.remaining,
{
    if d.remaining > 0 && d.pulse > 0 && d.ms_until_pulse <= 0 && d.pulse_interval_ms > 0 {
        let budget: int = if d.pulse < d.remaining {
            d.pulse as int
        } else {
            d.remaining as int
        };
        let next = HealingDose {
            remaining: (d.remaining - budget) as i32,
            ms_until_pulse: (d.ms_until_pulse + d.pulse_interval_ms) as i64,
            ..d
        };
        lemma_run_dose_alone(next, hp + pulse_heal(budget, hp, maximum), hp2 + pulse_heal(budget, hp2, maximum), maximum);
        if hp + d.remaining <= maximum {
            assert(pulse_heal(budget, hp, maximum) == budget);
        }
    }
}

/// No course is left with a pulse overdue: however much time passes, after
/// the courses run every one of them has either spent its whole budget or
/// has its next pulse still ahead; each course that fell due played at least
/// one pulse, and each that did not is left exactly as it was (its timer run
/// down). Every course is kept, in order.
pub proof fn law_every_due_course_pulses(doses: Seq<HealingDose>, elapsed_ms: int, current_hp: i32, maximum_hp: i32)
    requires
        forall|i: int| 0 <= i < doses.len() ==> dose_valid(#[trigger] doses[i]),
        0 < elapsed_ms <= i64::MAX,
    ensures
        ({
            let after = run_doses(doses, elapsed_ms, start_hp(current_hp, maximum_hp), floor_maximum(maximum_hp)).0;
            &&& after.len() == doses.len()
            &&& forall|i: int| 0 <= i < after.len() ==> (#[trigger] after[i]).remaining == 0 || after[i].ms_until_pulse > 0
            &&& forall|i: int| 0 <= i < after.len() && doses[i].ms_until_pulse <= elapsed_ms ==> (#[trigger] after[i]).remaining < doses[i].remaining
            &&& forall|i: int| 0 <= i < after.len() && doses[i].ms_until_pulse > elapsed_ms ==> #[trigger] after[i] == HealingDose {
                ms_until_pulse: (doses[i].ms_until_pulse - elapsed_ms) as i64,
                ..doses[i]
            }
        }),
{
    let hp0 = start_hp(current_hp, maximum_hp);
    let m = floor_maximum(maximum_hp);
    lemma_every_due_course_pulses(doses, elapsed_ms, hp0, m);
}

proof fn lemma_every_due_course_pulses(doses: Seq<HealingDose>, elapsed_ms: int, hp: int, m: int)
    requires
        forall|i: int| 0 <= i < doses.len() ==> dose_valid(#[trigger] doses[i]),
        0 < elapsed_ms <= i64::MAX,
    ensures
        ({
            let after = run_doses(doses, elapsed_ms, hp, m).0;
            &&& after.len() == doses.len()
            &&& forall|i: int| 0 <= i < after.len() ==> (#[trigger] after[i]).remaining == 0 || after[i].ms_until_pulse > 0
            &&& forall|i: int| 0 <= i < after.len() && doses[i].ms_until_pulse <= elapsed_ms ==> (#[trigger] after[i]).remaining < doses[i].remaining
            &&& forall|i: int| 0 <= i < after.len() && doses[i].ms_until_pulse > elapsed_ms ==> #[trigger] after[i] == HealingDose {
                ms_until_pulse: (doses[i].ms_until_pulse - elapsed_ms) as i64,
                ..doses[i]
            }
        }),
    decreases doses.len(),
{
    if doses.len() > 0 {
        let rest = doses.drop_last();
        lemma_every_due_course_pulses(rest, elapsed_ms, hp, m);
        let before = run_doses(rest, elapsed_ms, hp, m);
        let d = doses.last();
        assert(dose_valid(doses[doses.len() - 1]));
        let t = ticked(d, elapsed_ms);
        lemma_run_dose_alone(t, before.1, before.1, m);
        let last = run_dose(t, before.1, m);
        let after = before.0.push(last.0);
        assert forall|i: int| 0 <= i < after.len() implies (#[trigger] after[i]).remaining == 0 || after[i].ms_until_pulse > 0 by {
            if i < before.0.len() {
                assert(after[i] == before.0[i]);
            }
        }
        assert forall|i: int| 0 <= i < after.len() && doses[i].ms_until_pulse <= elapsed_ms implies (#[trigger] after[i]).remaining < doses[i].remaining by {
            if i < before.0.len() {
                assert(after[i] == before.0[i]);
                assert(doses[i] == rest[i]);
            }
        }
        assert forall|i: int| 0 <= i < after.len() && doses[i].ms_until_pulse > elapsed_ms implies #[trigger] after[i] == HealingDose {
            ms_until_pulse: (doses[i].ms_until_pulse - elapsed_ms) as i64,
            ..doses[i]
        } by {
            if i < before.0.len() {
                assert(after[i] == before.0[i]);
                assert(doses[i] == rest[i]);
            }
        }
    }
}

/// Courses heal side by side: below the maximum, two identical courses heal
/// twice what one of them heals over the same time, each playing its own
/// pulses.
pub proof fn law_courses_heal_side_by_side(d: HealingDose, elapsed_ms: int, hp: int, maximum: int)
    requires
        dose_valid(d),
        0 < elapsed_ms <= i64::MAX,
        hp + 2 * d.remaining <= maximum,
    ensures
        run_doses(seq![d, d], elapsed_ms, hp, maximum).1 - hp == 2 * (run_doses(seq![d], elapsed_ms, hp, maximum).1 - hp),
{
    let t = ticked(d, elapsed_ms);
    assert(seq![d, d].drop_last() =~= seq![d]);
    assert(seq![d].drop_last() =~= Seq::<HealingDose>::empty());
    assert(run_doses(Seq::<HealingDose>::empty(), elapsed_ms, hp, maximum) == (Seq::<HealingDose>::empty(), hp));
    lemma_run_dose_alone(t, hp, hp, maximum);
    let one = run_dose(t, hp, maximum);
    assert(run_doses(seq![d], elapsed_ms, hp, maximum).1 == one.1);
    lemma_run_dose_alone(t, one.1, hp, maximum);
    assert(run_doses(seq![d, d], elapsed_ms, hp, maximum).1 == run_dose(t, one.1, maximum).1);
}

/// Advances the player's courses and gives the one health effect the mission
/// applies: the hit points healed, when there are any.
pub fn tick_player_healing(
    active: &mut ActiveHealing,
    player: EntityId,
    current_hp: i32,
    maximum_hp: i32,
    elapsed_ms: i64,
) -> (r: Option<Effect>)
    requires
        floor_maximum(maximum_hp) - current_hp <= i32::MAX,
    ensures
        exists|delta: int|
            {
                &&& advance_holds(old(active).doses@, final(active).doses@, elapsed_ms, current_hp, maximum_hp, delta)
                &&& delta > 0 ==> r == Some(Effect::AdjustHitPoints { entity_id: player, delta: delta as i32 })
                &&& delta <= 0 ==> r is None
            },
{
    let delta = active.advance(elapsed_ms, current_hp, maximum_hp);
    if delta > 0 {
        Some(Effect::AdjustHitPoints { entity_id: player, delta })
    } else {
        None
    }
}

} // verus!
