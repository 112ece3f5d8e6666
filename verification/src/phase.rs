//! Named phases of the day and the hours at which they begin.
use vstd::prelude::*;

use crate::time::{normalize_hour, spec_normalize_hour, DAY_LENGTH_MILLIS};

verus! {

/// The four named phases of a day, in the order in which they begin.
#[derive(Clone, Copy, Debug, PartialEq, Eq, Structural, Hash)]
pub enum DayPhase {
    Dawn,
    Day,
    Dusk,
    Night,
}

/// The hours (milliseconds since midnight) at which each phase begins.
///
/// Boundaries are usable when they are strictly ordered inside one day;
/// unusable boundaries are replaced by the default ones wherever they are
/// read.
#[derive(Clone, Copy, Debug, PartialEq, Eq, Structural, Hash)]
pub struct DayPhaseBoundaries {
    pub dawn_starts: i64,
    pub day_starts: i64,
    pub dusk_starts: i64,
    pub night_starts: i64,
}

/// Dawn at 05:30, day at 07:00, dusk at 18:00 and night at 19:30.
pub open spec fn default_boundaries() -> DayPhaseBoundaries {
    DayPhaseBoundaries {
        dawn_starts: 19_800_000,
        day_starts: 25_200_000,
        dusk_starts: 64_800_000,
        night_starts: 70_200_000,
    }
}

/// The phase at position `k` of the endless sequence
/// dawn, day, dusk, night, dawn, ...
pub open spec fn phase_of_index(k: int) -> DayPhase {
    let i = k % 4;
    if i == 0 {
        DayPhase::Dawn
    } else if i == 1 {
        DayPhase::Day
    } else if i == 2 {
        DayPhase::Dusk
    } else {
        DayPhase::Night
    }
}

/// The phase that begins after `phase`.
pub open spec fn next_phase(phase: DayPhase) -> DayPhase {
    match phase {
        DayPhase::Dawn => DayPhase::Day,
        DayPhase::Day => DayPhase::Dusk,
        DayPhase::Dusk => DayPhase::Night,
        DayPhase::Night => DayPhase::Dawn,
    }
}

impl DayPhaseBoundaries {
    /// Strictly ordered and inside one day.
    pub open spec fn valid(self) -> bool {
        &&& self.dawn_starts >= 0
        &&& self.day_starts > self.dawn_starts
        &&& self.dusk_starts > self.day_starts
        &&& self.night_starts > self.dusk_starts
        &&& self.night_starts < DAY_LENGTH_MILLIS
    }

    /// The boundaries in effect: these when usable, the defaults otherwise.
    pub open spec fn effective(self) -> DayPhaseBoundaries {
        if self.valid() {
            self
        } else {
            default_boundaries()
        }
    }

    /// The hour at which `phase` begins in these boundaries.
    pub open spec fn offset(self, phase: DayPhase) -> int {
        match phase {
            DayPhase::Dawn => self.dawn_starts as int,
            DayPhase::Day => self.day_starts as int,
            DayPhase::Dusk => self.dusk_starts as int,
            DayPhase::Night => self.night_starts as int,
        }
    }

    /// The phase in effect at `hour` (any hour; it is wrapped into the day).
    /// Night runs from its start through midnight to the start of dawn.
    pub open spec fn phase_at_hour(self, hour: int) -> DayPhase {
        let h = spec_normalize_hour(hour);
        let b = self.effective();
        if h >= b.night_starts || h < b.dawn_starts {
            DayPhase::Night
        } else if h >= b.dusk_starts {
            DayPhase::Dusk
        } else if h >= b.day_starts {
            DayPhase::Day
        } else {
            DayPhase::Dawn
        }
    }

    /// The next absolute hour, counted from the midnight that starts the
    /// day of `from_hour`, at which `phase` begins strictly after the
    /// wrapped `from_hour`.
    pub open spec fn next_start_after(self, phase: DayPhase, from_hour: int) -> int {
        let start = self.effective().offset(phase);
        if start > spec_normalize_hour(from_hour) {
            start
        } else {
            start + DAY_LENGTH_MILLIS
        }
    }

    /// Absolute time (milliseconds) at which the `k`-th phase start of the
    /// endless sequence happens; index `0` is the dawn of day zero.
    pub open spec fn start_time(self, k: int) -> int {
        (k / 4) * DAY_LENGTH_MILLIS + self.effective().offset(phase_of_index(k))
    }

    /// How many of the day's phase starts lie at or before `m`.
    pub open spec fn starts_not_after(self, m: int) -> int {
        let b = self.effective();
        (if b.dawn_starts <= m { 1int } else { 0int }) + (if b.day_starts <= m { 1int } else { 0int })
            + (if b.dusk_starts <= m { 1int } else { 0int }) + (if b.night_starts <= m { 1int } else {
            0int
        })
    }

    /// Index of the first phase start strictly after absolute time `t`.
    pub open spec fn first_start_after(self, t: int) -> int {
        4 * (t / (DAY_LENGTH_MILLIS as int)) + self.starts_not_after(t % (DAY_LENGTH_MILLIS as int))
    }

    /// Number of phase starts in `(previous, current]`.
    pub open spec fn count_between(self, previous: int, current: int) -> nat {
        let k0 = self.first_start_after(previous);
        let k1 = self.first_start_after(current);
        if k1 > k0 {
            (k1 - k0) as nat
        } else {
            0
        }
    }

    /// The phases that begin in `(previous, current]`, in the order in
    /// which they begin.
    pub open spec fn starts_between(self, previous: int, current: int) -> Seq<DayPhase> {
        let k0 = self.first_start_after(previous);
        Seq::new(self.count_between(previous, current), |i: int| phase_of_index(k0 + i))
    }
}

/// The default boundaries are usable, so the boundaries in effect always are.
pub proof fn lemma_effective_is_valid(b: DayPhaseBoundaries)
    ensures
        default_boundaries().valid(),
        b.effective().valid(),
{
}

/// Boundaries are used as given exactly when they are strictly ordered
/// inside one day, however close together they lie; all others are replaced
/// by the defaults (dawn 05:30, day 07:00, dusk 18:00, night 19:30).
pub proof fn law_ordered_boundaries_are_used(b: DayPhaseBoundaries)
    ensures
        b.valid() <==> (0 <= b.dawn_starts && b.dawn_starts < b.day_starts && b.day_starts
            < b.dusk_starts && b.dusk_starts < b.night_starts && b.night_starts < 86_400_000),
        (0 <= b.dawn_starts && b.dawn_starts < b.day_starts && b.day_starts < b.dusk_starts
            && b.dusk_starts < b.night_starts && b.night_starts < 86_400_000) ==> b.effective()
            == b,
        !(0 <= b.dawn_starts && b.dawn_starts < b.day_starts && b.day_starts < b.dusk_starts
            && b.dusk_starts < b.night_starts && b.night_starts < 86_400_000) ==> b.effective()
            == (DayPhaseBoundaries {
            dawn_starts: 19_800_000,
            day_starts: 25_200_000,
            dusk_starts: 64_800_000,
            night_starts: 70_200_000,
        }),
{
}

/// With boundaries strictly ordered inside one day, the phase at an hour is
/// read from those boundaries: dawn from its start up to the start of day,
/// day up to dusk, dusk up to night, and night from its start through
/// midnight up to dawn.
pub proof fn law_phase_at_reads_ordered_boundaries(b: DayPhaseBoundaries, hour: int)
    requires
        0 <= b.dawn_starts,
        b.dawn_starts < b.day_starts,
        b.day_starts < b.dusk_starts,
        b.dusk_starts < b.night_starts,
        b.night_starts < 86_400_000,
    ensures
        b.dawn_starts <= hour % 86_400_000 < b.day_starts ==> b.phase_at_hour(hour)
            == DayPhase::Dawn,
        b.day_starts <= hour % 86_400_000 < b.dusk_starts ==> b.phase_at_hour(hour)
            == DayPhase::Day,
        b.dusk_starts <= hour % 86_400_000 < b.night_starts ==> b.phase_at_hour(hour)
            == DayPhase::Dusk,
        hour % 86_400_000 >= b.night_starts || hour % 86_400_000 < b.dawn_starts
            ==> b.phase_at_hour(hour) == DayPhase::Night,
{
}

/// Splits an index of the phase sequence into its day and its phase slot.
proof fn lemma_index_split(k: int)
    ensures
        k == 4 * (k / 4) + k % 4,
        0 <= k % 4 < 4,
{
    vstd::arithmetic::div_mod::lemma_fundamental_div_mod(k, 4);
}

/// Names the day and slot of `4 * day + slot`.
proof fn lemma_index_parts(day: int, slot: int)
    requires
        0 <= slot < 4,
    ensures
        (4 * day + slot) / 4 == day,
        (4 * day + slot) % 4 == slot,
{
    vstd::arithmetic::div_mod::lemma_fundamental_div_mod_converse(4 * day + slot, 4, day, slot);
}

/// Phase starts happen in strictly increasing time order.
pub proof fn lemma_start_time_strictly_increasing(b: DayPhaseBoundaries, j: int, k: int)
    requires
        j < k,
    ensures
        b.start_time(j) < b.start_time(k),
{
    lemma_effective_is_valid(b);
    lemma_index_split(j);
    lemma_index_split(k);
    vstd::arithmetic::div_mod::lemma_div_is_ordered(j, k, 4);
}

/// The phase start at index `first_start_after(t)` is the first one strictly
/// after `t`: the one before it happens at or before `t`.
pub proof fn lemma_first_start_after_brackets(b: DayPhaseBoundaries, t: int)
    ensures
        b.start_time(b.first_start_after(t) - 1) <= t,
        t < b.start_time(b.first_start_after(t)),
{
    lemma_effective_is_valid(b);
    let dl = DAY_LENGTH_MILLIS as int;
    let d = t / dl;
    let m = t % dl;
    vstd::arithmetic::div_mod::lemma_fundamental_div_mod(t, dl);
    let c = b.starts_not_after(m);
    let f = b.first_start_after(t);
    assert(f == 4 * d + c);
    if c == 0 {
        lemma_index_parts(d, 0);
        lemma_index_parts(d - 1, 3);
        assert(f - 1 == 4 * (d - 1) + 3);
    } else if c == 4 {
        lemma_index_parts(d + 1, 0);
        lemma_index_parts(d, 3);
        assert(f == 4 * (d + 1) + 0);
    } else {
        lemma_index_parts(d, c);
        lemma_index_parts(d, c - 1);
        assert(f - 1 == 4 * d + (c - 1));
    }
}

/// Later times have later first phase starts.
pub proof fn lemma_first_start_after_monotone(b: DayPhaseBoundaries, t1: int, t2: int)
    requires
        t1 <= t2,
    ensures
        b.first_start_after(t1) <= b.first_start_after(t2),
{
    lemma_first_start_after_brackets(b, t1);
    lemma_first_start_after_brackets(b, t2);
    let f1 = b.first_start_after(t1);
    let f2 = b.first_start_after(t2);
    if f2 < f1 {
        if f2 < f1 - 1 {
            lemma_start_time_strictly_increasing(b, f2, f1 - 1);
        }
        assert(false);
    }
}

/// Any phase start strictly after `t` has an index at or past
/// `first_start_after(t)`, and any at or before `t` has an index before it.
pub proof fn lemma_first_start_after_separates(b: DayPhaseBoundaries, t: int, k: int)
    ensures
        t < b.start_time(k) <==> b.first_start_after(t) <= k,
{
    lemma_first_start_after_brackets(b, t);
    let f = b.first_start_after(t);
    if k < f - 1 {
        lemma_start_time_strictly_increasing(b, k, f - 1);
    }
    if k > f {
        lemma_start_time_strictly_increasing(b, f, k);
    }
}

impl Default for DayPhaseBoundaries {
    /// Dawn at 05:30, day at 07:00, dusk at 18:00 and night at 19:30.
    fn default() -> (r: Self)
        ensures
            r == default_boundaries(),
    {
        DayPhaseBoundaries {
            dawn_starts: 19_800_000,
            day_starts: 25_200_000,
            dusk_starts: 64_800_000,
            night_starts: 70_200_000,
        }
    }
}

/// The phase at position `k` of the sequence dawn, day, dusk, night, dawn, ...
fn phase_for_index(k: i64) -> (r: DayPhase)
    ensures
        r == phase_of_index(k as int),
{
    let slot = k.checked_rem_euclid(4).unwrap();
    if slot == 0 {
        DayPhase::Dawn
    } else if slot == 1 {
        DayPhase::Day
    } else if slot == 2 {
        DayPhase::Dusk
    } else {
        DayPhase::Night
    }
}

impl DayPhaseBoundaries {
    /// Whether the boundaries are strictly ordered inside one day.
    pub fn is_valid(&self) -> (r: bool)
        ensures
            r == self.valid(),
            r == (0 <= self.dawn_starts && self.dawn_starts < self.day_starts && self.day_starts
                < self.dusk_starts && self.dusk_starts < self.night_starts && self.night_starts
                < 86_400_000),
    {
        self.dawn_starts >= 0 && self.day_starts > self.dawn_starts && self.dusk_starts
            > self.day_starts && self.night_starts > self.dusk_starts && self.night_starts
            < DAY_LENGTH_MILLIS
    }

    /// These boundaries when usable, the defaults otherwise.
    pub fn validated_or_default(self) -> (r: Self)
        ensures
            r == self.effective(),
            r.valid(),
    {
        if self.is_valid() {
            self
        } else {
            DayPhaseBoundaries::default()
        }
    }

    /// The phase in effect at `hour` (any hour; it is wrapped into the day).
    pub fn phase_at(&self, hour: i64) -> (r: DayPhase)
        ensures
            r == self.phase_at_hour(hour as int),
    {
        let hour = normalize_hour(hour) as i64;
        let boundaries = self.validated_or_default();
        if hour >= boundaries.night_starts || hour < boundaries.dawn_starts {
            DayPhase::Night
        } else if hour >= boundaries.dusk_starts {
            DayPhase::Dusk
        } else if hour >= boundaries.day_starts {
            DayPhase::Day
        } else {
            DayPhase::Dawn
        }
    }

    /// The hour at which `phase` begins, in the boundaries in effect.
    pub fn start_hour(&self, phase: DayPhase) -> (r: i64)
        ensures
            r == self.effective().offset(phase),
            0 <= r < DAY_LENGTH_MILLIS,
    {
        let boundaries = self.validated_or_default();
        match phase {
            DayPhase::Dawn => boundaries.dawn_starts,
            DayPhase::Day => boundaries.day_starts,
            DayPhase::Dusk => boundaries.dusk_starts,
            DayPhase::Night => boundaries.night_starts,
        }
    }

    /// The next hour (counted from the midnight that starts the day of
    /// `from_hour`) at which `phase` begins strictly after the wrapped
    /// `from_hour`: today's start if it is still ahead, tomorrow's otherwise.
    pub fn next_start(&self, phase: DayPhase, from_hour: i64) -> (r: i64)
        ensures
            r == self.next_start_after(phase, from_hour as int),
    {
        let from_hour = normalize_hour(from_hour) as i64;
        let start = self.start_hour(phase);
        if start > from_hour {
            start
        } else {
            start + DAY_LENGTH_MILLIS
        }
    }

    /// Milliseconds from `from_hour` until `phase` next begins.
    pub fn hours_until_phase(&self, phase: DayPhase, from_hour: i64) -> (r: i64)
        ensures
            r == self.next_start_after(phase, from_hour as int) - spec_normalize_hour(
                from_hour as int,
            ),
            0 < r <= DAY_LENGTH_MILLIS,
    {
        self.next_start(phase, from_hour) - normalize_hour(from_hour) as i64
    }

    /// The phases that begin in `(previous_absolute_hours, current_absolute_hours]`
    /// (absolute milliseconds), each listed once per start and in the order
    /// in which they begin.
    pub fn phases_started_between(
        &self,
        previous_absolute_hours: i64,
        current_absolute_hours: i64,
    ) -> (r: Vec<DayPhase>)
        ensures
            r@ == self.starts_between(previous_absolute_hours as int, current_absolute_hours as int),
            forall|i: int|
                0 <= i < r@.len() ==> previous_absolute_hours < #[trigger] self.start_time(
                    self.first_start_after(previous_absolute_hours as int) + i,
                ) <= current_absolute_hours,
            self.start_time(self.first_start_after(previous_absolute_hours as int) - 1)
                <= previous_absolute_hours,
            self.start_time(self.first_start_after(previous_absolute_hours as int) + r@.len())
                > current_absolute_hours,
    {
        let ghost prev = previous_absolute_hours as int;
        let ghost cur = current_absolute_hours as int;
        proof {
            lemma_first_start_after_brackets(*self, prev);
        }
        if current_absolute_hours <= previous_absolute_hours {
            proof {
                lemma_first_start_after_monotone(*self, cur, prev);
            }
            return Vec::new();
        }
        let boundaries = self.validated_or_default();
        let first = first_start_index(&boundaries, previous_absolute_hours);
        let end = first_start_index(&boundaries, current_absolute_hours);
        proof {
            lemma_first_start_after_monotone(*self, prev, cur);
        }
        let mut phases: Vec<DayPhase> = Vec::new();
        let mut k = first;
        while k < end
            invariant
                first == self.first_start_after(prev),
                end == self.first_start_after(cur),
                first <= k <= end,
                phases@ == Seq::new((k - first) as nat, |i: int| phase_of_index(first + i)),
            decreases end - k,
        {
            phases.push(phase_for_index(k));
            k = k + 1;
            proof {
                assert(phases@ =~= Seq::new((k - first) as nat, |i: int| phase_of_index(first + i)));
            }
        }
        proof {
            assert forall|i: int| 0 <= i < phases@.len() implies prev < #[trigger] self.start_time(
                first + i,
            ) <= cur by {
                lemma_first_start_after_separates(*self, prev, first + i);
                lemma_first_start_after_separates(*self, cur, first + i);
            }
            lemma_first_start_after_separates(*self, cur, end as int);
        }
        phases
    }
}

/// Index of the first phase start strictly after absolute time `t`.
fn first_start_index(boundaries: &DayPhaseBoundaries, t: i64) -> (r: i64)
    requires
        boundaries.valid(),
    ensures
        r == boundaries.first_start_after(t as int),
{
    let day = t.checked_div_euclid(DAY_LENGTH_MILLIS).unwrap();
    let m = t.checked_rem_euclid(DAY_LENGTH_MILLIS).unwrap();
    let mut count: i64 = 0;
    if boundaries.dawn_starts <= m {
        count = count + 1;
    }
    if boundaries.day_starts <= m {
        count = count + 1;
    }
    if boundaries.dusk_starts <= m {
        count = count + 1;
    }
    if boundaries.night_starts <= m {
        count = count + 1;
    }
    proof {
        vstd::arithmetic::div_mod::lemma_div_is_ordered(i64::MIN as int, t as int, DAY_LENGTH_MILLIS as int);
        vstd::arithmetic::div_mod::lemma_div_is_ordered(t as int, i64::MAX as int, DAY_LENGTH_MILLIS as int);
    }
    4 * day + count
}

/// The phase in effect at any time is the one whose start happened most
/// recently at or before that time.
pub proof fn law_phase_at_is_latest_start(b: DayPhaseBoundaries, t: int)
    ensures
        b.phase_at_hour(t) == phase_of_index(b.first_start_after(t) - 1),
{
    lemma_effective_is_valid(b);
    let dl = DAY_LENGTH_MILLIS as int;
    let d = t / dl;
    let m = t % dl;
    vstd::arithmetic::div_mod::lemma_fundamental_div_mod(t, dl);
    let c = b.starts_not_after(m);
    let f = b.first_start_after(t);
    if c == 0 {
        lemma_index_parts(d - 1, 3);
        assert(f - 1 == 4 * (d - 1) + 3);
    } else {
        lemma_index_parts(d, c - 1);
        assert(f - 1 == 4 * d + (c - 1));
    }
}

/// Each phase is in effect at the hour at which it begins.
pub proof fn law_phase_begins_at_its_start(b: DayPhaseBoundaries, phase: DayPhase)
    ensures
        b.phase_at_hour(b.effective().offset(phase)) == phase,
{
    lemma_effective_is_valid(b);
    let o = b.effective().offset(phase);
    vstd::arithmetic::div_mod::lemma_small_mod(o as nat, DAY_LENGTH_MILLIS as nat);
}

/// Whole days do not change the phase in effect.
pub proof fn law_phase_at_is_periodic(b: DayPhaseBoundaries, hour: int, days: int)
    ensures
        b.phase_at_hour(hour + days * DAY_LENGTH_MILLIS) == b.phase_at_hour(hour),
{
    crate::time::law_normalize_hour_is_periodic(hour, days);
}

/// Waiting `hours_until_phase` from any hour reaches a time at which that
/// phase has just begun, and the wait is more than zero and at most a day.
pub proof fn law_waiting_reaches_phase(b: DayPhaseBoundaries, phase: DayPhase, hour: int)
    ensures
        ({
            let wait = b.next_start_after(phase, hour) - spec_normalize_hour(hour);
            &&& 0 < wait <= DAY_LENGTH_MILLIS
            &&& spec_normalize_hour(hour + wait) == b.effective().offset(phase)
            &&& b.phase_at_hour(hour + wait) == phase
        }),
{
    lemma_effective_is_valid(b);
    let dl = DAY_LENGTH_MILLIS as int;
    let o = b.effective().offset(phase);
    let ns = b.next_start_after(phase, hour);
    vstd::arithmetic::div_mod::lemma_fundamental_div_mod(hour, dl);
    let wait = ns - spec_normalize_hour(hour);
    assert(hour + wait == (hour / dl) * dl + ns);
    if ns == o {
        vstd::arithmetic::div_mod::lemma_fundamental_div_mod_converse(hour + wait, dl, hour / dl, o);
    } else {
        assert(hour + wait == (hour / dl + 1) * dl + o);
        vstd::arithmetic::div_mod::lemma_fundamental_div_mod_converse(
            hour + wait,
            dl,
            hour / dl + 1,
            o,
        );
    }
    law_phase_begins_at_its_start(b, phase);
    crate::time::law_normalize_hour_is_periodic(hour + wait, 0);
}

/// Splitting a move of the clock into two moves announces the same phases:
/// those of the first move followed by those of the second.
pub proof fn law_phase_starts_split(b: DayPhaseBoundaries, a: int, m: int, c: int)
    requires
        a <= m <= c,
    ensures
        b.starts_between(a, c) == b.starts_between(a, m) + b.starts_between(m, c),
{
    lemma_first_start_after_monotone(b, a, m);
    lemma_first_start_after_monotone(b, m, c);
    let k0 = b.first_start_after(a);
    let k1 = b.first_start_after(m);
    let left = b.starts_between(a, m);
    let right = b.starts_between(m, c);
    assert(b.starts_between(a, c) =~= left + right) by {
        assert forall|i: int| 0 <= i < right.len() implies right[i] == phase_of_index(k0 + (
        left.len() + i)) by {
            assert(k1 + i == k0 + (left.len() + i));
        }
    }
}

/// Announced phases follow the cycle dawn, day, dusk, night, dawn, ...
pub proof fn law_phase_starts_follow_cycle(b: DayPhaseBoundaries, a: int, c: int, i: int)
    requires
        0 <= i,
        i + 1 < b.starts_between(a, c).len(),
    ensures
        b.starts_between(a, c)[i + 1] == next_phase(b.starts_between(a, c)[i]),
{
    let k = b.first_start_after(a) + i;
    lemma_index_split(k);
    lemma_index_split(k + 1);
    let q = k / 4;
    let r = k % 4;
    if r == 3 {
        lemma_index_parts(q + 1, 0);
    } else {
        lemma_index_parts(q, r + 1);
    }
}

/// A move of at most one day announces each phase at most once, so at most
/// four phases.
pub proof fn law_phase_starts_within_a_day_are_distinct(b: DayPhaseBoundaries, a: int, c: int)
    requires
        c - a <= DAY_LENGTH_MILLIS,
    ensures
        b.starts_between(a, c).len() <= 4,
        forall|i: int, j: int|
            0 <= i < j < b.starts_between(a, c).len() ==> b.starts_between(a, c)[i]
                != b.starts_between(a, c)[j],
{
    let k0 = b.first_start_after(a);
    lemma_first_start_after_brackets(b, a);
    // The start four places later is one day later, hence after `c`.
    lemma_index_split(k0);
    lemma_index_parts(k0 / 4 + 1, k0 % 4);
    assert(k0 + 4 == 4 * (k0 / 4 + 1) + k0 % 4);
    assert(b.start_time(k0 + 4) == b.start_time(k0) + DAY_LENGTH_MILLIS);
    lemma_first_start_after_separates(b, c, k0 + 4);
    let s = b.starts_between(a, c);
    assert forall|i: int, j: int| 0 <= i < j < s.len() implies s[i] != s[j] by {
        lemma_index_split(k0 + i);
        lemma_index_split(k0 + j);
        if (k0 + i) % 4 == (k0 + j) % 4 {
            assert((k0 + j) / 4 > (k0 + i) / 4);
            assert(false);
        }
    }
}

/// When a move of the clock announces phases, the last one announced is the
/// phase in effect at the end of the move.
pub proof fn law_last_announced_phase_is_current(b: DayPhaseBoundaries, a: int, c: int)
    requires
        b.starts_between(a, c).len() > 0,
    ensures
        b.starts_between(a, c).last() == b.phase_at_hour(c),
{
    law_phase_at_is_latest_start(b, c);
}

/// A move that does not go forward (a backward jump or scrub, or none)
/// announces no phase.
pub proof fn law_backward_moves_announce_nothing(b: DayPhaseBoundaries, a: int, c: int)
    requires
        c <= a,
    ensures
        b.starts_between(a, c).len() == 0,
{
    lemma_first_start_after_monotone(b, c, a);
}

} // verus!
