//! The simulated clock.
//!
//! Clock values are fixed-point: one unit is one millisecond of simulated
//! time, so an hour is `MILLIS_PER_HOUR` units and a day is
//! `DAY_LENGTH_MILLIS` units. All clock arithmetic is exact.
use vstd::prelude::*;

verus! {

/// Milliseconds of simulated clock time in one hour.
pub const MILLIS_PER_HOUR: i64 = 3_600_000;

/// Hours in one simulated day.
pub const DAY_LENGTH_HOURS: i64 = 24;

/// Milliseconds of simulated clock time in one day.
pub const DAY_LENGTH_MILLIS: i64 = 86_400_000;

/// How the clock behaves at the end of a day.
#[derive(Clone, Copy, Debug, PartialEq, Eq, Structural, Hash)]
pub enum TimeWrapMode {
    /// The clock wraps back into `[0, 24h)` and counts completed days.
    Loop,
    /// The clock stops at `24h` and never counts days on its own.
    Clamp,
}

impl Default for TimeWrapMode {
    fn default() -> (r: Self)
        ensures
            r == TimeWrapMode::Loop,
    {
        TimeWrapMode::Loop
    }
}

/// The current clock reading.
///
/// `hour` is milliseconds since midnight and `calendar_day` the number of
/// midnights passed since the midnight before the clock started, so the
/// clock's absolute time is `calendar_day * 24h + hour`. `cycle_start` is
/// the absolute time at which the clock started, and `elapsed_days` the
/// number of full 24-hour cycles since then (zero before the start): a
/// clock started at 18:00 reads day 0 at 00:30 and day 1 from 18:00 the
/// next day on.
#[derive(Clone, Copy, Debug, PartialEq, Eq, Structural, Hash)]
pub struct TimeOfDay {
    pub hour: u32,
    pub elapsed_days: u32,
    pub calendar_day: u32,
    pub cycle_start: u32,
}

/// Full 24-hour cycles from `start` to `total` (zero before `start`).
pub open spec fn cycles_since(total: int, start: int) -> int {
    if total < start {
        0
    } else {
        (total - start) / (DAY_LENGTH_MILLIS as int)
    }
}

/// The last absolute time the clock can reach: the last midnight that the
/// calendar day can count.
pub open spec fn last_time() -> int {
    u32::MAX * DAY_LENGTH_MILLIS
}

/// `hour` clamped into `[0, DAY_LENGTH_MILLIS]`.
pub open spec fn spec_clamp_hour(hour: int) -> int {
    if hour < 0 {
        0
    } else if hour > DAY_LENGTH_MILLIS {
        DAY_LENGTH_MILLIS as int
    } else {
        hour
    }
}

/// `hour` wrapped into `[0, DAY_LENGTH_MILLIS)`.
pub open spec fn spec_normalize_hour(hour: int) -> int {
    hour % (DAY_LENGTH_MILLIS as int)
}

impl TimeOfDay {
    /// Absolute simulated time in milliseconds, counted from the midnight
    /// before the start.
    pub open spec fn total(self) -> int {
        self.calendar_day * DAY_LENGTH_MILLIS + self.hour
    }

    /// Whether the day counter agrees with the absolute time and the start,
    /// and the hour lies inside the day: true of every clock a looping step
    /// produces.
    pub open spec fn consistent(self) -> bool {
        &&& self.hour < DAY_LENGTH_MILLIS
        &&& self.total() <= last_time()
        &&& self.elapsed_days == cycles_since(self.total(), self.cycle_start as int)
    }

    /// A clock at `hour` (clamped into a day) with no completed days,
    /// counting days from the first midnight.
    pub fn new(hour: i64) -> (r: Self)
        ensures
            r.hour == spec_clamp_hour(hour as int),
            r.elapsed_days == 0,
            r.calendar_day == 0,
            r.cycle_start == 0,
    {
        TimeOfDay { hour: clamp_hour(hour), elapsed_days: 0, calendar_day: 0, cycle_start: 0 }
    }

    /// A clock at `hour` (clamped into a day) on day `elapsed_days`,
    /// counting days from the first midnight.
    pub fn with_days(hour: i64, elapsed_days: u32) -> (r: Self)
        ensures
            r.hour == spec_clamp_hour(hour as int),
            r.elapsed_days == elapsed_days,
            r.calendar_day == elapsed_days,
            r.cycle_start == 0,
    {
        TimeOfDay { hour: clamp_hour(hour), elapsed_days, calendar_day: elapsed_days, cycle_start: 0 }
    }

    /// The hour wrapped into `[0, 24h)`.
    pub fn cyclic_hour(self) -> (r: u32)
        ensures
            r == spec_normalize_hour(self.hour as int),
            r < DAY_LENGTH_MILLIS,
    {
        normalize_hour(self.hour as i64)
    }

    /// Absolute simulated time in milliseconds.
    pub fn total_hours(self) -> (r: i64)
        ensures
            r == self.total(),
            r >= 0,
    {
        proof {
            assert(self.calendar_day * DAY_LENGTH_MILLIS <= u32::MAX * DAY_LENGTH_MILLIS)
                by (nonlinear_arith)
                requires
                    self.calendar_day <= u32::MAX,
            ;
        }
        self.calendar_day as i64 * DAY_LENGTH_MILLIS + self.hour as i64
    }

    /// Sets the hour of the current calendar day, clamped into a day; the
    /// day counter and the start are kept.
    pub fn set_hour(&mut self, hour: i64)
        ensures
            final(self).hour == spec_clamp_hour(hour as int),
            final(self).elapsed_days == old(self).elapsed_days,
            final(self).calendar_day == old(self).calendar_day,
            final(self).cycle_start == old(self).cycle_start,
    {
        self.hour = clamp_hour(hour);
    }
}

impl Default for TimeOfDay {
    /// Noon of the first day.
    fn default() -> (r: Self)
        ensures
            r.hour == 12 * MILLIS_PER_HOUR,
            r.elapsed_days == 0,
            r.calendar_day == 0,
            r.cycle_start == 0,
    {
        TimeOfDay::new(12 * MILLIS_PER_HOUR)
    }
}

/// A one-shot request to move the clock.
#[derive(Clone, Copy, Debug, PartialEq, Eq, Structural, Hash)]
pub enum TimeOverride {
    /// Set the hour of the current day.
    Scrub { hour: i64 },
    /// Move the clock forward (or back) by `hours` milliseconds.
    AdvanceHours { hours: i64 },
}

/// What moved the clock in one step.
#[derive(Clone, Copy, Debug, PartialEq, Eq, Structural, Hash)]
pub enum TimeStepMode {
    Idle,
    Continuous,
    Scrub,
    AdvanceJump,
}

/// One step of the clock: the readings before and after, what caused it,
/// and the requested change in milliseconds.
#[derive(Clone, Copy, Debug, PartialEq, Eq, Structural, Hash)]
pub struct TimeStep {
    pub previous: TimeOfDay,
    pub current: TimeOfDay,
    pub mode: TimeStepMode,
    pub delta_hours: i64,
}

/// The step that leaves `time` unchanged.
pub open spec fn idle_step(time: TimeOfDay) -> TimeStep {
    TimeStep { previous: time, current: time, mode: TimeStepMode::Idle, delta_hours: 0 }
}

/// The looping reading at absolute time `total`, floored at zero and
/// stopped at the last countable midnight, for a clock that started at
/// `start`: the hour and calendar day of that time, and the full cycles
/// since the start.
pub open spec fn clock_at(total: int, start: u32) -> TimeOfDay {
    let floored = if total < 0 { 0 } else { total };
    let t = if floored > last_time() { last_time() } else { floored };
    TimeOfDay {
        hour: (t % (DAY_LENGTH_MILLIS as int)) as u32,
        elapsed_days: cycles_since(t, start as int) as u32,
        calendar_day: (t / (DAY_LENGTH_MILLIS as int)) as u32,
        cycle_start: start,
    }
}

/// The clock reading after moving `time` by `delta` under `wrap_mode`:
/// under `Loop` the absolute time moves; under `Clamp` only the hour of
/// the current calendar day moves, within `[0, 24h]`, and no day is
/// counted.
pub open spec fn advanced(time: TimeOfDay, delta: int, wrap_mode: TimeWrapMode) -> TimeOfDay {
    match wrap_mode {
        TimeWrapMode::Loop => clock_at(time.total() + delta, time.cycle_start),
        TimeWrapMode::Clamp => TimeOfDay {
            hour: spec_clamp_hour(time.hour + delta) as u32,
            ..time
        },
    }
}

/// The clock after a scrub to `hour` of its current calendar day: under
/// `Loop` the hour wraps and the day counter follows the new absolute time;
/// under `Clamp` the hour is clamped and the day counter is kept.
pub open spec fn scrubbed(time: TimeOfDay, hour: int, wrap_mode: TimeWrapMode) -> TimeOfDay {
    let h = scrub_hour(hour, wrap_mode);
    match wrap_mode {
        TimeWrapMode::Loop => TimeOfDay {
            hour: h as u32,
            elapsed_days: cycles_since(
                time.calendar_day * DAY_LENGTH_MILLIS + h,
                time.cycle_start as int,
            ) as u32,
            ..time
        },
        TimeWrapMode::Clamp => TimeOfDay { hour: h as u32, ..time },
    }
}

/// The step that moves `time` by `delta` (idle when `delta` is zero).
pub open spec fn stepped(
    time: TimeOfDay,
    delta: i64,
    wrap_mode: TimeWrapMode,
    mode: TimeStepMode,
) -> TimeStep {
    if delta == 0 {
        idle_step(time)
    } else {
        TimeStep {
            previous: time,
            current: advanced(time, delta as int, wrap_mode),
            mode,
            delta_hours: delta,
        }
    }
}

/// The hour a scrub to `hour` lands on.
pub open spec fn scrub_hour(hour: int, wrap_mode: TimeWrapMode) -> int {
    match wrap_mode {
        TimeWrapMode::Loop => spec_normalize_hour(hour),
        TimeWrapMode::Clamp => spec_clamp_hour(hour),
    }
}

impl TimeStep {
    /// The step that leaves `time` unchanged.
    pub fn idle(time: TimeOfDay) -> (r: Self)
        ensures
            r == idle_step(time),
    {
        TimeStep { previous: time, current: time, mode: TimeStepMode::Idle, delta_hours: 0 }
    }

    /// Absolute time after the step, in milliseconds.
    pub fn current_absolute_hours(self) -> (r: i64)
        ensures
            r == self.current.total(),
    {
        self.current.total_hours()
    }

    /// Absolute time before the step, in milliseconds.
    pub fn previous_absolute_hours(self) -> (r: i64)
        ensures
            r == self.previous.total(),
    {
        self.previous.total_hours()
    }
}

/// Wraps `hour` into `[0, 24h)`.
pub fn normalize_hour(hour: i64) -> (r: u32)
    ensures
        r == spec_normalize_hour(hour as int),
        r < DAY_LENGTH_MILLIS,
{
    let wrapped = hour.checked_rem_euclid(DAY_LENGTH_MILLIS).unwrap();
    wrapped as u32
}

/// Clamps `hour` into `[0, 24h]`.
pub fn clamp_hour(hour: i64) -> (r: u32)
    ensures
        r == spec_clamp_hour(hour as int),
{
    if hour < 0 {
        0
    } else if hour > DAY_LENGTH_MILLIS {
        DAY_LENGTH_MILLIS as u32
    } else {
        hour as u32
    }
}

/// Nanoseconds of game time in a real frame of `delta_micros` microseconds
/// when one simulated hour takes `micros_per_hour` real microseconds and the
/// clock runs at `time_scale_ppm / 1_000_000` speed, rounded toward zero.
pub open spec fn frame_nanos(delta_micros: u32, micros_per_hour: u64, time_scale_ppm: i64) -> int {
    let magnitude_scale: int = if time_scale_ppm < 0 {
        -time_scale_ppm
    } else {
        time_scale_ppm as int
    };
    let magnitude = (delta_micros * magnitude_scale * 3_600_000) / (micros_per_hour as int);
    if time_scale_ppm < 0 {
        -magnitude
    } else {
        magnitude
    }
}

/// Game time carried into this frame, in nanoseconds: the frame's time plus
/// the sub-millisecond remainder `carry_nanos` left by earlier frames.
pub open spec fn carried_nanos(
    delta_micros: u32,
    micros_per_hour: u64,
    time_scale_ppm: i64,
    carry_nanos: u32,
) -> int {
    frame_nanos(delta_micros, micros_per_hour, time_scale_ppm) + carry_nanos
}

/// Whether the whole milliseconds of the carried time fit in an `i64`.
pub open spec fn carried_fits(
    delta_micros: u32,
    micros_per_hour: u64,
    time_scale_ppm: i64,
    carry_nanos: u32,
) -> bool {
    let ms = carried_nanos(delta_micros, micros_per_hour, time_scale_ppm, carry_nanos) / 1_000_000;
    i64::MIN <= ms <= i64::MAX
}

/// The whole milliseconds the clock moves this frame: the carried time
/// rounded down to a millisecond, saturating at the range of `i64`.
pub open spec fn continuous_delta(
    delta_micros: u32,
    micros_per_hour: u64,
    time_scale_ppm: i64,
    carry_nanos: u32,
) -> int {
    let ms = carried_nanos(delta_micros, micros_per_hour, time_scale_ppm, carry_nanos) / 1_000_000;
    if ms > i64::MAX {
        i64::MAX as int
    } else if ms < i64::MIN {
        i64::MIN as int
    } else {
        ms
    }
}

/// The sub-millisecond remainder left for the next frame (none once the
/// move saturated).
pub open spec fn continuous_carry(
    delta_micros: u32,
    micros_per_hour: u64,
    time_scale_ppm: i64,
    carry_nanos: u32,
) -> int {
    if carried_fits(delta_micros, micros_per_hour, time_scale_ppm, carry_nanos) {
        carried_nanos(delta_micros, micros_per_hour, time_scale_ppm, carry_nanos) % 1_000_000
    } else {
        0
    }
}

/// Whether continuous progression is held for this frame.
pub open spec fn continuous_is_held(
    delta_micros: u32,
    micros_per_hour: u64,
    time_scale_ppm: i64,
    paused: bool,
) -> bool {
    paused || delta_micros == 0 || time_scale_ppm == 0 || micros_per_hour == 0
}

/// The step of one real frame of continuous progression.
pub open spec fn continuous_step(
    time: TimeOfDay,
    delta_micros: u32,
    micros_per_hour: u64,
    time_scale_ppm: i64,
    paused: bool,
    wrap_mode: TimeWrapMode,
    carry_nanos: u32,
) -> TimeStep {
    if continuous_is_held(delta_micros, micros_per_hour, time_scale_ppm, paused) {
        idle_step(time)
    } else {
        stepped(
            time,
            continuous_delta(delta_micros, micros_per_hour, time_scale_ppm, carry_nanos) as i64,
            wrap_mode,
            TimeStepMode::Continuous,
        )
    }
}

/// The sub-millisecond remainder after one real frame.
pub open spec fn carry_after(
    delta_micros: u32,
    micros_per_hour: u64,
    time_scale_ppm: i64,
    paused: bool,
    carry_nanos: u32,
) -> u32 {
    if continuous_is_held(delta_micros, micros_per_hour, time_scale_ppm, paused) {
        carry_nanos
    } else {
        continuous_carry(delta_micros, micros_per_hour, time_scale_ppm, carry_nanos) as u32
    }
}

/// The step of a one-shot request.
pub open spec fn override_step(time: TimeOfDay, request: TimeOverride, wrap_mode: TimeWrapMode) -> TimeStep {
    match request {
        TimeOverride::Scrub { hour } => TimeStep {
            previous: time,
            current: scrubbed(time, hour as int, wrap_mode),
            mode: TimeStepMode::Scrub,
            delta_hours: (scrub_hour(hour as int, wrap_mode) - time.hour) as i64,
        },
        TimeOverride::AdvanceHours { hours } => stepped(
            time,
            hours,
            wrap_mode,
            TimeStepMode::AdvanceJump,
        ),
    }
}

fn frame_delta(delta_micros: u32, micros_per_hour: u64, time_scale_ppm: i64, carry_nanos: &mut u32) -> (r: i64)
    requires
        micros_per_hour > 0,
    ensures
        r == continuous_delta(delta_micros, micros_per_hour, time_scale_ppm, *old(carry_nanos)),
        *final(carry_nanos) == continuous_carry(
            delta_micros,
            micros_per_hour,
            time_scale_ppm,
            *old(carry_nanos),
        ),
        *final(carry_nanos) < 1_000_000,
{
    let negative = time_scale_ppm < 0;
    let magnitude_scale: u128 = if negative {
        (-(time_scale_ppm as i128)) as u128
    } else {
        time_scale_ppm as u128
    };
    let ghost ms: int = magnitude_scale as int;
    proof {
        assert(delta_micros * ms * 3_600_000 <= u32::MAX * 0x8000_0000_0000_0000 * 3_600_000)
            by (nonlinear_arith)
            requires
                0 <= delta_micros <= u32::MAX,
                0 <= ms <= 0x8000_0000_0000_0000,
        ;
    }
    let numerator: u128 = delta_micros as u128 * magnitude_scale * 3_600_000u128;
    let magnitude: u128 = numerator / (micros_per_hour as u128);
    proof {
        vstd::arithmetic::div_mod::lemma_div_is_ordered(
            numerator as int,
            u32::MAX * 0x8000_0000_0000_0000 * 3_600_000,
            micros_per_hour as int,
        );
        vstd::arithmetic::div_mod::lemma_div_is_ordered_by_denominator(
            u32::MAX * 0x8000_0000_0000_0000 * 3_600_000,
            1,
            micros_per_hour as int,
        );
    }
    let signed: i128 = if negative {
        -(magnitude as i128)
    } else {
        magnitude as i128
    };
    let total: i128 = signed + *carry_nanos as i128;
    let whole: i128 = total.checked_div_euclid(1_000_000).unwrap();
    let rest: i128 = total.checked_rem_euclid(1_000_000).unwrap();
    if whole > i64::MAX as i128 {
        *carry_nanos = 0;
        i64::MAX
    } else if whole < i64::MIN as i128 {
        *carry_nanos = 0;
        i64::MIN
    } else {
        *carry_nanos = rest as u32;
        whole as i64
    }
}

/// Moves the clock by one real frame of continuous progression.
///
/// The step is idle, and the remainder kept, when the clock is paused, the
/// frame is empty, the speed is zero or an hour has no real length.
/// Otherwise the frame's game time plus the carried remainder moves the
/// clock by its whole milliseconds under `wrap_mode`, and the
/// sub-millisecond rest is carried to the next frame, so no time is lost
/// to rounding.
pub fn advance_continuous(
    time: TimeOfDay,
    delta_micros: u32,
    micros_per_hour: u64,
    time_scale_ppm: i64,
    paused: bool,
    wrap_mode: TimeWrapMode,
    carry_nanos: &mut u32,
) -> (r: TimeStep)
    ensures
        r == continuous_step(
            time,
            delta_micros,
            micros_per_hour,
            time_scale_ppm,
            paused,
            wrap_mode,
            *old(carry_nanos),
        ),
        *final(carry_nanos) == carry_after(
            delta_micros,
            micros_per_hour,
            time_scale_ppm,
            paused,
            *old(carry_nanos),
        ),
{
    if paused || delta_micros == 0 || time_scale_ppm == 0 || micros_per_hour == 0 {
        return TimeStep::idle(time);
    }
    let delta_hours = frame_delta(delta_micros, micros_per_hour, time_scale_ppm, carry_nanos);
    advance_by_hours(time, delta_hours, wrap_mode, TimeStepMode::Continuous)
}

/// Applies a one-shot clock request.
///
/// A scrub sets the hour of the current day (wrapped or clamped by
/// `wrap_mode`) and never changes the day counter; an advance moves the
/// clock like `advance_by_hours` and is reported as a jump.
pub fn apply_time_override(time: TimeOfDay, request: TimeOverride, wrap_mode: TimeWrapMode) -> (r:
    TimeStep)
    ensures
        r == override_step(time, request, wrap_mode),
{
    match request {
        TimeOverride::Scrub { hour } => {
            let mut current = time;
            match wrap_mode {
                TimeWrapMode::Loop => {
                    current.hour = normalize_hour(hour);
                    current.elapsed_days = full_cycles(current.total_hours(), time.cycle_start);
                },
                TimeWrapMode::Clamp => {
                    current.hour = clamp_hour(hour);
                },
            }
            TimeStep {
                previous: time,
                current,
                mode: TimeStepMode::Scrub,
                delta_hours: current.hour as i64 - time.hour as i64,
            }
        },
        TimeOverride::AdvanceHours { hours } => advance_by_hours(
            time,
            hours,
            wrap_mode,
            TimeStepMode::AdvanceJump,
        ),
    }
}

/// Moves the clock by `delta_hours` milliseconds.
///
/// A zero change is an idle step. Under `Loop` the absolute time moves by
/// exactly `delta_hours` (floored at zero) and the day counter counts the
/// completed days; under `Clamp` the hour moves within `[0, 24h]` and the
/// day counter is kept.
pub fn advance_by_hours(
    time: TimeOfDay,
    delta_hours: i64,
    wrap_mode: TimeWrapMode,
    mode: TimeStepMode,
) -> (r: TimeStep)
    ensures
        r == stepped(time, delta_hours, wrap_mode, mode),
{
    if delta_hours == 0 {
        return TimeStep::idle(time);
    }
    match wrap_mode {
        TimeWrapMode::Loop => advance_looping(time, delta_hours, mode),
        TimeWrapMode::Clamp => advance_clamped(time, delta_hours, mode),
    }
}

/// Any absolute time before the midnight after the last countable one is
/// less than `u32::MAX + 1` full cycles past any start.
proof fn lemma_cycles_fit(total: int, start: int)
    requires
        0 <= start <= total < last_time() + DAY_LENGTH_MILLIS,
    ensures
        0 <= (total - start) / (DAY_LENGTH_MILLIS as int) <= u32::MAX,
{
    let d = DAY_LENGTH_MILLIS as int;
    vstd::arithmetic::div_mod::lemma_div_is_ordered(total - start, last_time() + d - 1, d);
    vstd::arithmetic::div_mod::lemma_fundamental_div_mod_converse(
        last_time() + d - 1,
        d,
        u32::MAX as int,
        d - 1,
    );
    vstd::arithmetic::div_mod::lemma_div_pos_is_pos(total - start, d);
}

/// Full 24-hour cycles from `start` to `total`.
fn full_cycles(total: i64, start: u32) -> (r: u32)
    requires
        0 <= total < last_time() + DAY_LENGTH_MILLIS,
    ensures
        r == cycles_since(total as int, start as int),
{
    if total < start as i64 {
        0
    } else {
        proof {
            lemma_cycles_fit(total as int, start as int);
        }
        ((total - start as i64) / DAY_LENGTH_MILLIS) as u32
    }
}

fn advance_looping(time: TimeOfDay, delta_hours: i64, mode: TimeStepMode) -> (r: TimeStep)
    ensures
        r == (TimeStep {
            previous: time,
            current: clock_at(time.total() + delta_hours, time.cycle_start),
            mode,
            delta_hours,
        }),
{
    let moved: i128 = time.total_hours() as i128 + delta_hours as i128;
    let last: i128 = u32::MAX as i128 * DAY_LENGTH_MILLIS as i128;
    let t: i64 = if moved < 0 {
        0
    } else if moved > last {
        last as i64
    } else {
        moved as i64
    };
    proof {
        vstd::arithmetic::div_mod::lemma_div_is_ordered(t as int, last_time(), DAY_LENGTH_MILLIS as int);
        vstd::arithmetic::div_mod::lemma_div_multiples_vanish(u32::MAX as int, DAY_LENGTH_MILLIS as int);
    }
    let current = TimeOfDay {
        hour: (t % DAY_LENGTH_MILLIS) as u32,
        elapsed_days: full_cycles(t, time.cycle_start),
        calendar_day: (t / DAY_LENGTH_MILLIS) as u32,
        cycle_start: time.cycle_start,
    };
    TimeStep { previous: time, current, mode, delta_hours }
}

fn advance_clamped(time: TimeOfDay, delta_hours: i64, mode: TimeStepMode) -> (r: TimeStep)
    ensures
        r == (TimeStep {
            previous: time,
            current: TimeOfDay { hour: spec_clamp_hour(time.hour + delta_hours) as u32, ..time },
            mode,
            delta_hours,
        }),
{
    let moved: i128 = time.hour as i128 + delta_hours as i128;
    let hour: u32 = if moved < 0 {
        0
    } else if moved > DAY_LENGTH_MILLIS as i128 {
        DAY_LENGTH_MILLIS as u32
    } else {
        moved as u32
    };
    TimeStep { previous: time, current: TimeOfDay { hour, ..time }, mode, delta_hours }
}

/// A looping clock placed at any absolute time from zero to the last
/// countable midnight reads back exactly that time; its hour lies inside
/// the day, its calendar day counts the midnights, and its day counter is
/// the number of full 24-hour cycles since its start.
pub proof fn law_looping_clock_keeps_absolute_time(total: int, start: u32)
    requires
        0 <= total <= last_time(),
    ensures
        clock_at(total, start).total() == total,
        clock_at(total, start).hour < DAY_LENGTH_MILLIS,
        clock_at(total, start).calendar_day == total / (DAY_LENGTH_MILLIS as int),
        clock_at(total, start).elapsed_days == cycles_since(total, start as int),
        clock_at(total, start).cycle_start == start,
        clock_at(total, start).consistent(),
{
    let d = DAY_LENGTH_MILLIS as int;
    vstd::arithmetic::div_mod::lemma_fundamental_div_mod(total, d);
    vstd::arithmetic::div_mod::lemma_div_is_ordered(total, last_time(), d);
    vstd::arithmetic::div_mod::lemma_div_multiples_vanish(u32::MAX as int, d);
    if total >= start {
        vstd::arithmetic::div_mod::lemma_div_is_ordered(total - start, total, d);
    }
}

/// Under `Loop` the clock moves to the requested absolute time, floored at
/// zero and stopped at the last countable midnight; in particular it can
/// go back before the hour it started at.
pub proof fn law_looping_move_lands_on_requested_time(time: TimeOfDay, delta: int)
    ensures
        ({
            let requested = time.total() + delta;
            let expected = if requested < 0 {
                0
            } else if requested > last_time() {
                last_time()
            } else {
                requested
            };
            advanced(time, delta, TimeWrapMode::Loop).total() == expected
        }),
{
    let requested = time.total() + delta;
    let t = if requested < 0 {
        0
    } else if requested > last_time() {
        last_time()
    } else {
        requested
    };
    law_looping_clock_keeps_absolute_time(t, time.cycle_start);
}

/// Booting the clock at its start hour and letting `d` of simulated time
/// pass under `Loop` counts exactly the full 24-hour cycles in `d`: a clock
/// started at 18:00 reads day 0 at 00:30 and day 1 only from 18:00 on.
pub proof fn law_day_counter_counts_full_cycles_from_start(start: u32, d: int)
    requires
        start < DAY_LENGTH_MILLIS,
        0 <= d,
        start + d <= last_time(),
    ensures
        ({
            let booted = TimeOfDay { hour: start, elapsed_days: 0, calendar_day: 0, cycle_start: start };
            let later = advanced(booted, d, TimeWrapMode::Loop);
            &&& later.elapsed_days == d / (DAY_LENGTH_MILLIS as int)
            &&& later.hour == (start + d) % (DAY_LENGTH_MILLIS as int)
            &&& later.total() == start + d
        }),
{
    law_looping_clock_keeps_absolute_time(start + d, start);
}

/// A consistent clock reads back as itself from its own absolute time.
pub proof fn law_consistent_clock_is_fixed_point(time: TimeOfDay)
    requires
        time.consistent(),
    ensures
        clock_at(time.total(), time.cycle_start) == time,
{
    let d = DAY_LENGTH_MILLIS as int;
    vstd::arithmetic::div_mod::lemma_fundamental_div_mod_converse(
        time.total(),
        d,
        time.calendar_day as int,
        time.hour as int,
    );
}

/// Under `Loop`, moving the clock by `a` and then by `b` lands where moving
/// it by `a + b` does, as long as the first move stays between zero and the
/// last countable midnight.
pub proof fn law_looping_advances_compose(time: TimeOfDay, a: int, b: int)
    requires
        0 <= time.total() + a <= last_time(),
    ensures
        advanced(advanced(time, a, TimeWrapMode::Loop), b, TimeWrapMode::Loop) == advanced(
            time,
            a + b,
            TimeWrapMode::Loop,
        ),
{
    law_looping_clock_keeps_absolute_time(time.total() + a, time.cycle_start);
}

/// Under `Loop`, moving a consistent clock by `d` and then by `-d` restores
/// it.
pub proof fn law_looping_advance_round_trip(time: TimeOfDay, d: int)
    requires
        time.consistent(),
        0 <= time.total() + d <= last_time(),
    ensures
        advanced(advanced(time, d, TimeWrapMode::Loop), -d, TimeWrapMode::Loop) == time,
{
    law_looping_advances_compose(time, d, -d);
    law_consistent_clock_is_fixed_point(time);
}

/// A scrub stays on the current calendar day, so moving the hour earlier
/// moves the absolute time back; under `Loop` the day counter follows the
/// new absolute time.
pub proof fn law_scrub_keeps_calendar_day(time: TimeOfDay, hour: int, wrap_mode: TimeWrapMode)
    ensures
        scrubbed(time, hour, wrap_mode).calendar_day == time.calendar_day,
        scrubbed(time, hour, wrap_mode).cycle_start == time.cycle_start,
        scrubbed(time, hour, wrap_mode).total() - time.total() == scrub_hour(hour, wrap_mode)
            - time.hour,
        wrap_mode == TimeWrapMode::Loop ==> scrubbed(time, hour, wrap_mode).elapsed_days
            == cycles_since(scrubbed(time, hour, wrap_mode).total(), time.cycle_start as int),
{
    let h = scrub_hour(hour, wrap_mode);
    let t = time.calendar_day * DAY_LENGTH_MILLIS + h;
    if wrap_mode == TimeWrapMode::Loop && t >= time.cycle_start {
        lemma_cycles_fit(t, time.cycle_start as int);
    }
}

/// Under `Clamp` the clock never counts days, stays on its calendar day,
/// keeps its start and never leaves `[0, 24h]`.
pub proof fn law_clamped_clock_stays_in_day(time: TimeOfDay, d: int)
    ensures
        advanced(time, d, TimeWrapMode::Clamp).elapsed_days == time.elapsed_days,
        advanced(time, d, TimeWrapMode::Clamp).calendar_day == time.calendar_day,
        advanced(time, d, TimeWrapMode::Clamp).cycle_start == time.cycle_start,
        advanced(time, d, TimeWrapMode::Clamp).hour <= DAY_LENGTH_MILLIS,
{
}

/// Wrapping an hour into the day is idempotent and whole days do not
/// change it.
pub proof fn law_normalize_hour_is_periodic(hour: int, days: int)
    ensures
        0 <= spec_normalize_hour(hour) < DAY_LENGTH_MILLIS,
        0 <= hour < 86_400_000 ==> spec_normalize_hour(hour) == hour,
        spec_normalize_hour(spec_normalize_hour(hour)) == spec_normalize_hour(hour),
        spec_normalize_hour(hour + days * DAY_LENGTH_MILLIS) == spec_normalize_hour(hour),
{
    let d = DAY_LENGTH_MILLIS as int;
    vstd::arithmetic::div_mod::lemma_mod_twice(hour, d);
    vstd::arithmetic::div_mod::lemma_mod_multiples_vanish(days, hour, d);
}

/// Clamping leaves an hour inside `[0, 24h]` as it is and takes any other
/// hour to the nearer end of the day.
pub proof fn law_clamp_hour_keeps_hours_in_day(hour: int)
    ensures
        0 <= hour <= 86_400_000 ==> spec_clamp_hour(hour) == hour,
        hour < 0 ==> spec_clamp_hour(hour) == 0,
        hour > 86_400_000 ==> spec_clamp_hour(hour) == 86_400_000,
{
}

/// A step records the clock it started from. A move by zero is idle and
/// leaves the clock where it was; any other move is reported with its mode
/// and its requested change and lands where moving the clock puts it.
pub proof fn law_step_reports_its_move(
    time: TimeOfDay,
    delta: i64,
    wrap_mode: TimeWrapMode,
    mode: TimeStepMode,
)
    ensures
        stepped(time, delta, wrap_mode, mode).previous == time,
        delta == 0 ==> stepped(time, delta, wrap_mode, mode).current == time
            && stepped(time, delta, wrap_mode, mode).mode == TimeStepMode::Idle
            && stepped(time, delta, wrap_mode, mode).delta_hours == 0,
        delta != 0 ==> stepped(time, delta, wrap_mode, mode).current == advanced(
            time,
            delta as int,
            wrap_mode,
        ) && stepped(time, delta, wrap_mode, mode).mode == mode && stepped(
            time,
            delta,
            wrap_mode,
            mode,
        ).delta_hours == delta,
{
}

/// A scrub request is reported as a scrub that lands on the requested hour
/// of the current calendar day, with the change of the hour as its delta;
/// an advance request moves the clock by the requested change and is
/// reported as a jump (idle when the change is zero).
pub proof fn law_requests_report_their_kind(
    time: TimeOfDay,
    request: TimeOverride,
    wrap_mode: TimeWrapMode,
)
    ensures
        override_step(time, request, wrap_mode).previous == time,
        request matches TimeOverride::Scrub { hour } ==> {
            &&& override_step(time, request, wrap_mode).mode == TimeStepMode::Scrub
            &&& override_step(time, request, wrap_mode).current.hour == scrub_hour(
                hour as int,
                wrap_mode,
            )
            &&& override_step(time, request, wrap_mode).current.calendar_day == time.calendar_day
            &&& override_step(time, request, wrap_mode).delta_hours == scrub_hour(
                hour as int,
                wrap_mode,
            ) - time.hour
        },
        request matches TimeOverride::AdvanceHours { hours } ==> {
            &&& hours != 0 ==> override_step(time, request, wrap_mode).mode
                == TimeStepMode::AdvanceJump
            &&& hours != 0 ==> override_step(time, request, wrap_mode).current == advanced(
                time,
                hours as int,
                wrap_mode,
            )
            &&& hours == 0 ==> override_step(time, request, wrap_mode).mode == TimeStepMode::Idle
        },
{
    match request {
        TimeOverride::Scrub { hour } => {
            let h = scrub_hour(hour as int, wrap_mode);
            law_normalize_hour_is_periodic(hour as int, 0);
            assert(0 <= h <= DAY_LENGTH_MILLIS);
        },
        TimeOverride::AdvanceHours { hours } => {},
    }
}

/// A frame held by a pause, an empty frame, a zero speed or an hour of no
/// real length is idle and keeps the carried remainder; any other frame
/// moves the clock by the frame's whole milliseconds and is reported as
/// continuous progression (idle when that is zero).
pub proof fn law_frames_move_by_their_whole_milliseconds(
    time: TimeOfDay,
    delta_micros: u32,
    micros_per_hour: u64,
    time_scale_ppm: i64,
    paused: bool,
    wrap_mode: TimeWrapMode,
    carry_nanos: u32,
)
    ensures
        ({
            let step = continuous_step(
                time,
                delta_micros,
                micros_per_hour,
                time_scale_ppm,
                paused,
                wrap_mode,
                carry_nanos,
            );
            let ms = continuous_delta(delta_micros, micros_per_hour, time_scale_ppm, carry_nanos);
            let held = paused || delta_micros == 0 || time_scale_ppm == 0 || micros_per_hour == 0;
            &&& step.previous == time
            &&& held ==> step == idle_step(time) && carry_after(
                delta_micros,
                micros_per_hour,
                time_scale_ppm,
                paused,
                carry_nanos,
            ) == carry_nanos
            &&& !held && ms != 0 ==> step.mode == TimeStepMode::Continuous && step.delta_hours == ms
                && step.current == advanced(time, ms, wrap_mode)
            &&& !held && ms == 0 ==> step == idle_step(time)
        }),
{
}

/// A frame's game time, in nanoseconds, is its real time scaled by the
/// speed and by the game hours per real hour, rounded toward zero: the
/// largest amount whose size times `micros_per_hour` does not exceed
/// `delta_micros * |time_scale_ppm| * 3_600_000`, with the sign of the
/// speed.
pub proof fn law_frame_time_is_scaled_real_time(
    delta_micros: u32,
    micros_per_hour: u64,
    time_scale_ppm: i64,
)
    requires
        micros_per_hour > 0,
    ensures
        ({
            let n = frame_nanos(delta_micros, micros_per_hour, time_scale_ppm);
            let size = if time_scale_ppm < 0 { -n } else { n };
            let scale = if time_scale_ppm < 0 { -time_scale_ppm } else { time_scale_ppm as int };
            &&& 0 <= size
            &&& size * micros_per_hour <= delta_micros * scale * 3_600_000
            &&& delta_micros * scale * 3_600_000 < (size + 1) * micros_per_hour
        }),
{
    let scale: int = if time_scale_ppm < 0 { -time_scale_ppm } else { time_scale_ppm as int };
    let x: int = delta_micros * scale * 3_600_000;
    let m: int = micros_per_hour as int;
    let q = x / m;
    assert(0 <= x) by (nonlinear_arith)
        requires
            0 <= delta_micros,
            0 <= scale,
            x == delta_micros * scale * 3_600_000,
    ;
    vstd::arithmetic::div_mod::lemma_fundamental_div_mod(x, m);
    vstd::arithmetic::div_mod::lemma_div_pos_is_pos(x, m);
    assert(q * m <= x < (q + 1) * m) by (nonlinear_arith)
        requires
            x == m * q + x % m,
            0 <= x % m < m,
    ;
}

/// Continuous progression loses no game time to rounding: the whole
/// milliseconds moved this frame plus the remainder carried on equal the
/// frame's game time plus the remainder carried in (unless the move
/// saturated), and the remainder stays below one millisecond.
pub proof fn law_continuous_frames_lose_no_time(
    delta_micros: u32,
    micros_per_hour: u64,
    time_scale_ppm: i64,
    carry_nanos: u32,
)
    requires
        carried_fits(delta_micros, micros_per_hour, time_scale_ppm, carry_nanos),
    ensures
        continuous_delta(delta_micros, micros_per_hour, time_scale_ppm, carry_nanos) * 1_000_000
            + continuous_carry(delta_micros, micros_per_hour, time_scale_ppm, carry_nanos)
            == frame_nanos(delta_micros, micros_per_hour, time_scale_ppm) + carry_nanos,
        0 <= continuous_carry(delta_micros, micros_per_hour, time_scale_ppm, carry_nanos)
            < 1_000_000,
{
    let n = carried_nanos(delta_micros, micros_per_hour, time_scale_ppm, carry_nanos);
    vstd::arithmetic::div_mod::lemma_fundamental_div_mod(n, 1_000_000);
}

} // verus!
