//! The decisions of the runtime: when the clock moves, which phase
//! messages are announced, what the diagnostics record, and which markers
//! and lights the host must insert, remove or spawn.
//!
//! Each function takes the runtime state and the event of one frame and
//! returns (or writes) the next state and the action for the host.
use vstd::prelude::*;

use crate::components::TimeReactive;
use crate::phase::{DayPhase, DayPhaseBoundaries};
use crate::time::{
    advance_continuous, apply_time_override, carry_after, continuous_step, idle_step, override_step,
    scrub_hour, spec_normalize_hour, TimeOfDay, TimeOverride, TimeStep, TimeStepMode,
    TimeWrapMode,
};

verus! {

/// How many of the most recent phase changes the diagnostics keep.
pub const PHASE_HISTORY_LIMIT: usize = 16;

/// The runtime's own state between frames.
#[derive(Clone, Copy, Debug)]
pub struct DayNightRuntimeState {
    pub active: bool,
    pub initialized: bool,
    pub lighting_initialized: bool,
    pub last_step: Option<TimeStep>,
    pub last_announced_step: Option<(i64, i64, TimeStepMode)>,
    /// Game time, in nanoseconds, not yet applied to the millisecond clock.
    pub clock_carry_nanos: u32,
}

impl Default for DayNightRuntimeState {
    /// Inactive, not initialized, with no step seen.
    fn default() -> (r: Self)
        ensures
            !r.active,
            !r.initialized,
            !r.lighting_initialized,
            r.last_step is None,
            r.last_announced_step is None,
            r.clock_carry_nanos == 0,
    {
        DayNightRuntimeState {
            active: false,
            initialized: false,
            lighting_initialized: false,
            last_step: None,
            last_announced_step: None,
            clock_carry_nanos: 0,
        }
    }
}

/// What the runtime publishes about the clock, the phases it announced and
/// the writes it made.
#[derive(Clone, Debug)]
pub struct DayNightDiagnostics {
    pub current_time: u32,
    pub elapsed_days: u32,
    pub current_phase: DayPhase,
    pub last_step_mode: TimeStepMode,
    pub last_phase_change: Option<DayPhase>,
    pub phase_message_count: u64,
    pub phase_history: Vec<DayPhase>,
    pub sun_writes: u64,
    pub moon_writes: u64,
    pub ambient_writes: u64,
    pub fog_writes: u64,
    pub exposure_writes: u64,
    pub environment_map_writes: u64,
}

/// The history after recording `added` one by one: each new phase is
/// appended and, when the history then holds more than the limit, its
/// oldest entry is dropped.
pub open spec fn capped_history(history: Seq<DayPhase>, added: Seq<DayPhase>) -> Seq<DayPhase>
    decreases added.len(),
{
    if added.len() == 0 {
        history
    } else {
        let h = capped_history(history, added.drop_last()).push(added.last());
        if h.len() > PHASE_HISTORY_LIMIT {
            h.drop_first()
        } else {
            h
        }
    }
}

/// The identity of a step for announcements: absolute times before and
/// after, and what caused it.
pub open spec fn step_key(step: TimeStep) -> (i64, i64, TimeStepMode) {
    (step.previous.total() as i64, step.current.total() as i64, step.mode)
}

/// `a + b`, saturating at the maximum of `u64`.
pub open spec fn saturating_sum(a: int, b: int) -> int {
    if a + b > u64::MAX {
        u64::MAX as int
    } else {
        a + b
    }
}

/// What the host must do with the `TimeActive` marker of an entity.
#[derive(Clone, Copy, Debug, PartialEq, Eq, Structural)]
pub enum TimeActiveChange {
    Insert,
    Remove,
    Keep,
}

/// Whether the marker is present after applying `change` to an entity on
/// which its presence was `present`.
pub open spec fn marker_after(present: bool, change: TimeActiveChange) -> bool {
    match change {
        TimeActiveChange::Insert => true,
        TimeActiveChange::Remove => false,
        TimeActiveChange::Keep => present,
    }
}

/// The change that brings a marker whose presence is `present` to
/// `should_be_active`.
pub open spec fn time_active_change(should_be_active: bool, present: bool) -> TimeActiveChange {
    if should_be_active && !present {
        TimeActiveChange::Insert
    } else if !should_be_active && present {
        TimeActiveChange::Remove
    } else {
        TimeActiveChange::Keep
    }
}

/// Which managed lights the host must spawn.
#[derive(Clone, Copy, Debug, PartialEq, Eq, Structural)]
pub struct ManagedLightSpawns {
    pub spawn_sun: bool,
    pub spawn_moon: bool,
}

/// Whether the runtime drives the clock and the lights this frame.
pub fn runtime_is_active(runtime: &DayNightRuntimeState) -> (r: bool)
    ensures
        r == runtime.active,
{
    runtime.active
}

/// The clock at start-up: `initial_time` wrapped or clamped into the day,
/// with no completed days, counting its days from that hour (wrapped into
/// the day).
pub fn initial_time_from_config(initial_time: i64, wrap_mode: TimeWrapMode) -> (r: TimeOfDay)
    ensures
        r.hour == scrub_hour(initial_time as int, wrap_mode),
        r.elapsed_days == 0,
        r.calendar_day == 0,
        r.cycle_start == spec_normalize_hour(r.hour as int),
{
    let hour = match wrap_mode {
        TimeWrapMode::Loop => crate::time::normalize_hour(initial_time),
        TimeWrapMode::Clamp => crate::time::clamp_hour(initial_time),
    };
    TimeOfDay {
        hour,
        elapsed_days: 0,
        calendar_day: 0,
        cycle_start: crate::time::normalize_hour(hour as i64),
    }
}

/// Turns the runtime on. The clock is set from `initial_time` the first
/// time only; the last step becomes an idle step at the current clock, so
/// nothing is announced for the activation itself. Returns the phase in
/// effect at the current clock.
pub fn activate_runtime(
    runtime: &mut DayNightRuntimeState,
    time_of_day: &mut TimeOfDay,
    initial_time: i64,
    wrap_mode: TimeWrapMode,
    boundaries: &DayPhaseBoundaries,
) -> (phase: DayPhase)
    ensures
        final(runtime).active,
        final(runtime).initialized,
        final(runtime).lighting_initialized,
        final(runtime).last_announced_step is None,
        final(runtime).last_step == Some(idle_step(*final(time_of_day))),
        old(runtime).initialized ==> *final(time_of_day) == *old(time_of_day),
        !old(runtime).initialized ==> *final(time_of_day) == (TimeOfDay {
            hour: scrub_hour(initial_time as int, wrap_mode) as u32,
            elapsed_days: 0,
            calendar_day: 0,
            cycle_start: spec_normalize_hour(scrub_hour(initial_time as int, wrap_mode)) as u32,
        }),
        final(runtime).clock_carry_nanos == old(runtime).clock_carry_nanos,
        phase == boundaries.phase_at_hour(spec_normalize_hour(final(time_of_day).hour as int)),
{
    runtime.active = true;
    runtime.last_announced_step = None;
    if !runtime.initialized {
        *time_of_day = initial_time_from_config(initial_time, wrap_mode);
        runtime.initialized = true;
    }
    let phase = boundaries.phase_at(time_of_day.cyclic_hour() as i64);
    runtime.last_step = Some(TimeStep::idle(*time_of_day));
    runtime.lighting_initialized = true;
    phase
}

/// Turns the runtime off and forgets the last announced step.
pub fn deactivate_runtime(runtime: &mut DayNightRuntimeState)
    ensures
        !final(runtime).active,
        final(runtime).last_announced_step is None,
        final(runtime).initialized == old(runtime).initialized,
        final(runtime).lighting_initialized == old(runtime).lighting_initialized,
        final(runtime).last_step == old(runtime).last_step,
        final(runtime).clock_carry_nanos == old(runtime).clock_carry_nanos,
{
    runtime.active = false;
    runtime.last_announced_step = None;
}

/// Moves the clock for one frame. A pending request is consumed and
/// applied; otherwise the clock progresses continuously, carrying the
/// sub-millisecond remainder in the runtime. The clock takes the step's
/// reading unless the step is idle, and the step is remembered.
pub fn advance_time(
    runtime: &mut DayNightRuntimeState,
    time_of_day: &mut TimeOfDay,
    pending_override: &mut Option<TimeOverride>,
    delta_micros: u32,
    micros_per_hour: u64,
    time_scale_ppm: i64,
    paused: bool,
    wrap_mode: TimeWrapMode,
)
    ensures
        ({
            let step = match *old(pending_override) {
                Some(request) => override_step(*old(time_of_day), request, wrap_mode),
                None => continuous_step(
                    *old(time_of_day),
                    delta_micros,
                    micros_per_hour,
                    time_scale_ppm,
                    paused,
                    wrap_mode,
                    old(runtime).clock_carry_nanos,
                ),
            };
            &&& final(runtime).last_step == Some(step)
            &&& step.mode != TimeStepMode::Idle ==> *final(time_of_day) == step.current
            &&& step.mode == TimeStepMode::Idle ==> *final(time_of_day) == *old(time_of_day)
        }),
        final(runtime).clock_carry_nanos == match *old(pending_override) {
            Some(_) => old(runtime).clock_carry_nanos,
            None => carry_after(
                delta_micros,
                micros_per_hour,
                time_scale_ppm,
                paused,
                old(runtime).clock_carry_nanos,
            ),
        },
        *final(pending_override) == None::<TimeOverride>,
        final(runtime).active == old(runtime).active,
        final(runtime).initialized == old(runtime).initialized,
        final(runtime).lighting_initialized == old(runtime).lighting_initialized,
        final(runtime).last_announced_step == old(runtime).last_announced_step,
{
    let step = match pending_override.take() {
        Some(request) => apply_time_override(*time_of_day, request, wrap_mode),
        None => advance_continuous(
            *time_of_day,
            delta_micros,
            micros_per_hour,
            time_scale_ppm,
            paused,
            wrap_mode,
            &mut runtime.clock_carry_nanos,
        ),
    };
    if step.mode != TimeStepMode::Idle {
        *time_of_day = step.current;
    }
    runtime.last_step = Some(step);
}

fn same_key(a: (i64, i64, TimeStepMode), b: (i64, i64, TimeStepMode)) -> (r: bool)
    ensures
        r == (a == b),
{
    a.0 == b.0 && a.1 == b.1 && a.2 == b.2
}

/// Records one phase change in the diagnostics.
fn record_phase_change(diagnostics: &mut DayNightDiagnostics, phase: DayPhase)
    ensures
        final(diagnostics).phase_history@ == capped_history(
            old(diagnostics).phase_history@,
            seq![phase],
        ),
        final(diagnostics).phase_message_count == saturating_sum(
            old(diagnostics).phase_message_count as int,
            1,
        ),
        final(diagnostics).last_phase_change == Some(phase),
        final(diagnostics).current_time == old(diagnostics).current_time,
        final(diagnostics).elapsed_days == old(diagnostics).elapsed_days,
        final(diagnostics).current_phase == old(diagnostics).current_phase,
        final(diagnostics).last_step_mode == old(diagnostics).last_step_mode,
        final(diagnostics).sun_writes == old(diagnostics).sun_writes,
        final(diagnostics).moon_writes == old(diagnostics).moon_writes,
        final(diagnostics).ambient_writes == old(diagnostics).ambient_writes,
        final(diagnostics).fog_writes == old(diagnostics).fog_writes,
        final(diagnostics).exposure_writes == old(diagnostics).exposure_writes,
        final(diagnostics).environment_map_writes == old(diagnostics).environment_map_writes,
{
    proof {
        let added = seq![phase];
        assert(added.drop_last() =~= Seq::<DayPhase>::empty());
        assert(added.last() == phase);
    }
    diagnostics.last_phase_change = Some(phase);
    diagnostics.phase_message_count = diagnostics.phase_message_count.saturating_add(1);
    diagnostics.phase_history.push(phase);
    let ghost pushed = diagnostics.phase_history@;
    proof {
        assert(capped_history(old(diagnostics).phase_history@, Seq::<DayPhase>::empty())
            == old(diagnostics).phase_history@);
        assert(pushed == old(diagnostics).phase_history@.push(phase));
    }
    if diagnostics.phase_history.len() > PHASE_HISTORY_LIMIT {
        diagnostics.phase_history.remove(0);
        proof {
            assert(diagnostics.phase_history@ =~= pushed.drop_first());
        }
    }
}

/// Recording one more phase extends the recorded sequence by that phase.
proof fn lemma_capped_history_push(history: Seq<DayPhase>, added: Seq<DayPhase>, phase: DayPhase)
    ensures
        capped_history(capped_history(history, added), seq![phase]) == capped_history(
            history,
            added.push(phase),
        ),
{
    let one = seq![phase];
    let x = capped_history(history, added);
    assert(one.drop_last() =~= Seq::<DayPhase>::empty());
    assert(capped_history(x, one.drop_last()) == x);
    assert(one.last() == phase);
    assert(added.push(phase).drop_last() =~= added);
    assert(added.push(phase).last() == phase);
}

/// The diagnostics after recording the phases `added` in order.
pub open spec fn recorded(
    old_diagnostics: DayNightDiagnostics,
    new_diagnostics: DayNightDiagnostics,
    added: Seq<DayPhase>,
) -> bool {
    &&& new_diagnostics.phase_history@ == capped_history(old_diagnostics.phase_history@, added)
    &&& new_diagnostics.phase_message_count == saturating_sum(
        old_diagnostics.phase_message_count as int,
        added.len() as int,
    )
    &&& new_diagnostics.last_phase_change == if added.len() > 0 {
        Some(added.last())
    } else {
        old_diagnostics.last_phase_change
    }
    &&& new_diagnostics.current_time == old_diagnostics.current_time
    &&& new_diagnostics.elapsed_days == old_diagnostics.elapsed_days
    &&& new_diagnostics.current_phase == old_diagnostics.current_phase
    &&& new_diagnostics.sun_writes == old_diagnostics.sun_writes
    &&& new_diagnostics.moon_writes == old_diagnostics.moon_writes
    &&& new_diagnostics.ambient_writes == old_diagnostics.ambient_writes
    &&& new_diagnostics.fog_writes == old_diagnostics.fog_writes
    &&& new_diagnostics.exposure_writes == old_diagnostics.exposure_writes
    &&& new_diagnostics.environment_map_writes == old_diagnostics.environment_map_writes
}

/// Whether the runtime's last step has yet to be announced: it exists, is
/// not idle, and is not the step announced last.
pub open spec fn announcement_pending(runtime: DayNightRuntimeState) -> bool {
    match runtime.last_step {
        Some(step) => step.mode != TimeStepMode::Idle && runtime.last_announced_step != Some(
            step_key(step),
        ),
        None => false,
    }
}

/// The phases announced for the runtime's last step: those that begin
/// between its absolute times when it is pending, none otherwise.
pub open spec fn announcement(runtime: DayNightRuntimeState, boundaries: DayPhaseBoundaries) -> Seq<
    DayPhase,
> {
    match runtime.last_step {
        Some(step) => if announcement_pending(runtime) {
            boundaries.starts_between(step.previous.total(), step.current.total())
        } else {
            Seq::empty()
        },
        None => Seq::empty(),
    }
}

/// The runtime state after detection: a pending step becomes the step
/// announced last.
pub open spec fn after_detection(runtime: DayNightRuntimeState) -> DayNightRuntimeState {
    match runtime.last_step {
        Some(step) => if announcement_pending(runtime) {
            DayNightRuntimeState { last_announced_step: Some(step_key(step)), ..runtime }
        } else {
            runtime
        },
        None => runtime,
    }
}

/// Decides which phase messages the last clock step announces.
///
/// Without a last step nothing happens. Otherwise the diagnostics take the
/// step's mode; an idle step, or a step already announced, announces
/// nothing. Any other step is remembered as announced and announces the
/// phases that begin between its absolute times, each recorded in the
/// diagnostics. The returned phases are the messages to send, in order.
pub fn detect_phase_transitions(
    runtime: &mut DayNightRuntimeState,
    diagnostics: &mut DayNightDiagnostics,
    boundaries: &DayPhaseBoundaries,
) -> (announced: Vec<DayPhase>)
    ensures
        announced@ == announcement(*old(runtime), *boundaries),
        *final(runtime) == after_detection(*old(runtime)),
        match old(runtime).last_step {
            None => *final(diagnostics) == *old(diagnostics),
            Some(step) => {
                &&& final(diagnostics).last_step_mode == step.mode
                &&& recorded(*old(diagnostics), *final(diagnostics), announced@)
                &&& final(diagnostics).phase_history@ == capped_history(
                    old(diagnostics).phase_history@,
                    announced@,
                )
                &&& final(diagnostics).phase_message_count == saturating_sum(
                    old(diagnostics).phase_message_count as int,
                    announced@.len() as int,
                )
                &&& announced@.len() > 0 ==> final(diagnostics).last_phase_change == Some(
                    announced@.last(),
                )
            },
        },
        match old(runtime).last_step {
            None => announced@.len() == 0,
            Some(step) => {
                let key = (step.previous.total() as i64, step.current.total() as i64, step.mode);
                &&& step.mode == TimeStepMode::Idle ==> announced@.len() == 0
                &&& old(runtime).last_announced_step == Some(key) ==> announced@.len() == 0
                &&& step.mode != TimeStepMode::Idle && old(runtime).last_announced_step != Some(key)
                    ==> announced@ == boundaries.starts_between(
                    step.previous.total(),
                    step.current.total(),
                ) && final(runtime).last_announced_step == Some(key)
            },
        },
{
    let step = match runtime.last_step {
        Some(step) => step,
        None => {
            return Vec::new();
        },
    };
    diagnostics.last_step_mode = step.mode;
    let ghost start = *diagnostics;
    proof {
        assert(capped_history(start.phase_history@, Seq::<DayPhase>::empty()) == start.phase_history@);
    }
    if step.mode == TimeStepMode::Idle {
        return Vec::new();
    }
    let current_step = (step.previous_absolute_hours(), step.current_absolute_hours(), step.mode);
    match runtime.last_announced_step {
        Some(announced_step) => {
            if same_key(announced_step, current_step) {
                return Vec::new();
            }
        },
        None => {},
    }
    runtime.last_announced_step = Some(current_step);
    let phases = boundaries.phases_started_between(
        step.previous_absolute_hours(),
        step.current_absolute_hours(),
    );
    let mut i: usize = 0;
    while i < phases.len()
        invariant
            0 <= i <= phases@.len(),
            recorded(start, *diagnostics, phases@.take(i as int)),
            diagnostics.last_step_mode == step.mode,
        decreases phases@.len() - i,
    {
        let phase = phases[i];
        let ghost before = *diagnostics;
        record_phase_change(diagnostics, phase);
        proof {
            lemma_capped_history_push(start.phase_history@, phases@.take(i as int), phase);
            assert(phases@.take(i as int).push(phase) =~= phases@.take(i + 1));
        }
        i = i + 1;
    }
    proof {
        assert(phases@.take(phases@.len() as int) =~= phases@);
    }
    phases
}

/// Decides what happens to the `TimeActive` marker of an entity: inserted
/// when its window has become active, removed when it has become inactive,
/// kept otherwise.
pub fn update_time_reactive(
    reactive: &TimeReactive,
    time_of_day: TimeOfDay,
    currently_active: bool,
) -> (change: TimeActiveChange)
    ensures
        change == time_active_change(
            reactive.active_at(spec_normalize_hour(time_of_day.hour as int)),
            currently_active,
        ),
{
    let should_be_active = reactive.is_active_at(time_of_day.cyclic_hour() as i64);
    if should_be_active && !currently_active {
        TimeActiveChange::Insert
    } else if !should_be_active && currently_active {
        TimeActiveChange::Remove
    } else {
        TimeActiveChange::Keep
    }
}

/// Decides which managed lights to spawn: a sun when none exists and a
/// moon when none exists, and neither when auto-spawning is off.
pub fn ensure_managed_lights(auto_spawn: bool, sun_exists: bool, moon_exists: bool) -> (r:
    ManagedLightSpawns)
    ensures
        r.spawn_sun == (auto_spawn && !sun_exists),
        r.spawn_moon == (auto_spawn && !moon_exists),
{
    if !auto_spawn {
        return ManagedLightSpawns { spawn_sun: false, spawn_moon: false };
    }
    ManagedLightSpawns { spawn_sun: !sun_exists, spawn_moon: !moon_exists }
}

/// Copies the clock, the phase in effect and the last step's mode (idle
/// when there is none) into the diagnostics.
pub fn publish_diagnostics(
    diagnostics: &mut DayNightDiagnostics,
    time_of_day: TimeOfDay,
    current_phase: DayPhase,
    runtime: &DayNightRuntimeState,
)
    ensures
        final(diagnostics).current_time == time_of_day.hour,
        final(diagnostics).elapsed_days == time_of_day.elapsed_days,
        final(diagnostics).current_phase == current_phase,
        final(diagnostics).last_step_mode == match runtime.last_step {
            Some(step) => step.mode,
            None => TimeStepMode::Idle,
        },
        final(diagnostics).last_phase_change == old(diagnostics).last_phase_change,
        final(diagnostics).phase_message_count == old(diagnostics).phase_message_count,
        final(diagnostics).phase_history@ == old(diagnostics).phase_history@,
        final(diagnostics).sun_writes == old(diagnostics).sun_writes,
        final(diagnostics).moon_writes == old(diagnostics).moon_writes,
        final(diagnostics).ambient_writes == old(diagnostics).ambient_writes,
        final(diagnostics).fog_writes == old(diagnostics).fog_writes,
        final(diagnostics).exposure_writes == old(diagnostics).exposure_writes,
        final(diagnostics).environment_map_writes == old(diagnostics).environment_map_writes,
{
    diagnostics.current_time = time_of_day.hour;
    diagnostics.elapsed_days = time_of_day.elapsed_days;
    diagnostics.current_phase = current_phase;
    diagnostics.last_step_mode = match runtime.last_step {
        Some(step) => step.mode,
        None => TimeStepMode::Idle,
    };
}

/// A step is announced at most once: after detection nothing of it is
/// pending any more.
pub proof fn law_step_announced_at_most_once(
    runtime: DayNightRuntimeState,
    boundaries: DayPhaseBoundaries,
)
    ensures
        !announcement_pending(after_detection(runtime)),
        announcement(after_detection(runtime), boundaries).len() == 0,
{
}

/// A step is told apart from the one announced before it by its absolute
/// times and its mode: when a step has been announced and the next
/// non-idle step differs from it in its absolute time before, its absolute
/// time after or its mode, the next step announces every phase that begins
/// between its own absolute times; when it agrees in all three, it
/// announces nothing.
pub proof fn law_next_distinct_step_is_announced(
    runtime: DayNightRuntimeState,
    first: TimeStep,
    second: TimeStep,
    boundaries: DayPhaseBoundaries,
)
    requires
        runtime.last_step == Some(first),
        first.mode != TimeStepMode::Idle,
        runtime.last_announced_step != Some(
            (first.previous.total() as i64, first.current.total() as i64, first.mode),
        ),
        second.mode != TimeStepMode::Idle,
    ensures
        ({
            let next = DayNightRuntimeState {
                last_step: Some(second),
                ..after_detection(runtime)
            };
            &&& (first.previous.total() != second.previous.total() || first.current.total()
                != second.current.total() || first.mode != second.mode) ==> announcement(
                next,
                boundaries,
            ) == boundaries.starts_between(second.previous.total(), second.current.total())
            &&& (first.previous.total() == second.previous.total() && first.current.total()
                == second.current.total() && first.mode == second.mode) ==> announcement(
                next,
                boundaries,
            ).len() == 0
        }),
{
    lemma_total_fits(first.previous);
    lemma_total_fits(first.current);
    lemma_total_fits(second.previous);
    lemma_total_fits(second.current);
}

/// The absolute time of any clock fits an `i64`.
proof fn lemma_total_fits(time: TimeOfDay)
    ensures
        0 <= time.total() <= i64::MAX,
{
    assert(time.calendar_day * 86_400_000 <= 4_294_967_295 * 86_400_000);
}

/// After activation the last step is idle, so activation itself announces
/// nothing.
pub proof fn law_activation_announces_nothing(
    runtime: DayNightRuntimeState,
    time: TimeOfDay,
    boundaries: DayPhaseBoundaries,
)
    requires
        runtime.last_step == Some(idle_step(time)),
    ensures
        announcement(runtime, boundaries).len() == 0,
{
}

/// Applying the decided change leaves the marker present exactly when the
/// window is active, and a marker already in that state is left alone.
pub proof fn law_marker_follows_window(should_be_active: bool, present: bool)
    ensures
        marker_after(present, time_active_change(should_be_active, present)) == should_be_active,
        present == should_be_active ==> time_active_change(should_be_active, present)
            == TimeActiveChange::Keep,
        time_active_change(should_be_active, present) == TimeActiveChange::Insert <==> (
        should_be_active && !present),
        time_active_change(should_be_active, present) == TimeActiveChange::Remove <==> (
        !should_be_active && present),
{
}

/// Adding to a counter never wraps around: the sum is exact while it fits
/// a `u64` and stops at the largest `u64` otherwise.
pub proof fn law_counters_saturate(a: int, b: int)
    ensures
        a + b <= 18_446_744_073_709_551_615 ==> saturating_sum(a, b) == a + b,
        a + b > 18_446_744_073_709_551_615 ==> saturating_sum(a, b) == 18_446_744_073_709_551_615,
{
}

/// Starting from at most the limit, the history holds the latest entries of
/// the old history followed by the recorded phases, at most the limit of
/// them.
pub proof fn law_history_keeps_latest_entries(history: Seq<DayPhase>, added: Seq<DayPhase>)
    requires
        history.len() <= PHASE_HISTORY_LIMIT,
    ensures
        ({
            let all = history + added;
            let keep_from = if all.len() > PHASE_HISTORY_LIMIT {
                all.len() - PHASE_HISTORY_LIMIT
            } else {
                0
            };
            capped_history(history, added) == all.subrange(keep_from, all.len() as int)
        }),
    decreases added.len(),
{
    let all = history + added;
    if added.len() == 0 {
        assert(all =~= history);
        assert(all.subrange(0, all.len() as int) =~= all);
    } else {
        let front = added.drop_last();
        law_history_keeps_latest_entries(history, front);
        let prev_all = history + front;
        let prev_from = if prev_all.len() > PHASE_HISTORY_LIMIT {
            prev_all.len() - PHASE_HISTORY_LIMIT
        } else {
            0
        };
        let keep_from = if all.len() > PHASE_HISTORY_LIMIT {
            all.len() - PHASE_HISTORY_LIMIT
        } else {
            0
        };
        assert(all =~= prev_all.push(added.last()));
        let h = capped_history(history, front).push(added.last());
        assert(h =~= all.subrange(prev_from, all.len() as int));
        if h.len() > PHASE_HISTORY_LIMIT {
            assert(h.drop_first() =~= all.subrange(keep_from, all.len() as int));
        } else {
            assert(prev_from == keep_from);
        }
    }
}

} // verus!
