use saddle_world_day_night::{
    advance_by_hours, advance_continuous, apply_time_override, clamp_hour, normalize_hour,
    TimeOfDay, TimeOverride, TimeStep, TimeStepMode, TimeWrapMode, DAY_LENGTH_MILLIS,
    MILLIS_PER_HOUR,
};

/// Milliseconds of simulated time in `hours` hours.
fn h(hours: f64) -> i64 {
    (hours * MILLIS_PER_HOUR as f64).round() as i64
}

#[test]
fn hours_wrap_and_clamp_into_the_day() {
    assert_eq!(normalize_hour(h(-1.0)) as i64, h(23.0));
    assert_eq!(normalize_hour(h(24.0)), 0);
    assert_eq!(normalize_hour(h(49.5)) as i64, h(1.5));
    assert_eq!(normalize_hour(i64::MIN) as i64, i64::MIN.rem_euclid(DAY_LENGTH_MILLIS));
    assert_eq!(clamp_hour(-5), 0);
    assert_eq!(clamp_hour(h(25.0)) as i64, h(24.0));
    assert_eq!(clamp_hour(h(13.25)) as i64, h(13.25));
}

#[test]
fn clock_constructors_clamp_and_keep_days() {
    let t = TimeOfDay::new(h(30.0));
    assert_eq!(t.hour as i64, h(24.0));
    assert_eq!(t.elapsed_days, 0);
    let mut u = TimeOfDay::with_days(h(-2.0), 4);
    assert_eq!(u.hour, 0);
    assert_eq!(u.elapsed_days, 4);
    u.set_hour(h(7.5));
    assert_eq!(u.hour as i64, h(7.5));
    assert_eq!(u.elapsed_days, 4);
    assert_eq!(u.total_hours(), 4 * DAY_LENGTH_MILLIS + h(7.5));
    assert_eq!(TimeOfDay::new(h(24.0)).cyclic_hour(), 0);
    let noon = TimeOfDay::default();
    assert_eq!(noon.hour as i64, h(12.0));
    assert_eq!(noon.elapsed_days, 0);
}

#[test]
fn continuous_delta_scales_and_carries_the_remainder() {
    let time = TimeOfDay::with_days(h(12.0), 0);
    let mut carry = 0;
    // A 16 ms frame at 120 s per hour is 480 ms of clock time.
    let step = advance_continuous(time, 16_000, 120_000_000, 1_000_000, false, TimeWrapMode::Loop, &mut carry);
    assert_eq!(step.delta_hours, 480);
    assert_eq!(step.current.hour as i64, h(12.0) + 480);
    assert_eq!(carry, 0);
    // Half speed, backwards.
    let back = advance_continuous(time, 16_000, 120_000_000, -500_000, false, TimeWrapMode::Loop, &mut carry);
    assert_eq!(back.delta_hours, -240);
    assert_eq!(back.current.hour as i64, h(12.0) - 240);
    assert_eq!(carry, 0);
    // Real time: a 60 fps frame is 16.666... ms of clock time; the fraction is carried.
    let mut clock = time;
    let mut carry = 0;
    for _ in 0..60 {
        clock = advance_continuous(clock, 16_667, 3_600_000_000, 1_000_000, false, TimeWrapMode::Loop, &mut carry).current;
    }
    assert_eq!(clock.hour as i64 * 1_000_000 + carry as i64, h(12.0) * 1_000_000 + 60 * 16_667_000);
    // A very slow clock still advances through the carry.
    let mut slow = time;
    let mut carry = 0;
    let first = advance_continuous(slow, 16_000, 120_000_000, 1, false, TimeWrapMode::Loop, &mut carry);
    assert_eq!(first, TimeStep::idle(time));
    assert_eq!(carry, 480);
    for _ in 0..2_083 {
        slow = advance_continuous(slow, 16_000, 120_000_000, 1, false, TimeWrapMode::Loop, &mut carry).current;
    }
    assert_eq!(slow.hour as i64, h(12.0) + 1);
    // Saturates instead of overflowing.
    let mut carry = 0;
    let huge = advance_continuous(time, u32::MAX, 1, i64::MAX, false, TimeWrapMode::Clamp, &mut carry);
    assert_eq!(huge.delta_hours, i64::MAX);
    assert_eq!(huge.current.hour as i64, DAY_LENGTH_MILLIS);
    assert_eq!(carry, 0);
    let huge_back = advance_continuous(time, u32::MAX, 1, i64::MIN, false, TimeWrapMode::Clamp, &mut carry);
    assert_eq!(huge_back.delta_hours, i64::MIN);
    assert_eq!(huge_back.current.hour, 0);
}

#[test]
fn held_clock_is_idle() {
    let time = TimeOfDay::with_days(h(3.0), 1);
    let idle = TimeStep::idle(time);
    let mut carry = 123;
    assert_eq!(advance_continuous(time, 0, 60_000_000, 1_000_000, false, TimeWrapMode::Loop, &mut carry), idle);
    assert_eq!(advance_continuous(time, 16_000, 60_000_000, 0, false, TimeWrapMode::Loop, &mut carry), idle);
    assert_eq!(advance_continuous(time, 16_000, 0, 1_000_000, false, TimeWrapMode::Loop, &mut carry), idle);
    assert_eq!(advance_continuous(time, 16_000, 60_000_000, 1_000_000, true, TimeWrapMode::Loop, &mut carry), idle);
    assert_eq!(carry, 123);
    assert_eq!(advance_by_hours(time, 0, TimeWrapMode::Loop, TimeStepMode::AdvanceJump), idle);
    assert_eq!(idle.mode, TimeStepMode::Idle);
    assert_eq!(idle.delta_hours, 0);
}

#[test]
fn looping_clock_counts_days_and_floors_at_zero() {
    let time = TimeOfDay::with_days(h(1.0), 0);
    let back = advance_by_hours(time, -h(5.0), TimeWrapMode::Loop, TimeStepMode::AdvanceJump);
    assert_eq!(back.current, TimeOfDay { hour: 0, elapsed_days: 0, calendar_day: 0, cycle_start: 0 });
    assert_eq!(back.delta_hours, -h(5.0));
    let far = advance_by_hours(time, 3 * DAY_LENGTH_MILLIS + h(2.0), TimeWrapMode::Loop, TimeStepMode::Continuous);
    assert_eq!(far.current, TimeOfDay { hour: h(3.0) as u32, elapsed_days: 3, calendar_day: 3, cycle_start: 0 });
    assert_eq!(far.current_absolute_hours() - far.previous_absolute_hours(), 3 * DAY_LENGTH_MILLIS + h(2.0));
    // The day counter saturates and the clock then reads midnight.
    let last = TimeOfDay::with_days(h(23.0), u32::MAX);
    let past = advance_by_hours(last, h(2.0), TimeWrapMode::Loop, TimeStepMode::Continuous);
    assert_eq!(past.current, TimeOfDay { hour: 0, elapsed_days: u32::MAX, calendar_day: u32::MAX, cycle_start: 0 });
}

#[test]
fn looping_moves_compose_and_undo() {
    let time = TimeOfDay::with_days(h(20.0), 2);
    for (a, b) in [(h(5.0), h(30.0)), (h(-10.0), h(3.0)), (h(50.0), -h(49.0))] {
        let first = advance_by_hours(time, a, TimeWrapMode::Loop, TimeStepMode::AdvanceJump);
        let second = advance_by_hours(first.current, b, TimeWrapMode::Loop, TimeStepMode::AdvanceJump);
        let once = advance_by_hours(time, a + b, TimeWrapMode::Loop, TimeStepMode::AdvanceJump);
        assert_eq!(second.current, once.current);
        let undone = advance_by_hours(first.current, -a, TimeWrapMode::Loop, TimeStepMode::AdvanceJump);
        assert_eq!(undone.current, time);
    }
}

#[test]
fn clamped_clock_keeps_days() {
    let time = TimeOfDay::with_days(h(2.0), 9);
    let back = advance_by_hours(time, -h(5.0), TimeWrapMode::Clamp, TimeStepMode::AdvanceJump);
    assert_eq!(back.current, TimeOfDay { hour: 0, elapsed_days: 9, calendar_day: 9, cycle_start: 0 });
    let fwd = advance_by_hours(time, h(30.0), TimeWrapMode::Clamp, TimeStepMode::AdvanceJump);
    assert_eq!(fwd.current, TimeOfDay { hour: DAY_LENGTH_MILLIS as u32, elapsed_days: 9, calendar_day: 9, cycle_start: 0 });
    assert_eq!(fwd.mode, TimeStepMode::AdvanceJump);
    assert_eq!(fwd.previous, time);
}

#[test]
fn scrubs_wrap_or_clamp_and_report_the_change() {
    let time = TimeOfDay::with_days(h(10.0), 3);
    let wrapped = apply_time_override(time, TimeOverride::Scrub { hour: h(30.0) }, TimeWrapMode::Loop);
    assert_eq!(wrapped.current, TimeOfDay { hour: h(6.0) as u32, elapsed_days: 3, calendar_day: 3, cycle_start: 0 });
    assert_eq!(wrapped.delta_hours, -h(4.0));
    let clamped = apply_time_override(time, TimeOverride::Scrub { hour: h(30.0) }, TimeWrapMode::Clamp);
    assert_eq!(clamped.current, TimeOfDay { hour: h(24.0) as u32, elapsed_days: 3, calendar_day: 3, cycle_start: 0 });
    assert_eq!(clamped.delta_hours, h(14.0));
    let same = apply_time_override(time, TimeOverride::Scrub { hour: h(10.0) }, TimeWrapMode::Loop);
    assert_eq!(same.mode, TimeStepMode::Scrub);
    assert_eq!(same.delta_hours, 0);
    let nothing = apply_time_override(time, TimeOverride::AdvanceHours { hours: 0 }, TimeWrapMode::Loop);
    assert_eq!(nothing, TimeStep::idle(time));
}
