use saddle_world_day_night::{
    advance_continuous, apply_time_override, TimeOfDay, TimeOverride, TimeStepMode, TimeWrapMode,
    DAY_LENGTH_HOURS, MILLIS_PER_HOUR,
};

/// Milliseconds of simulated time in `hours` hours.
fn h(hours: f64) -> i64 {
    (hours * MILLIS_PER_HOUR as f64).round() as i64
}

#[test]
fn continuous_time_advances_and_wraps() {
    let time = TimeOfDay::with_days(h(23.5), 2);
    // 60 real seconds per simulated hour, a 60 s frame, speed 1.0 (in microseconds and millionths).
    let step = advance_continuous(time, 60_000_000, 60_000_000, 1_000_000, false, TimeWrapMode::Loop, &mut 0);

    assert_eq!(step.mode, TimeStepMode::Continuous);
    assert!((step.current.hour as i64 - h(0.5)).abs() < h(1e-4).max(1));
    assert_eq!(step.current.elapsed_days, 3);
}

#[test]
fn paused_time_is_idle() {
    let time = TimeOfDay::new(h(6.0));
    let step = advance_continuous(time, 1_000_000, 60_000_000, 1_000_000, true, TimeWrapMode::Loop, &mut 0);

    assert_eq!(step.mode, TimeStepMode::Idle);
    assert_eq!(step.current, time);
}

#[test]
fn clamp_mode_stops_at_twenty_four() {
    let time = TimeOfDay::new(h(23.5));
    let step = advance_continuous(time, 120_000_000, 60_000_000, 1_000_000, false, TimeWrapMode::Clamp, &mut 0);

    assert_eq!(step.current.hour as i64, h(DAY_LENGTH_HOURS as f64));
    assert_eq!(step.current.elapsed_days, 0);
}

#[test]
fn scrub_sets_exact_hour_without_advancing_days() {
    let time = TimeOfDay::with_days(h(23.0), 7);
    let step = apply_time_override(time, TimeOverride::Scrub { hour: h(5.25) }, TimeWrapMode::Loop);

    assert_eq!(step.mode, TimeStepMode::Scrub);
    assert!((step.current.hour as i64 - h(5.25)).abs() < h(1e-4).max(1));
    assert_eq!(step.current.elapsed_days, 7);
}

#[test]
fn advance_override_crosses_midnight_and_counts_days() {
    let time = TimeOfDay::with_days(h(22.0), 1);
    let step = apply_time_override(
        time,
        TimeOverride::AdvanceHours { hours: h(5.5) },
        TimeWrapMode::Loop,
    );

    assert_eq!(step.mode, TimeStepMode::AdvanceJump);
    assert!((step.current.hour as i64 - h(3.5)).abs() < h(1e-4).max(1));
    assert_eq!(step.current.elapsed_days, 2);
}
