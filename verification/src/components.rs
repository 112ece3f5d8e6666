//! Markers and per-entity settings that the runtime reads.
use vstd::prelude::*;

use crate::time::{normalize_hour, spec_normalize_hour, MILLIS_PER_HOUR};

verus! {

/// Marks the directional light that plays the sun.
#[derive(Clone, Copy, Debug, Default, PartialEq, Eq, Structural)]
pub struct Sun;

/// Marks the directional light that plays the moon.
#[derive(Clone, Copy, Debug, Default, PartialEq, Eq, Structural)]
pub struct Moon;

/// Per-camera switches for what the runtime writes to that camera.
#[derive(Clone, Copy, Debug, PartialEq, Eq, Structural)]
pub struct DayNightCamera {
    pub enabled: bool,
    pub apply_distance_fog: bool,
    pub apply_volumetric_fog: bool,
    pub apply_exposure: bool,
    pub apply_environment_map_light: bool,
    pub insert_missing_components: bool,
    pub ensure_atmosphere: bool,
}

impl Default for DayNightCamera {
    /// Everything applied and missing components inserted; the atmosphere
    /// is left to the consumer.
    fn default() -> (r: Self)
        ensures
            r.enabled,
            r.apply_distance_fog,
            r.apply_volumetric_fog,
            r.apply_exposure,
            r.apply_environment_map_light,
            r.insert_missing_components,
            !r.ensure_atmosphere,
    {
        DayNightCamera {
            enabled: true,
            apply_distance_fog: true,
            apply_volumetric_fog: true,
            apply_exposure: true,
            apply_environment_map_light: true,
            insert_missing_components: true,
            ensure_atmosphere: false,
        }
    }
}

/// An entity that is active during a window of the day.
///
/// The window is `[active_start_hour, active_end_hour)` in milliseconds
/// since midnight; when the start is after the end the window wraps around
/// midnight.
#[derive(Clone, Copy, Debug, PartialEq, Eq, Structural)]
pub struct TimeReactive {
    pub active_start_hour: i64,
    pub active_end_hour: i64,
}

impl TimeReactive {
    /// Whether the window contains `hour` (wrapped into the day).
    pub open spec fn active_at(self, hour: int) -> bool {
        let h = spec_normalize_hour(hour);
        if self.active_start_hour <= self.active_end_hour {
            self.active_start_hour <= h && h < self.active_end_hour
        } else {
            h >= self.active_start_hour || h < self.active_end_hour
        }
    }
}

impl Default for TimeReactive {
    /// Active from 19:00 to 06:00.
    fn default() -> (r: Self)
        ensures
            r == night_window(),
    {
        TimeReactive { active_start_hour: 19 * MILLIS_PER_HOUR, active_end_hour: 6 * MILLIS_PER_HOUR }
    }
}

impl TimeReactive {
    /// Active at night: from 19:00 to 06:00.
    pub fn night_active() -> (r: Self)
        ensures
            r == night_window(),
    {
        TimeReactive::default()
    }

    /// Active by day: from 06:00 to 19:00.
    pub fn day_active() -> (r: Self)
        ensures
            r == day_window(),
    {
        TimeReactive { active_start_hour: 6 * MILLIS_PER_HOUR, active_end_hour: 19 * MILLIS_PER_HOUR }
    }

    /// A window from `start` to `end`.
    pub fn custom(start: i64, end: i64) -> (r: Self)
        ensures
            r.active_start_hour == start,
            r.active_end_hour == end,
    {
        TimeReactive { active_start_hour: start, active_end_hour: end }
    }

    /// Whether the window contains `hour` (wrapped into the day).
    pub fn is_active_at(&self, hour: i64) -> (r: bool)
        ensures
            r == self.active_at(hour as int),
            self.active_start_hour <= self.active_end_hour ==> (r <==> (self.active_start_hour
                <= (hour as int) % 86_400_000 && (hour as int) % 86_400_000 < self.active_end_hour)),
            self.active_start_hour > self.active_end_hour ==> (r <==> ((hour as int) % 86_400_000
                >= self.active_start_hour || (hour as int) % 86_400_000 < self.active_end_hour)),
    {
        let hour = normalize_hour(hour) as i64;
        if self.active_start_hour <= self.active_end_hour {
            hour >= self.active_start_hour && hour < self.active_end_hour
        } else {
            hour >= self.active_start_hour || hour < self.active_end_hour
        }
    }
}

/// Whole days do not change whether a window is active.
pub proof fn law_time_reactive_is_periodic(reactive: TimeReactive, hour: int, days: int)
    ensures
        reactive.active_at(hour + days * crate::time::DAY_LENGTH_MILLIS) == reactive.active_at(hour),
{
    crate::time::law_normalize_hour_is_periodic(hour, days);
}

/// A window is active at exactly the hours of the day (to the millisecond)
/// that it covers: from its start, inclusive, to its end, exclusive; a
/// window whose start is after its end covers the hours from its start to
/// midnight and from midnight to its end.
pub proof fn law_window_holds_exactly_its_hours(reactive: TimeReactive, hour: int)
    ensures
        reactive.active_start_hour <= reactive.active_end_hour ==> (reactive.active_at(hour) <==> (
        reactive.active_start_hour <= hour % 86_400_000 && hour % 86_400_000
            < reactive.active_end_hour)),
        reactive.active_start_hour > reactive.active_end_hour ==> (reactive.active_at(hour) <==> (
        hour % 86_400_000 >= reactive.active_start_hour || hour % 86_400_000
            < reactive.active_end_hour)),
{
}

/// The window from 19:00 to 06:00.
pub open spec fn night_window() -> TimeReactive {
    TimeReactive { active_start_hour: 68_400_000, active_end_hour: 21_600_000 }
}

/// The window from 06:00 to 19:00.
pub open spec fn day_window() -> TimeReactive {
    TimeReactive { active_start_hour: 21_600_000, active_end_hour: 68_400_000 }
}

/// At every hour exactly one of the night window and the day window is
/// active.
pub proof fn law_night_and_day_windows_partition_the_day(hour: int)
    ensures
        night_window().active_at(hour) != day_window().active_at(hour),
{
}

/// Present on a `TimeReactive` entity while its window is active.
#[derive(Clone, Copy, Debug, Default, PartialEq, Eq, Structural)]
pub struct TimeActive;

} // verus!
