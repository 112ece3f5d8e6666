//! Time-of-day, day phases and the decisions of an outdoor day/night runtime.
//!
//! Clock values are fixed-point milliseconds of simulated time (see
//! [`time`]); every clock computation is exact.
use vstd::prelude::*;

pub mod components;
pub mod messages;
pub mod phase;
pub mod runtime;
pub mod time;
pub mod writes;

pub use components::{DayNightCamera, Moon, Sun, TimeActive, TimeReactive};
pub use messages::{DawnStarted, DayStarted, DuskStarted, NightStarted};
pub use phase::{DayPhase, DayPhaseBoundaries};
pub use runtime::{DayNightDiagnostics, DayNightRuntimeState, ManagedLightSpawns, TimeActiveChange};
pub use time::{
    advance_by_hours, advance_continuous, apply_time_override, clamp_hour, normalize_hour,
    TimeOfDay, TimeOverride, TimeStep, TimeStepMode, TimeWrapMode, DAY_LENGTH_HOURS,
    DAY_LENGTH_MILLIS, MILLIS_PER_HOUR,
};

verus! {

/// The stages of one runtime frame, in the order in which they run.
#[derive(Clone, Copy, Debug, PartialEq, Eq, Structural, Hash)]
pub enum DayNightSystems {
    AdvanceTime,
    ResolveCelestial,
    ResolveLighting,
    DetectPhaseTransitions,
    ApplyLighting,
    UpdateTimeReactive,
}

} // verus!
