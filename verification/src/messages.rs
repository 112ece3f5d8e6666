//! The messages announced when a phase of the day begins.
use vstd::prelude::*;

verus! {

/// Dawn has begun.
#[derive(Clone, Copy, Debug, PartialEq, Eq, Structural)]
pub struct DawnStarted;

/// Day has begun.
#[derive(Clone, Copy, Debug, PartialEq, Eq, Structural)]
pub struct DayStarted;

/// Dusk has begun.
#[derive(Clone, Copy, Debug, PartialEq, Eq, Structural)]
pub struct DuskStarted;

/// Night has begun.
#[derive(Clone, Copy, Debug, PartialEq, Eq, Structural)]
pub struct NightStarted;

} // verus!
