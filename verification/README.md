# saddle-world-day-night

A verified time-of-day core for an outdoor day/night runtime, with a Bevy
plugin around it.

## Layout

- `src/` — the library, verified with Verus.
  - `time.rs` — the clock (`TimeOfDay`), wrap modes, one-shot requests and
    clock steps: continuous progression, scrubs and jumps.
  - `phase.rs` — the four day phases, their boundaries, the phase in effect
    at any hour, the wait until a phase, and the phases that begin between
    two absolute times.
  - `components.rs` — markers and per-entity settings (`Sun`, `Moon`,
    `DayNightCamera`, `TimeReactive`, `TimeActive`).
  - `messages.rs` — the phase-start messages.
  - `runtime.rs` — the per-frame decisions of the runtime: activation,
    moving the clock, announcing phases exactly once, the capped phase
    history, time-reactive markers, managed-light spawning and diagnostics.
  - `writes.rs` — which camera components to update or insert, which write
    counters to bump, and whether lighting snaps or smooths, given the
    host's threshold comparisons.
- `app/` — the Bevy plugin: resources, components and messages with their
  Bevy trait impls, the systems that feed the library plain values and
  apply its decisions (clock, phase messages, managed lights and their
  writes, the ambient light, the volumetric fog, exposure and
  environment-map light of cameras, time-reactive markers, diagnostics),
  and the conversion between Bevy's floating-point
  seconds/hours and the library's fixed-point clock.
- `tests/` — tests of the library.

## Clock representation

Clock values are fixed-point: one unit is one millisecond of simulated
time (`MILLIS_PER_HOUR`, `DAY_LENGTH_MILLIS`). Fields and functions whose
names speak of hours (`hour`, `total_hours`, `delta_hours`,
`AdvanceHours { hours }`) carry such milliseconds.

A `TimeOfDay` holds the hour (milliseconds since midnight), the calendar
day (midnights passed), so its absolute time is
`calendar_day * 24h + hour`, the absolute time `cycle_start` at which the
clock started, and `elapsed_days`, the full 24-hour cycles since then
(zero before the start). A clock started at 18:00 reads day 0 at 00:30 and
day 1 from 18:00 the next day on. Looping moves change the absolute time
(floored at zero, so a clock can go back before its start); scrubs and
clamped moves stay on the current calendar day, so moving the hour earlier
moves the clock back and announces nothing.

Continuous progression takes the real frame length and the real length of
a simulated hour in microseconds and the speed in millionths, and carries
the sub-millisecond remainder to the next frame, so no game time is lost
to rounding. All clock arithmetic is exact, so wrapping, day counting and
phase detection need no tolerances.

## What is proved

Every public function states its result exactly. Among the laws proved in
`src/`:

- under `Loop` a step moves the absolute clock by exactly the requested
  amount (floored at zero) and steps compose and undo;
- scrubs and clamped moves stay on the current calendar day, and moves
  that do not go forward announce no phase;
- the day counter is the number of full 24-hour cycles since the start;
- continuous frames lose no game time to rounding;
- under `Clamp` the hour stays in `[0, 24h]` and days are never counted;
- each phase is in effect from its start, the phase in effect is the one
  that began most recently, and waiting `hours_until_phase` reaches it;
- the phases announced for a move are exactly the phase starts inside it,
  in order; splitting a move in two announces the same phases; a move of at
  most a day announces each phase at most once; the last announced phase
  is the phase in effect afterwards;
- a clock step is announced at most once, and activation announces nothing;
- the phase history keeps the latest sixteen entries;
- a settled camera is not rewritten, components are inserted only when
  missing and updated only when different, and with the ambient switch off
  the ambient light is never written.
