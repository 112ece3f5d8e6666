use saddle_world_day_night::{DayPhase, DayPhaseBoundaries, DAY_LENGTH_MILLIS, MILLIS_PER_HOUR};

/// Milliseconds of simulated time in `hours` hours.
fn h(hours: f64) -> i64 {
    (hours * MILLIS_PER_HOUR as f64).round() as i64
}

const ALL: [DayPhase; 4] = [DayPhase::Dawn, DayPhase::Day, DayPhase::Dusk, DayPhase::Night];

#[test]
fn default_boundaries_are_valid_and_ordered() {
    let b = DayPhaseBoundaries::default();
    assert!(b.is_valid());
    assert_eq!(b.dawn_starts, h(5.5));
    assert_eq!(b.day_starts, h(7.0));
    assert_eq!(b.dusk_starts, h(18.0));
    assert_eq!(b.night_starts, h(19.5));
}

#[test]
fn invalid_boundaries_fall_back_to_defaults() {
    let unordered = DayPhaseBoundaries {
        dawn_starts: h(8.0),
        day_starts: h(7.0),
        dusk_starts: h(18.0),
        night_starts: h(19.5),
    };
    assert!(!unordered.is_valid());
    assert_eq!(unordered.validated_or_default(), DayPhaseBoundaries::default());
    assert_eq!(unordered.start_hour(DayPhase::Dawn), h(5.5));
    assert_eq!(unordered.phase_at(h(7.5)), DayPhase::Day);

    let past_midnight = DayPhaseBoundaries { night_starts: h(24.0), ..DayPhaseBoundaries::default() };
    assert!(!past_midnight.is_valid());
    let negative = DayPhaseBoundaries { dawn_starts: -1, ..DayPhaseBoundaries::default() };
    assert!(!negative.is_valid());

    let custom = DayPhaseBoundaries {
        dawn_starts: h(4.0),
        day_starts: h(6.0),
        dusk_starts: h(20.0),
        night_starts: h(21.0),
    };
    assert!(custom.is_valid());
    assert_eq!(custom.validated_or_default(), custom);
    assert_eq!(custom.phase_at(h(5.0)), DayPhase::Dawn);
    assert_eq!(custom.phase_at(h(20.5)), DayPhase::Dusk);
}

#[test]
fn each_phase_begins_at_its_start_hour() {
    let b = DayPhaseBoundaries::default();
    for phase in ALL {
        assert_eq!(b.phase_at(b.start_hour(phase)), phase);
        assert_eq!(b.phase_at(b.start_hour(phase) - 1) == phase, false);
    }
}

#[test]
fn phase_at_repeats_every_day_and_wraps_negative_hours() {
    let b = DayPhaseBoundaries::default();
    for tenth in 0..240 {
        let hour = h(tenth as f64 * 0.1);
        assert_eq!(b.phase_at(hour + 3 * DAY_LENGTH_MILLIS), b.phase_at(hour));
        assert_eq!(b.phase_at(hour - DAY_LENGTH_MILLIS), b.phase_at(hour));
    }
    assert_eq!(b.phase_at(h(-1.0)), DayPhase::Night);
    assert_eq!(b.phase_at(h(-17.0)), DayPhase::Day);
}

#[test]
fn hours_until_phase_reaches_that_phase() {
    let b = DayPhaseBoundaries::default();
    assert_eq!(b.hours_until_phase(DayPhase::Dusk, h(12.0)), h(6.0));
    assert_eq!(b.hours_until_phase(DayPhase::Dawn, h(5.5)), h(24.0));
    assert_eq!(b.next_start(DayPhase::Night, h(20.0)), h(43.5));
    assert_eq!(b.next_start(DayPhase::Night, h(44.0)), h(43.5));
    assert_eq!(b.next_start(DayPhase::Night, h(42.0)), h(19.5));
    for tenth in 0..240 {
        let from = h(tenth as f64 * 0.1);
        for phase in ALL {
            let wait = b.hours_until_phase(phase, from);
            assert!(wait > 0 && wait <= DAY_LENGTH_MILLIS);
            assert_eq!(b.phase_at(from + wait), phase);
        }
    }
}

#[test]
fn forward_jump_lists_each_crossed_phase_once() {
    let b = DayPhaseBoundaries::default();
    assert_eq!(
        b.phases_started_between(h(17.5), h(32.5)),
        vec![DayPhase::Dusk, DayPhase::Night, DayPhase::Dawn, DayPhase::Day]
    );
}

#[test]
fn phase_starts_split_across_two_moves() {
    let b = DayPhaseBoundaries::default();
    let cases = [(h(17.5), h(24.0), h(32.5)), (h(-30.0), h(1.0), h(100.0)), (0, 0, h(48.0))];
    for (a, m, c) in cases {
        let mut joined = b.phases_started_between(a, m);
        joined.extend(b.phases_started_between(m, c));
        assert_eq!(joined, b.phases_started_between(a, c));
    }
}

#[test]
fn phase_starts_follow_the_cycle_and_end_at_current_phase() {
    let b = DayPhaseBoundaries::default();
    let phases = b.phases_started_between(h(3.0), h(75.0));
    assert_eq!(phases.len(), 12);
    for pair in phases.windows(2) {
        let next = match pair[0] {
            DayPhase::Dawn => DayPhase::Day,
            DayPhase::Day => DayPhase::Dusk,
            DayPhase::Dusk => DayPhase::Night,
            DayPhase::Night => DayPhase::Dawn,
        };
        assert_eq!(pair[1], next);
    }
    assert_eq!(*phases.last().unwrap(), b.phase_at(h(75.0)));
}

#[test]
fn phase_starts_are_half_open() {
    let b = DayPhaseBoundaries::default();
    // A start exactly at the earlier time is not listed; one exactly at the later time is.
    assert_eq!(b.phases_started_between(h(5.5), h(7.0)), vec![DayPhase::Day]);
    assert_eq!(b.phases_started_between(h(7.0), h(7.0)), vec![]);
    assert_eq!(b.phases_started_between(h(30.0), h(10.0)), vec![]);
}

#[test]
fn moves_within_a_day_list_distinct_phases() {
    let b = DayPhaseBoundaries::default();
    for tenth in 0..240 {
        let start = h(tenth as f64 * 0.1);
        let phases = b.phases_started_between(start, start + DAY_LENGTH_MILLIS);
        assert_eq!(phases.len(), 4);
        for i in 0..phases.len() {
            for j in (i + 1)..phases.len() {
                assert_ne!(phases[i], phases[j]);
            }
        }
    }
}
