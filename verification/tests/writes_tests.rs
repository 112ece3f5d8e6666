use saddle_world_day_night::runtime::DayNightDiagnostics;
use saddle_world_day_night::writes::{
    ambient_writes, camera_writes, component_write, light_writes, record_camera_writes,
    record_light_write, resolve_lighting_mode, shadow_switch, AmbientWrites, CameraObservation,
    ComponentWrite, LightKind, LightWrites, LightingResolve,
};
use saddle_world_day_night::{
    DayNightCamera, DayNightRuntimeState, DayPhase, TimeOfDay, TimeStep, TimeStepMode,
};

fn fresh_diagnostics() -> DayNightDiagnostics {
    DayNightDiagnostics {
        current_time: 0,
        elapsed_days: 0,
        current_phase: DayPhase::Day,
        last_step_mode: TimeStepMode::Idle,
        last_phase_change: None,
        phase_message_count: 0,
        phase_history: Vec::new(),
        sun_writes: 0,
        moon_writes: 0,
        ambient_writes: 0,
        fog_writes: 0,
        exposure_writes: 0,
        environment_map_writes: 0,
    }
}

fn nothing_present() -> CameraObservation {
    CameraObservation {
        distance_fog_present: false,
        distance_fog_differs: false,
        volumetric_fog_present: false,
        volumetric_fog_differs: false,
        exposure_present: false,
        exposure_differs: false,
        environment_map_present: false,
        environment_map_differs: false,
        atmosphere_settings_present: false,
        atmosphere_settings_differs: false,
        medium_available: true,
        atmosphere_present: false,
        atmosphere_medium_differs: false,
    }
}

#[test]
fn component_writes_follow_presence_and_difference() {
    assert_eq!(component_write(false, true, true, true), ComponentWrite::Skip);
    assert_eq!(component_write(true, true, true, false), ComponentWrite::Update);
    assert_eq!(component_write(true, true, false, true), ComponentWrite::Skip);
    assert_eq!(component_write(true, false, false, true), ComponentWrite::Insert);
    assert_eq!(component_write(true, false, true, false), ComponentWrite::Skip);
}

#[test]
fn new_camera_gets_its_components_inserted() {
    let camera = DayNightCamera::default();
    let writes = camera_writes(&camera, &nothing_present());
    assert_eq!(writes.distance_fog, ComponentWrite::Insert);
    assert_eq!(writes.volumetric_fog, ComponentWrite::Insert);
    assert_eq!(writes.exposure, ComponentWrite::Insert);
    assert_eq!(writes.environment_map_light, ComponentWrite::Insert);
    // The default camera leaves the atmosphere to the consumer.
    assert_eq!(writes.atmosphere_settings, ComponentWrite::Skip);
    assert_eq!(writes.atmosphere, ComponentWrite::Skip);

    let mut diagnostics = fresh_diagnostics();
    record_camera_writes(&mut diagnostics, &writes);
    assert_eq!(diagnostics.fog_writes, 2);
    assert_eq!(diagnostics.exposure_writes, 1);
    assert_eq!(diagnostics.environment_map_writes, 1);
}

#[test]
fn atmosphere_is_managed_only_when_asked_and_available() {
    let camera = DayNightCamera { ensure_atmosphere: true, ..DayNightCamera::default() };
    let writes = camera_writes(&camera, &nothing_present());
    assert_eq!(writes.atmosphere_settings, ComponentWrite::Insert);
    assert_eq!(writes.atmosphere, ComponentWrite::Insert);
    let no_medium = CameraObservation { medium_available: false, ..nothing_present() };
    assert_eq!(camera_writes(&camera, &no_medium).atmosphere, ComponentWrite::Skip);
    let changed_medium = CameraObservation {
        atmosphere_present: true,
        atmosphere_medium_differs: true,
        ..nothing_present()
    };
    assert_eq!(camera_writes(&camera, &changed_medium).atmosphere, ComponentWrite::Update);
}

#[test]
fn settled_or_disabled_cameras_are_not_rewritten() {
    let settled = CameraObservation {
        distance_fog_present: true,
        volumetric_fog_present: true,
        exposure_present: true,
        environment_map_present: true,
        atmosphere_settings_present: true,
        atmosphere_present: true,
        ..nothing_present()
    };
    let camera = DayNightCamera { ensure_atmosphere: true, ..DayNightCamera::default() };
    let writes = camera_writes(&camera, &settled);
    let mut diagnostics = fresh_diagnostics();
    record_camera_writes(&mut diagnostics, &writes);
    assert_eq!(diagnostics.fog_writes + diagnostics.exposure_writes + diagnostics.environment_map_writes, 0);

    let disabled = DayNightCamera { enabled: false, ..DayNightCamera::default() };
    let writes = camera_writes(&disabled, &nothing_present());
    assert_eq!(writes.distance_fog, ComponentWrite::Skip);
    assert_eq!(writes.exposure, ComponentWrite::Skip);

    let owned_elsewhere = DayNightCamera { insert_missing_components: false, ..DayNightCamera::default() };
    assert_eq!(camera_writes(&owned_elsewhere, &nothing_present()).volumetric_fog, ComponentWrite::Skip);
}

#[test]
fn light_writes_are_counted_per_kind() {
    let mut diagnostics = fresh_diagnostics();
    record_light_write(&mut diagnostics, LightKind::Sun, true);
    record_light_write(&mut diagnostics, LightKind::Sun, false);
    record_light_write(&mut diagnostics, LightKind::Moon, true);
    record_light_write(&mut diagnostics, LightKind::Ambient, true);
    record_light_write(&mut diagnostics, LightKind::Ambient, true);
    assert_eq!(diagnostics.sun_writes, 1);
    assert_eq!(diagnostics.moon_writes, 1);
    assert_eq!(diagnostics.ambient_writes, 2);
    diagnostics.sun_writes = u64::MAX;
    record_light_write(&mut diagnostics, LightKind::Sun, true);
    assert_eq!(diagnostics.sun_writes, u64::MAX);
}

#[test]
fn first_lighting_frame_snaps_then_smooths() {
    let mut runtime = DayNightRuntimeState::default();
    assert_eq!(resolve_lighting_mode(&mut runtime), LightingResolve::Snap);
    assert!(runtime.lighting_initialized);
    assert_eq!(resolve_lighting_mode(&mut runtime), LightingResolve::Smooth(TimeStepMode::Idle));
    let time = TimeOfDay::default();
    runtime.last_step = Some(TimeStep { previous: time, current: time, mode: TimeStepMode::AdvanceJump, delta_hours: 0 });
    assert_eq!(resolve_lighting_mode(&mut runtime), LightingResolve::Smooth(TimeStepMode::AdvanceJump));
}

#[test]
fn plugin_can_leave_global_ambient_to_the_consumer() {
    let mut diagnostics = fresh_diagnostics();
    let (writes, wrote) = ambient_writes(false, true, true);
    assert_eq!(writes, AmbientWrites { color: false, brightness: false });
    assert!(!wrote);
    record_light_write(&mut diagnostics, LightKind::Ambient, wrote);
    assert_eq!(diagnostics.ambient_writes, 0);
    let (writes, wrote) = ambient_writes(true, true, false);
    assert_eq!(writes, AmbientWrites { color: true, brightness: false });
    assert!(wrote);
}

#[test]
fn light_shadow_switch_is_always_brought_in_line() {
    let (writes, wrote) = light_writes(false, false, false, true, false);
    assert_eq!(writes, LightWrites { direction: false, color: false, illuminance: false, shadows: true });
    assert!(wrote);
    let (_, settled) = light_writes(false, false, false, true, true);
    assert!(!settled);
    assert!(shadow_switch(true, true, true));
    assert!(!shadow_switch(false, true, true));
    assert!(!shadow_switch(true, false, true));
    assert!(!shadow_switch(true, true, false));
}
