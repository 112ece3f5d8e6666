//! Which render-facing writes the runtime makes.
//!
//! The host compares the resolved lighting with the current light, ambient
//! and camera values against the write thresholds; these functions take the
//! outcome of those comparisons, and which components exist, and decide
//! what to update, what to insert and which write counters to bump.
use vstd::prelude::*;

use crate::components::DayNightCamera;
use crate::runtime::{saturating_sum, DayNightDiagnostics, DayNightRuntimeState};
use crate::time::TimeStepMode;

verus! {

/// What to do with one camera component.
#[derive(Clone, Copy, Debug, PartialEq, Eq, Structural, Hash)]
pub enum ComponentWrite {
    /// Leave it as it is (or absent).
    Skip,
    /// Write the resolved values into the existing component.
    Update,
    /// Insert the component with the resolved values.
    Insert,
}

/// The write for a component that the camera asks to be managed (`apply`):
/// an existing one is updated when its values differ; a missing one is
/// inserted when the camera allows inserting.
pub open spec fn write_for(apply: bool, present: bool, differs: bool, insert_missing: bool) -> ComponentWrite {
    if !apply {
        ComponentWrite::Skip
    } else if present {
        if differs {
            ComponentWrite::Update
        } else {
            ComponentWrite::Skip
        }
    } else if insert_missing {
        ComponentWrite::Insert
    } else {
        ComponentWrite::Skip
    }
}

/// Decides the write for one camera component.
pub fn component_write(apply: bool, present: bool, differs: bool, insert_missing: bool) -> (r:
    ComponentWrite)
    ensures
        r == write_for(apply, present, differs, insert_missing),
        !apply ==> r == ComponentWrite::Skip,
        apply ==> (r == ComponentWrite::Update <==> present && differs),
        apply ==> (r == ComponentWrite::Insert <==> !present && insert_missing),
{
    if !apply {
        ComponentWrite::Skip
    } else if present {
        if differs {
            ComponentWrite::Update
        } else {
            ComponentWrite::Skip
        }
    } else if insert_missing {
        ComponentWrite::Insert
    } else {
        ComponentWrite::Skip
    }
}

/// What the host found on one camera: which managed components exist and
/// whether their values differ from the resolved ones beyond the write
/// thresholds; and whether an atmosphere medium is available at all.
#[derive(Clone, Copy, Debug, PartialEq, Eq, Structural)]
pub struct CameraObservation {
    pub distance_fog_present: bool,
    pub distance_fog_differs: bool,
    pub volumetric_fog_present: bool,
    pub volumetric_fog_differs: bool,
    pub exposure_present: bool,
    pub exposure_differs: bool,
    pub environment_map_present: bool,
    pub environment_map_differs: bool,
    pub atmosphere_settings_present: bool,
    pub atmosphere_settings_differs: bool,
    pub medium_available: bool,
    pub atmosphere_present: bool,
    pub atmosphere_medium_differs: bool,
}

/// The writes to one camera.
#[derive(Clone, Copy, Debug, PartialEq, Eq, Structural)]
pub struct CameraWrites {
    pub distance_fog: ComponentWrite,
    pub volumetric_fog: ComponentWrite,
    pub exposure: ComponentWrite,
    pub environment_map_light: ComponentWrite,
    pub atmosphere_settings: ComponentWrite,
    pub atmosphere: ComponentWrite,
}

/// The writes for a camera with settings `camera` and observation `seen`.
pub open spec fn writes_for(camera: DayNightCamera, seen: CameraObservation) -> CameraWrites {
    if !camera.enabled {
        CameraWrites {
            distance_fog: ComponentWrite::Skip,
            volumetric_fog: ComponentWrite::Skip,
            exposure: ComponentWrite::Skip,
            environment_map_light: ComponentWrite::Skip,
            atmosphere_settings: ComponentWrite::Skip,
            atmosphere: ComponentWrite::Skip,
        }
    } else {
        let insert = camera.insert_missing_components;
        CameraWrites {
            distance_fog: write_for(
                camera.apply_distance_fog,
                seen.distance_fog_present,
                seen.distance_fog_differs,
                insert,
            ),
            volumetric_fog: write_for(
                camera.apply_volumetric_fog,
                seen.volumetric_fog_present,
                seen.volumetric_fog_differs,
                insert,
            ),
            exposure: write_for(
                camera.apply_exposure,
                seen.exposure_present,
                seen.exposure_differs,
                insert,
            ),
            environment_map_light: write_for(
                camera.apply_environment_map_light,
                seen.environment_map_present,
                seen.environment_map_differs,
                insert,
            ),
            atmosphere_settings: write_for(
                camera.ensure_atmosphere,
                seen.atmosphere_settings_present,
                seen.atmosphere_settings_differs,
                insert,
            ),
            atmosphere: write_for(
                camera.ensure_atmosphere && seen.medium_available,
                seen.atmosphere_present,
                seen.atmosphere_medium_differs,
                insert,
            ),
        }
    }
}

/// Decides the writes to one camera. A disabled camera is left alone; each
/// managed component is updated when present and different and inserted
/// when missing and inserting is allowed; the atmosphere settings and
/// medium are managed only when the camera asks for an atmosphere, and the
/// medium only when one is available.
pub fn camera_writes(camera: &DayNightCamera, seen: &CameraObservation) -> (r: CameraWrites)
    ensures
        r == writes_for(*camera, *seen),
{
    if !camera.enabled {
        return CameraWrites {
            distance_fog: ComponentWrite::Skip,
            volumetric_fog: ComponentWrite::Skip,
            exposure: ComponentWrite::Skip,
            environment_map_light: ComponentWrite::Skip,
            atmosphere_settings: ComponentWrite::Skip,
            atmosphere: ComponentWrite::Skip,
        };
    }
    let insert = camera.insert_missing_components;
    CameraWrites {
        distance_fog: component_write(
            camera.apply_distance_fog,
            seen.distance_fog_present,
            seen.distance_fog_differs,
            insert,
        ),
        volumetric_fog: component_write(
            camera.apply_volumetric_fog,
            seen.volumetric_fog_present,
            seen.volumetric_fog_differs,
            insert,
        ),
        exposure: component_write(
            camera.apply_exposure,
            seen.exposure_present,
            seen.exposure_differs,
            insert,
        ),
        environment_map_light: component_write(
            camera.apply_environment_map_light,
            seen.environment_map_present,
            seen.environment_map_differs,
            insert,
        ),
        atmosphere_settings: component_write(
            camera.ensure_atmosphere,
            seen.atmosphere_settings_present,
            seen.atmosphere_settings_differs,
            insert,
        ),
        atmosphere: component_write(
            camera.ensure_atmosphere && seen.medium_available,
            seen.atmosphere_present,
            seen.atmosphere_medium_differs,
            insert,
        ),
    }
}

/// One when the write happens, zero when it is skipped.
pub open spec fn counted(write: ComponentWrite) -> int {
    if write == ComponentWrite::Skip {
        0
    } else {
        1
    }
}

fn count(write: ComponentWrite) -> (r: u64)
    ensures
        r == counted(write),
{
    match write {
        ComponentWrite::Skip => 0,
        _ => 1,
    }
}

/// Counts a camera's writes: fog writes for the distance and volumetric
/// fog, exposure writes and environment-map writes; the atmosphere is not
/// counted.
pub fn record_camera_writes(diagnostics: &mut DayNightDiagnostics, writes: &CameraWrites)
    ensures
        final(diagnostics).fog_writes == saturating_sum(
            old(diagnostics).fog_writes as int,
            counted(writes.distance_fog) + counted(writes.volumetric_fog),
        ),
        final(diagnostics).exposure_writes == saturating_sum(
            old(diagnostics).exposure_writes as int,
            counted(writes.exposure),
        ),
        final(diagnostics).environment_map_writes == saturating_sum(
            old(diagnostics).environment_map_writes as int,
            counted(writes.environment_map_light),
        ),
        final(diagnostics).sun_writes == old(diagnostics).sun_writes,
        final(diagnostics).moon_writes == old(diagnostics).moon_writes,
        final(diagnostics).ambient_writes == old(diagnostics).ambient_writes,
        final(diagnostics).current_time == old(diagnostics).current_time,
        final(diagnostics).elapsed_days == old(diagnostics).elapsed_days,
        final(diagnostics).current_phase == old(diagnostics).current_phase,
        final(diagnostics).last_step_mode == old(diagnostics).last_step_mode,
        final(diagnostics).last_phase_change == old(diagnostics).last_phase_change,
        final(diagnostics).phase_message_count == old(diagnostics).phase_message_count,
        final(diagnostics).phase_history@ == old(diagnostics).phase_history@,
{
    let fog = count(writes.distance_fog) + count(writes.volumetric_fog);
    diagnostics.fog_writes = diagnostics.fog_writes.saturating_add(fog);
    diagnostics.exposure_writes = diagnostics.exposure_writes.saturating_add(count(writes.exposure));
    diagnostics.environment_map_writes = diagnostics.environment_map_writes.saturating_add(
        count(writes.environment_map_light),
    );
}

/// Which write counter a light write goes to.
#[derive(Clone, Copy, Debug, PartialEq, Eq, Structural, Hash)]
pub enum LightKind {
    Sun,
    Moon,
    Ambient,
}

/// Counts one light (or the ambient light) if any of its values was
/// written: its direction, color, intensity or shadow switch.
pub fn record_light_write(diagnostics: &mut DayNightDiagnostics, kind: LightKind, wrote: bool)
    ensures
        final(diagnostics).sun_writes == saturating_sum(
            old(diagnostics).sun_writes as int,
            if wrote && kind == LightKind::Sun { 1int } else { 0int },
        ),
        final(diagnostics).moon_writes == saturating_sum(
            old(diagnostics).moon_writes as int,
            if wrote && kind == LightKind::Moon { 1int } else { 0int },
        ),
        final(diagnostics).ambient_writes == saturating_sum(
            old(diagnostics).ambient_writes as int,
            if wrote && kind == LightKind::Ambient { 1int } else { 0int },
        ),
        final(diagnostics).fog_writes == old(diagnostics).fog_writes,
        final(diagnostics).exposure_writes == old(diagnostics).exposure_writes,
        final(diagnostics).environment_map_writes == old(diagnostics).environment_map_writes,
        final(diagnostics).current_time == old(diagnostics).current_time,
        final(diagnostics).elapsed_days == old(diagnostics).elapsed_days,
        final(diagnostics).current_phase == old(diagnostics).current_phase,
        final(diagnostics).last_step_mode == old(diagnostics).last_step_mode,
        final(diagnostics).last_phase_change == old(diagnostics).last_phase_change,
        final(diagnostics).phase_message_count == old(diagnostics).phase_message_count,
        final(diagnostics).phase_history@ == old(diagnostics).phase_history@,
{
    if !wrote {
        return;
    }
    match kind {
        LightKind::Sun => {
            diagnostics.sun_writes = diagnostics.sun_writes.saturating_add(1);
        },
        LightKind::Moon => {
            diagnostics.moon_writes = diagnostics.moon_writes.saturating_add(1);
        },
        LightKind::Ambient => {
            diagnostics.ambient_writes = diagnostics.ambient_writes.saturating_add(1);
        },
    }
}

/// How this frame's resolved lighting becomes the published lighting.
#[derive(Clone, Copy, Debug, PartialEq, Eq, Structural, Hash)]
pub enum LightingResolve {
    /// Publish the resolved lighting as it is (the first frame).
    Snap,
    /// Smooth toward it, with the smoothing chosen for this step mode.
    Smooth(TimeStepMode),
}

/// Decides how to publish this frame's lighting: the first frame after the
/// lighting was last reset snaps and marks the lighting initialized; later
/// frames smooth, according to the last step's mode (idle when there is
/// none).
pub fn resolve_lighting_mode(runtime: &mut DayNightRuntimeState) -> (r: LightingResolve)
    ensures
        old(runtime).lighting_initialized ==> r == LightingResolve::Smooth(
            match old(runtime).last_step {
                Some(step) => step.mode,
                None => TimeStepMode::Idle,
            },
        ) && *final(runtime) == *old(runtime),
        !old(runtime).lighting_initialized ==> r == LightingResolve::Snap && *final(runtime) == (
        DayNightRuntimeState { lighting_initialized: true, ..*old(runtime) }),
{
    if runtime.lighting_initialized {
        let mode = match runtime.last_step {
            Some(step) => step.mode,
            None => TimeStepMode::Idle,
        };
        LightingResolve::Smooth(mode)
    } else {
        runtime.lighting_initialized = true;
        LightingResolve::Snap
    }
}

/// A managed component is never written while the camera is disabled, and
/// a component that is present and matches the resolved values is never
/// rewritten: a settled, paused scene makes no writes.
pub proof fn law_settled_camera_is_not_rewritten(camera: DayNightCamera, seen: CameraObservation)
    requires
        camera.enabled ==> !seen.distance_fog_differs && !seen.volumetric_fog_differs
            && !seen.exposure_differs && !seen.environment_map_differs
            && !seen.atmosphere_settings_differs && !seen.atmosphere_medium_differs,
        camera.enabled ==> seen.distance_fog_present && seen.volumetric_fog_present
            && seen.exposure_present && seen.environment_map_present
            && seen.atmosphere_settings_present && seen.atmosphere_present,
    ensures
        writes_for(camera, seen).distance_fog == ComponentWrite::Skip,
        writes_for(camera, seen).volumetric_fog == ComponentWrite::Skip,
        writes_for(camera, seen).exposure == ComponentWrite::Skip,
        writes_for(camera, seen).environment_map_light == ComponentWrite::Skip,
        writes_for(camera, seen).atmosphere_settings == ComponentWrite::Skip,
        writes_for(camera, seen).atmosphere == ComponentWrite::Skip,
{
}

/// Inserting happens only for a missing component on an enabled camera
/// that allows inserting; updating only for a present one that differs.
pub proof fn law_writes_respect_presence(apply: bool, present: bool, differs: bool, insert: bool)
    ensures
        write_for(apply, present, differs, insert) == ComponentWrite::Insert ==> apply && !present
            && insert,
        write_for(apply, present, differs, insert) == ComponentWrite::Update ==> apply && present
            && differs,
{
}

/// Each managed component of an enabled camera is governed by its own
/// switch alone: with the switch off it is left alone; with it on it is
/// updated exactly when present and different, and inserted exactly when
/// missing and inserting is allowed. The atmosphere settings follow the
/// atmosphere switch, and the atmosphere medium follows it only when a
/// medium is available. A disabled camera is left alone entirely.
pub proof fn law_each_component_follows_its_own_switch(camera: DayNightCamera, seen: CameraObservation)
    ensures
        !camera.enabled ==> writes_for(camera, seen) == (CameraWrites {
            distance_fog: ComponentWrite::Skip,
            volumetric_fog: ComponentWrite::Skip,
            exposure: ComponentWrite::Skip,
            environment_map_light: ComponentWrite::Skip,
            atmosphere_settings: ComponentWrite::Skip,
            atmosphere: ComponentWrite::Skip,
        }),
        camera.enabled && !camera.apply_distance_fog ==> writes_for(camera, seen).distance_fog
            == ComponentWrite::Skip,
        camera.enabled && camera.apply_distance_fog ==> (writes_for(camera, seen).distance_fog
            == ComponentWrite::Update <==> seen.distance_fog_present && seen.distance_fog_differs),
        camera.enabled && camera.apply_distance_fog ==> (writes_for(camera, seen).distance_fog
            == ComponentWrite::Insert <==> !seen.distance_fog_present
            && camera.insert_missing_components),
        camera.enabled && !camera.apply_volumetric_fog ==> writes_for(camera, seen).volumetric_fog
            == ComponentWrite::Skip,
        camera.enabled && camera.apply_volumetric_fog ==> (writes_for(camera, seen).volumetric_fog
            == ComponentWrite::Update <==> seen.volumetric_fog_present
            && seen.volumetric_fog_differs),
        camera.enabled && camera.apply_volumetric_fog ==> (writes_for(camera, seen).volumetric_fog
            == ComponentWrite::Insert <==> !seen.volumetric_fog_present
            && camera.insert_missing_components),
        camera.enabled && !camera.apply_exposure ==> writes_for(camera, seen).exposure
            == ComponentWrite::Skip,
        camera.enabled && camera.apply_exposure ==> (writes_for(camera, seen).exposure
            == ComponentWrite::Update <==> seen.exposure_present && seen.exposure_differs),
        camera.enabled && camera.apply_exposure ==> (writes_for(camera, seen).exposure
            == ComponentWrite::Insert <==> !seen.exposure_present && camera.insert_missing_components),
        camera.enabled && !camera.apply_environment_map_light ==> writes_for(
            camera,
            seen,
        ).environment_map_light == ComponentWrite::Skip,
        camera.enabled && camera.apply_environment_map_light ==> (writes_for(
            camera,
            seen,
        ).environment_map_light == ComponentWrite::Update <==> seen.environment_map_present
            && seen.environment_map_differs),
        camera.enabled && camera.apply_environment_map_light ==> (writes_for(
            camera,
            seen,
        ).environment_map_light == ComponentWrite::Insert <==> !seen.environment_map_present
            && camera.insert_missing_components),
        camera.enabled && !camera.ensure_atmosphere ==> writes_for(camera, seen).atmosphere_settings
            == ComponentWrite::Skip,
        camera.enabled && camera.ensure_atmosphere ==> (writes_for(camera, seen).atmosphere_settings
            == ComponentWrite::Update <==> seen.atmosphere_settings_present
            && seen.atmosphere_settings_differs),
        camera.enabled && camera.ensure_atmosphere ==> (writes_for(camera, seen).atmosphere_settings
            == ComponentWrite::Insert <==> !seen.atmosphere_settings_present
            && camera.insert_missing_components),
        camera.enabled && !(camera.ensure_atmosphere && seen.medium_available) ==> writes_for(
            camera,
            seen,
        ).atmosphere == ComponentWrite::Skip,
        camera.enabled && camera.ensure_atmosphere && seen.medium_available ==> (writes_for(
            camera,
            seen,
        ).atmosphere == ComponentWrite::Update <==> seen.atmosphere_present
            && seen.atmosphere_medium_differs),
        camera.enabled && camera.ensure_atmosphere && seen.medium_available ==> (writes_for(
            camera,
            seen,
        ).atmosphere == ComponentWrite::Insert <==> !seen.atmosphere_present
            && camera.insert_missing_components),
{
}

/// With the ambient switch on, the color is written exactly when it
/// differs and the brightness exactly when it differs, each independently
/// of the other; with the switch off nothing is written.
pub proof fn law_ambient_values_are_written_independently(
    apply: bool,
    color_differs: bool,
    brightness_differs: bool,
)
    ensures
        apply ==> ambient_writes_for(apply, color_differs, brightness_differs).color
            == color_differs,
        apply ==> ambient_writes_for(apply, color_differs, brightness_differs).brightness
            == brightness_differs,
        !apply ==> !ambient_writes_for(apply, color_differs, brightness_differs).color
            && !ambient_writes_for(apply, color_differs, brightness_differs).brightness,
{
}

/// A skipped component counts for nothing and an update or an insert
/// counts as one write.
pub proof fn law_only_writes_are_counted(write: ComponentWrite)
    ensures
        write == ComponentWrite::Skip ==> counted(write) == 0,
        write == ComponentWrite::Update ==> counted(write) == 1,
        write == ComponentWrite::Insert ==> counted(write) == 1,
{
}

/// The writes to one managed directional light (sun or moon).
#[derive(Clone, Copy, Debug, PartialEq, Eq, Structural)]
pub struct LightWrites {
    pub direction: bool,
    pub color: bool,
    pub illuminance: bool,
    pub shadows: bool,
}

impl LightWrites {
    /// Whether anything is written to the light.
    pub open spec fn any(self) -> bool {
        self.direction || self.color || self.illuminance || self.shadows
    }
}

/// Decides the writes to a managed light: the direction, color and
/// intensity when they differ from the resolved ones beyond the write
/// thresholds, and the shadow switch whenever it differs from the resolved
/// one (it is never left behind). Returns whether anything was written.
pub fn light_writes(
    direction_differs: bool,
    color_differs: bool,
    illuminance_differs: bool,
    shadows_enabled: bool,
    resolved_shadows_enabled: bool,
) -> (r: (LightWrites, bool))
    ensures
        r.0 == (LightWrites {
            direction: direction_differs,
            color: color_differs,
            illuminance: illuminance_differs,
            shadows: shadows_enabled != resolved_shadows_enabled,
        }),
        r.1 == r.0.any(),
{
    let writes = LightWrites {
        direction: direction_differs,
        color: color_differs,
        illuminance: illuminance_differs,
        shadows: shadows_enabled != resolved_shadows_enabled,
    };
    let wrote = writes.direction || writes.color || writes.illuminance || writes.shadows;
    (writes, wrote)
}

/// The writes to the global ambient light.
#[derive(Clone, Copy, Debug, PartialEq, Eq, Structural)]
pub struct AmbientWrites {
    pub color: bool,
    pub brightness: bool,
}

/// The ambient writes for switch `apply` and the given differences.
pub open spec fn ambient_writes_for(apply: bool, color_differs: bool, brightness_differs: bool) -> AmbientWrites {
    AmbientWrites { color: apply && color_differs, brightness: apply && brightness_differs }
}

/// Decides the writes to the global ambient light: none when the runtime
/// leaves the ambient light to the consumer (`apply` off); otherwise the
/// color and the brightness when they differ beyond the write thresholds.
/// Returns whether anything was written.
pub fn ambient_writes(apply: bool, color_differs: bool, brightness_differs: bool) -> (r: (
    AmbientWrites,
    bool,
))
    ensures
        r.0 == ambient_writes_for(apply, color_differs, brightness_differs),
        r.0.color == (apply && color_differs),
        r.0.brightness == (apply && brightness_differs),
        r.1 == (r.0.color || r.0.brightness),
{
    let writes = AmbientWrites {
        color: apply && color_differs,
        brightness: apply && brightness_differs,
    };
    (writes, writes.color || writes.brightness)
}

/// Whether a light casts shadows: its switch is on and it is both high
/// enough above the horizon and bright enough, by the shadow settings'
/// minimum elevation and minimum illuminance.
pub fn shadow_switch(enabled: bool, high_enough: bool, bright_enough: bool) -> (r: bool)
    ensures
        r == (enabled && high_enough && bright_enough),
{
    enabled && high_enough && bright_enough
}

/// With the ambient switch off the ambient light is never written,
/// whatever the resolved lighting; with it on, an ambient light that
/// matches is not rewritten.
pub proof fn law_switched_off_ambient_is_left_alone(color_differs: bool, brightness_differs: bool)
    ensures
        ambient_writes_for(false, color_differs, brightness_differs) == (AmbientWrites {
            color: false,
            brightness: false,
        }),
        ambient_writes_for(true, false, false) == (AmbientWrites { color: false, brightness: false }),
{
}

} // verus!
