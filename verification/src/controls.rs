//! The keyboard controls that adjust the configuration while a run goes on.
use vstd::prelude::*;
use crate::fixed::{saturate, sum};
use crate::parameters::SimulationParameters;

verus! {

/// A key of the keyboard, as far as the controls tell keys apart.
#[derive(Clone, Copy, Debug, PartialEq, Eq, Structural)]
pub enum KeyCode {
    ArrowLeft,
    ArrowRight,
    KeyA,
    KeyS,
    KeyG,
    KeyP,
    KeyR,
    KeyW,
    KeyZ,
    KeyV,
    KeyB,
    KeyT,
    KeyY,
    KeyU,
    KeyI,
    KeyN,
    KeyX,
    /// Any key that the controls do not use.
    Other,
}

/// An event of the window, as far as the controls tell events apart.
#[derive(Clone, Copy, Debug, PartialEq, Eq, Structural)]
pub enum InputEvent {
    /// A key went down (`pressed`) or up.
    Keyboard { key: KeyCode, pressed: bool },
    /// Any other event.
    Other,
}

/// A quantity that the controls adjust.
#[derive(Clone, Copy, Debug, PartialEq, Eq, Structural)]
pub enum Parameter {
    PressureMultiplier,
    Gravity,
    PolyKernelRadius,
    PressureKernelRadius,
    NearPressureKernelRadius,
    RestDensity,
    SceneScaleFactor,
    GridSize,
    Viscosity,
    ViscosityKernelRadius,
    /// Selected by its key, but the configuration has no such quantity of its
    /// own, so adjusting it changes nothing.
    SurfaceTension,
    CohesionCoef,
    CurvatureCef,
    AdhesionCef,
    NearPressureMultiplier,
}

/// A tenth, the step of most quantities.
pub const STEP_COARSE: i64 = 6553;

/// A hundredth, the step of the grid size and the viscosity.
pub const STEP_MEDIUM: i64 = 655;

/// Five thousandths, the step of a kernel radius.
pub const STEP_FINE: i64 = 327;

/// A ten-thousandth, the step of the scene scale factor.
pub const STEP_SCALE: i64 = 6;

/// The number of keys that the controls use.
pub const KEYS: usize = 17;

/// Which of the keys of the controls are held down.
#[derive(Clone, Copy, Debug)]
pub struct ParametersControls {
    /// One flag for each key, in the order of `slot`.
    held: [bool; 17],
}

/// The place of a key among the flags of the controls; a key that the
/// controls do not use has the place after the last.
pub open spec fn slot(key: KeyCode) -> int {
    match key {
        KeyCode::ArrowLeft => 0,
        KeyCode::ArrowRight => 1,
        KeyCode::KeyA => 2,
        KeyCode::KeyS => 3,
        KeyCode::KeyG => 4,
        KeyCode::KeyP => 5,
        KeyCode::KeyR => 6,
        KeyCode::KeyW => 7,
        KeyCode::KeyZ => 8,
        KeyCode::KeyV => 9,
        KeyCode::KeyB => 10,
        KeyCode::KeyT => 11,
        KeyCode::KeyY => 12,
        KeyCode::KeyU => 13,
        KeyCode::KeyI => 14,
        KeyCode::KeyN => 15,
        KeyCode::KeyX => 16,
        KeyCode::Other => 17,
    }
}

/// Computes the place of a key.
fn slot_of_key(key: KeyCode) -> (i: usize)
    ensures
        i == slot(key),
        i <= KEYS,
{
    match key {
        KeyCode::ArrowLeft => 0,
        KeyCode::ArrowRight => 1,
        KeyCode::KeyA => 2,
        KeyCode::KeyS => 3,
        KeyCode::KeyG => 4,
        KeyCode::KeyP => 5,
        KeyCode::KeyR => 6,
        KeyCode::KeyW => 7,
        KeyCode::KeyZ => 8,
        KeyCode::KeyV => 9,
        KeyCode::KeyB => 10,
        KeyCode::KeyT => 11,
        KeyCode::KeyY => 12,
        KeyCode::KeyU => 13,
        KeyCode::KeyI => 14,
        KeyCode::KeyN => 15,
        KeyCode::KeyX => 16,
        KeyCode::Other => 17,
    }
}

/// The step by which one press adjusts a quantity.
pub open spec fn step_of(parameter: Parameter) -> int {
    match parameter {
        Parameter::PolyKernelRadius
        | Parameter::PressureKernelRadius
        | Parameter::NearPressureKernelRadius
        | Parameter::ViscosityKernelRadius => STEP_FINE as int,
        Parameter::GridSize | Parameter::Viscosity => STEP_MEDIUM as int,
        Parameter::SceneScaleFactor => STEP_SCALE as int,
        _ => STEP_COARSE as int,
    }
}

/// The configuration with one quantity moved by its step in the given
/// direction (-1, 0 or 1), saturated; every other quantity as it was.
pub open spec fn adjusted(
    params: SimulationParameters,
    parameter: Parameter,
    direction: int,
) -> SimulationParameters {
    let delta = step_of(parameter) * direction;
    match parameter {
        Parameter::PressureMultiplier => SimulationParameters {
            pressure_multiplier: sum(params.pressure_multiplier as int, delta) as i64,
            ..params
        },
        Parameter::Gravity => SimulationParameters {
            gravity: crate::vector::Vector3 {
                y: sum(params.gravity.y as int, delta) as i64,
                ..params.gravity
            },
            ..params
        },
        Parameter::PolyKernelRadius => SimulationParameters {
            poly_kernel_radius: sum(params.poly_kernel_radius as int, delta) as i64,
            ..params
        },
        Parameter::PressureKernelRadius => SimulationParameters {
            pressure_kernel_radius: sum(params.pressure_kernel_radius as int, delta) as i64,
            ..params
        },
        Parameter::NearPressureKernelRadius => SimulationParameters {
            near_pressure_kernel_radius: sum(
                params.near_pressure_kernel_radius as int,
                delta,
            ) as i64,
            ..params
        },
        Parameter::RestDensity => SimulationParameters {
            rest_density: sum(params.rest_density as int, delta) as i64,
            ..params
        },
        Parameter::SceneScaleFactor => SimulationParameters {
            scene_scale_factor: sum(params.scene_scale_factor as int, delta) as i64,
            ..params
        },
        Parameter::GridSize => SimulationParameters {
            grid_size: sum(params.grid_size as int, delta) as i64,
            ..params
        },
        Parameter::Viscosity => SimulationParameters {
            viscosity: sum(params.viscosity as int, delta) as i64,
            ..params
        },
        Parameter::ViscosityKernelRadius => SimulationParameters {
            viscosity_kernel_radius: sum(params.viscosity_kernel_radius as int, delta) as i64,
            ..params
        },
        Parameter::SurfaceTension => params,
        Parameter::CohesionCoef => SimulationParameters {
            cohesion_coef: sum(params.cohesion_coef as int, delta) as i64,
            ..params
        },
        Parameter::CurvatureCef => SimulationParameters {
            curvature_cef: sum(params.curvature_cef as int, delta) as i64,
            ..params
        },
        Parameter::AdhesionCef => SimulationParameters {
            adhesion_cef: sum(params.adhesion_cef as int, delta) as i64,
            ..params
        },
        Parameter::NearPressureMultiplier => SimulationParameters {
            near_pressure_multiplier: sum(params.near_pressure_multiplier as int, delta) as i64,
            ..params
        },
    }
}

/// What an adjustment makes of a configuration: the quantity moved by its
/// step, unless that would make a valid configuration invalid, as a kernel
/// radius at or below zero or above the cell size would; then the
/// configuration stays as it is.
pub open spec fn applied(
    params: SimulationParameters,
    parameter: Parameter,
    direction: int,
) -> SimulationParameters {
    let moved = adjusted(params, parameter, direction);
    if params.valid() && !moved.valid() {
        params
    } else {
        moved
    }
}

/// An adjustment leaves a valid configuration valid.
pub proof fn lemma_applied_stays_valid(
    params: SimulationParameters,
    parameter: Parameter,
    direction: int,
)
    requires
        params.valid(),
    ensures
        applied(params, parameter, direction).valid(),
{
}

/// Moves a scalar by `step` in the given direction.
fn nudge(value: i64, step: i64, direction: i64) -> (r: i64)
    requires
        -1 <= direction <= 1,
        0 <= step <= 65536,
    ensures
        r == sum(value as int, step * direction),
{
    assert(-65536 <= step * direction <= 65536) by (nonlinear_arith)
        requires
            -1 <= direction <= 1,
            0 <= step <= 65536,
    ;
    saturate(value as i128 + (step * direction) as i128)
}

impl ParametersControls {
    /// Whether the controls hold `key` to be down. A key that the controls do
    /// not use is never down.
    pub closed spec fn is_pressed(self, key: KeyCode) -> bool {
        slot(key) < KEYS && self.held@[slot(key)]
    }

    /// The direction of an adjustment: down while the left arrow is held, up
    /// while only the right arrow is, none otherwise.
    pub open spec fn direction(self) -> int {
        if self.is_pressed(KeyCode::ArrowLeft) {
            -1
        } else if self.is_pressed(KeyCode::ArrowRight) {
            1
        } else {
            0
        }
    }

    /// The quantity that the held keys select: that of the first key held, in
    /// the order A, G, P, S, X, R, W, Z, V, B, T, Y, U, I, N.
    pub open spec fn selected(self) -> Option<Parameter> {
        if self.is_pressed(KeyCode::KeyA) {
            Some(Parameter::PressureMultiplier)
        } else if self.is_pressed(KeyCode::KeyG) {
            Some(Parameter::Gravity)
        } else if self.is_pressed(KeyCode::KeyP) {
            Some(Parameter::PolyKernelRadius)
        } else if self.is_pressed(KeyCode::KeyS) {
            Some(Parameter::PressureKernelRadius)
        } else if self.is_pressed(KeyCode::KeyX) {
            Some(Parameter::NearPressureKernelRadius)
        } else if self.is_pressed(KeyCode::KeyR) {
            Some(Parameter::RestDensity)
        } else if self.is_pressed(KeyCode::KeyW) {
            Some(Parameter::SceneScaleFactor)
        } else if self.is_pressed(KeyCode::KeyZ) {
            Some(Parameter::GridSize)
        } else if self.is_pressed(KeyCode::KeyV) {
            Some(Parameter::Viscosity)
        } else if self.is_pressed(KeyCode::KeyB) {
            Some(Parameter::ViscosityKernelRadius)
        } else if self.is_pressed(KeyCode::KeyT) {
            Some(Parameter::SurfaceTension)
        } else if self.is_pressed(KeyCode::KeyY) {
            Some(Parameter::CohesionCoef)
        } else if self.is_pressed(KeyCode::KeyU) {
            Some(Parameter::CurvatureCef)
        } else if self.is_pressed(KeyCode::KeyI) {
            Some(Parameter::AdhesionCef)
        } else if self.is_pressed(KeyCode::KeyN) {
            Some(Parameter::NearPressureMultiplier)
        } else {
            None
        }
    }

    /// Controls with no key held.
    pub fn new() -> (c: ParametersControls)
        ensures
            forall|key: KeyCode| !c.is_pressed(key),
            c.selected() is None,
            c.direction() == 0,
    {
        ParametersControls { held: [false; 17] }
    }

    /// Whether the controls hold `key` to be down.
    pub fn key_is_pressed(&self, key: KeyCode) -> (b: bool)
        ensures
            b == self.is_pressed(key),
    {
        let i = slot_of_key(key);
        i < KEYS && self.held[i]
    }

    /// Takes note of an event. A keyboard event for a key of the controls sets
    /// whether that key is down, and is reported as handled; any other event
    /// changes nothing and is not.
    pub fn process_events(&mut self, event: &InputEvent) -> (handled: bool)
        ensures
            handled == (*event matches InputEvent::Keyboard { key, .. } && key != KeyCode::Other),
            forall|k: KeyCode|
                #![trigger final(self).is_pressed(k)]
                final(self).is_pressed(k) == match *event {
                    InputEvent::Keyboard { key, pressed } if key == k && k != KeyCode::Other => {
                        pressed
                    },
                    _ => old(self).is_pressed(k),
                },
    {
        match *event {
            InputEvent::Keyboard { key, pressed } => {
                let i = slot_of_key(key);
                if i < KEYS {
                    self.held[i] = pressed;
                    true
                } else {
                    false
                }
            },
            InputEvent::Other => false,
        }
    }

    /// The quantity that the held keys select.
    pub fn selection(&self) -> (p: Option<Parameter>)
        ensures
            p == self.selected(),
    {
        if self.key_is_pressed(KeyCode::KeyA) {
            Some(Parameter::PressureMultiplier)
        } else if self.key_is_pressed(KeyCode::KeyG) {
            Some(Parameter::Gravity)
        } else if self.key_is_pressed(KeyCode::KeyP) {
            Some(Parameter::PolyKernelRadius)
        } else if self.key_is_pressed(KeyCode::KeyS) {
            Some(Parameter::PressureKernelRadius)
        } else if self.key_is_pressed(KeyCode::KeyX) {
            Some(Parameter::NearPressureKernelRadius)
        } else if self.key_is_pressed(KeyCode::KeyR) {
            Some(Parameter::RestDensity)
        } else if self.key_is_pressed(KeyCode::KeyW) {
            Some(Parameter::SceneScaleFactor)
        } else if self.key_is_pressed(KeyCode::KeyZ) {
            Some(Parameter::GridSize)
        } else if self.key_is_pressed(KeyCode::KeyV) {
            Some(Parameter::Viscosity)
        } else if self.key_is_pressed(KeyCode::KeyB) {
            Some(Parameter::ViscosityKernelRadius)
        } else if self.key_is_pressed(KeyCode::KeyT) {
            Some(Parameter::SurfaceTension)
        } else if self.key_is_pressed(KeyCode::KeyY) {
            Some(Parameter::CohesionCoef)
        } else if self.key_is_pressed(KeyCode::KeyU) {
            Some(Parameter::CurvatureCef)
        } else if self.key_is_pressed(KeyCode::KeyI) {
            Some(Parameter::AdhesionCef)
        } else if self.key_is_pressed(KeyCode::KeyN) {
            Some(Parameter::NearPressureMultiplier)
        } else {
            None
        }
    }

    /// Adjusts the configuration by what is held: the selected quantity moves
    /// by its step in the held direction, unless that would make a valid
    /// configuration invalid; then nothing changes. Returns the quantity
    /// selected, so that its value can be shown; with none selected nothing
    /// changes either.
    pub fn update(&self, params: &mut SimulationParameters) -> (changed: Option<Parameter>)
        ensures
            changed == self.selected(),
            *final(params) == match self.selected() {
                Some(parameter) => applied(*old(params), parameter, self.direction()),
                None => *old(params),
            },
            old(params).valid() ==> final(params).valid(),
    {
        let before = *params;
        let direction: i64 = if self.key_is_pressed(KeyCode::ArrowLeft) {
            -1
        } else if self.key_is_pressed(KeyCode::ArrowRight) {
            1
        } else {
            0
        };
        let selection = self.selection();
        match selection {
            Some(Parameter::PressureMultiplier) => {
                params.pressure_multiplier = nudge(
                    params.pressure_multiplier,
                    STEP_COARSE,
                    direction,
                );
            },
            Some(Parameter::Gravity) => {
                params.gravity.y = nudge(params.gravity.y, STEP_COARSE, direction);
            },
            Some(Parameter::PolyKernelRadius) => {
                params.poly_kernel_radius = nudge(params.poly_kernel_radius, STEP_FINE, direction);
            },
            Some(Parameter::PressureKernelRadius) => {
                params.pressure_kernel_radius = nudge(
                    params.pressure_kernel_radius,
                    STEP_FINE,
                    direction,
                );
            },
            Some(Parameter::NearPressureKernelRadius) => {
                params.near_pressure_kernel_radius = nudge(
                    params.near_pressure_kernel_radius,
                    STEP_FINE,
                    direction,
                );
            },
            Some(Parameter::RestDensity) => {
                params.rest_density = nudge(params.rest_density, STEP_COARSE, direction);
            },
            Some(Parameter::SceneScaleFactor) => {
                params.scene_scale_factor = nudge(params.scene_scale_factor, STEP_SCALE, direction);
            },
            Some(Parameter::GridSize) => {
                params.grid_size = nudge(params.grid_size, STEP_MEDIUM, direction);
            },
            Some(Parameter::Viscosity) => {
                params.viscosity = nudge(params.viscosity, STEP_MEDIUM, direction);
            },
            Some(Parameter::ViscosityKernelRadius) => {
                params.viscosity_kernel_radius = nudge(
                    params.viscosity_kernel_radius,
                    STEP_FINE,
                    direction,
                );
            },
            Some(Parameter::SurfaceTension) => {},
            Some(Parameter::CohesionCoef) => {
                params.cohesion_coef = nudge(params.cohesion_coef, STEP_COARSE, direction);
            },
            Some(Parameter::CurvatureCef) => {
                params.curvature_cef = nudge(params.curvature_cef, STEP_COARSE, direction);
            },
            Some(Parameter::AdhesionCef) => {
                params.adhesion_cef = nudge(params.adhesion_cef, STEP_COARSE, direction);
            },
            Some(Parameter::NearPressureMultiplier) => {
                params.near_pressure_multiplier = nudge(
                    params.near_pressure_multiplier,
                    STEP_COARSE,
                    direction,
                );
            },
            None => {},
        }
        if before.is_valid() && !params.is_valid() {
            *params = before;
        }
        selection
    }
}

impl Default for ParametersControls {
    /// Controls with no key held.
    fn default() -> (c: ParametersControls)
        ensures
            forall|key: KeyCode| !c.is_pressed(key),
    {
        ParametersControls::new()
    }
}

} // verus!
