use fluid_simulation::controls::{
    InputEvent, KeyCode, Parameter, ParametersControls, STEP_COARSE, STEP_FINE, STEP_MEDIUM,
    STEP_SCALE,
};
use fluid_simulation::parameters::SimulationParameters;

const BOUND: [KeyCode; 17] = [
    KeyCode::ArrowLeft,
    KeyCode::ArrowRight,
    KeyCode::KeyA,
    KeyCode::KeyS,
    KeyCode::KeyG,
    KeyCode::KeyP,
    KeyCode::KeyR,
    KeyCode::KeyW,
    KeyCode::KeyZ,
    KeyCode::KeyV,
    KeyCode::KeyB,
    KeyCode::KeyT,
    KeyCode::KeyY,
    KeyCode::KeyU,
    KeyCode::KeyI,
    KeyCode::KeyN,
    KeyCode::KeyX,
];

fn press(c: &mut ParametersControls, key: KeyCode) -> bool {
    c.process_events(&InputEvent::Keyboard { key, pressed: true })
}

fn release(c: &mut ParametersControls, key: KeyCode) -> bool {
    c.process_events(&InputEvent::Keyboard { key, pressed: false })
}

fn held(keys: &[KeyCode]) -> ParametersControls {
    let mut c = ParametersControls::new();
    for key in keys {
        assert!(press(&mut c, *key));
    }
    c
}

#[test]
fn new_controls_hold_no_key() {
    let c = ParametersControls::new();
    for key in BOUND {
        assert!(!c.key_is_pressed(key));
    }
    assert!(!c.key_is_pressed(KeyCode::Other));
    assert_eq!(c.selection(), None);
}

#[test]
fn default_controls_hold_no_key() {
    let c = ParametersControls::default();
    for key in BOUND {
        assert!(!c.key_is_pressed(key));
    }
    assert_eq!(c.selection(), None);
}

#[test]
fn each_key_of_the_controls_is_handled_alone() {
    for key in BOUND {
        let mut c = ParametersControls::new();
        assert!(press(&mut c, key));
        for other in BOUND {
            assert_eq!(c.key_is_pressed(other), other == key);
        }
        assert!(release(&mut c, key));
        for other in BOUND {
            assert!(!c.key_is_pressed(other));
        }
    }
}

#[test]
fn other_keys_and_other_events_are_not_handled() {
    let mut c = held(&[KeyCode::KeyG, KeyCode::ArrowRight]);
    assert!(!press(&mut c, KeyCode::Other));
    assert!(!release(&mut c, KeyCode::Other));
    assert!(!c.process_events(&InputEvent::Other));
    assert!(c.key_is_pressed(KeyCode::KeyG));
    assert!(c.key_is_pressed(KeyCode::ArrowRight));
    assert!(!c.key_is_pressed(KeyCode::Other));
}

#[test]
fn releasing_a_key_keeps_the_others() {
    let mut c = held(&[KeyCode::KeyA, KeyCode::KeyN, KeyCode::ArrowLeft]);
    assert!(release(&mut c, KeyCode::KeyA));
    assert!(!c.key_is_pressed(KeyCode::KeyA));
    assert!(c.key_is_pressed(KeyCode::KeyN));
    assert!(c.key_is_pressed(KeyCode::ArrowLeft));
}

#[test]
fn each_key_selects_its_quantity() {
    let table = [
        (KeyCode::KeyA, Parameter::PressureMultiplier),
        (KeyCode::KeyG, Parameter::Gravity),
        (KeyCode::KeyP, Parameter::PolyKernelRadius),
        (KeyCode::KeyS, Parameter::PressureKernelRadius),
        (KeyCode::KeyX, Parameter::NearPressureKernelRadius),
        (KeyCode::KeyR, Parameter::RestDensity),
        (KeyCode::KeyW, Parameter::SceneScaleFactor),
        (KeyCode::KeyZ, Parameter::GridSize),
        (KeyCode::KeyV, Parameter::Viscosity),
        (KeyCode::KeyB, Parameter::ViscosityKernelRadius),
        (KeyCode::KeyT, Parameter::SurfaceTension),
        (KeyCode::KeyY, Parameter::CohesionCoef),
        (KeyCode::KeyU, Parameter::CurvatureCef),
        (KeyCode::KeyI, Parameter::AdhesionCef),
        (KeyCode::KeyN, Parameter::NearPressureMultiplier),
    ];
    for (i, (key, parameter)) in table.iter().enumerate() {
        assert_eq!(held(&[*key]).selection(), Some(*parameter));
        for (later, _) in table.iter().skip(i + 1) {
            assert_eq!(held(&[*later, *key]).selection(), Some(*parameter));
        }
    }
    assert_eq!(held(&[KeyCode::ArrowLeft, KeyCode::ArrowRight]).selection(), None);
}

#[test]
fn the_arrows_give_the_direction() {
    let base = SimulationParameters::default();
    let mut p = base;
    let changed = held(&[KeyCode::KeyA, KeyCode::ArrowRight]).update(&mut p);
    assert_eq!(changed, Some(Parameter::PressureMultiplier));
    assert_eq!(p.pressure_multiplier, base.pressure_multiplier + 6553);
    let mut p = base;
    held(&[KeyCode::KeyA, KeyCode::ArrowLeft]).update(&mut p);
    assert_eq!(p.pressure_multiplier, base.pressure_multiplier - 6553);
    let mut p = base;
    held(&[KeyCode::KeyA, KeyCode::ArrowLeft, KeyCode::ArrowRight]).update(&mut p);
    assert_eq!(p.pressure_multiplier, base.pressure_multiplier - 6553);
    let mut p = base;
    assert_eq!(held(&[KeyCode::KeyA]).update(&mut p), Some(Parameter::PressureMultiplier));
    assert_eq!(p, base);
}

#[test]
fn each_quantity_moves_by_its_step_and_nothing_else_changes() {
    assert_eq!((STEP_COARSE, STEP_MEDIUM, STEP_FINE, STEP_SCALE), (6553, 655, 327, 6));
    let mut base = SimulationParameters::default();
    base.grid_size = 2 * 65536;
    assert!(base.is_valid());
    let cases: Vec<(KeyCode, Box<dyn Fn(&mut SimulationParameters) -> &mut i64>, i64)> = vec![
        (KeyCode::KeyA, Box::new(|p| &mut p.pressure_multiplier), 6553),
        (KeyCode::KeyG, Box::new(|p| &mut p.gravity.y), 6553),
        (KeyCode::KeyP, Box::new(|p| &mut p.poly_kernel_radius), 327),
        (KeyCode::KeyS, Box::new(|p| &mut p.pressure_kernel_radius), 327),
        (KeyCode::KeyX, Box::new(|p| &mut p.near_pressure_kernel_radius), 327),
        (KeyCode::KeyR, Box::new(|p| &mut p.rest_density), 6553),
        (KeyCode::KeyW, Box::new(|p| &mut p.scene_scale_factor), 6),
        (KeyCode::KeyZ, Box::new(|p| &mut p.grid_size), 655),
        (KeyCode::KeyV, Box::new(|p| &mut p.viscosity), 655),
        (KeyCode::KeyB, Box::new(|p| &mut p.viscosity_kernel_radius), 327),
        (KeyCode::KeyY, Box::new(|p| &mut p.cohesion_coef), 6553),
        (KeyCode::KeyU, Box::new(|p| &mut p.curvature_cef), 6553),
        (KeyCode::KeyI, Box::new(|p| &mut p.adhesion_cef), 6553),
        (KeyCode::KeyN, Box::new(|p| &mut p.near_pressure_multiplier), 6553),
    ];
    for (key, field, step) in cases.iter() {
        let mut got = base;
        held(&[*key, KeyCode::ArrowRight]).update(&mut got);
        let mut expected = base;
        *field(&mut expected) += step;
        assert_eq!(got, expected);
        let mut got = base;
        held(&[*key, KeyCode::ArrowLeft]).update(&mut got);
        let mut expected = base;
        *field(&mut expected) -= step;
        assert_eq!(got, expected);
    }
}

#[test]
fn surface_tension_is_selected_but_changes_nothing() {
    let base = SimulationParameters::default();
    let mut p = base;
    let changed = held(&[KeyCode::KeyT, KeyCode::KeyN, KeyCode::ArrowRight]).update(&mut p);
    assert_eq!(changed, Some(Parameter::SurfaceTension));
    assert_eq!(p, base);
}

#[test]
fn without_a_selection_nothing_changes() {
    let base = SimulationParameters::default();
    let mut p = base;
    assert_eq!(held(&[KeyCode::ArrowRight]).update(&mut p), None);
    assert_eq!(p, base);
    assert_eq!(ParametersControls::new().update(&mut p), None);
    assert_eq!(p, base);
}

#[test]
fn an_adjustment_saturates() {
    let mut p = SimulationParameters::default();
    p.rest_density = i64::MAX - 5;
    held(&[KeyCode::KeyR, KeyCode::ArrowRight]).update(&mut p);
    assert_eq!(p.rest_density, i64::MAX);
    p.gravity.y = i64::MIN + 1;
    held(&[KeyCode::KeyG, KeyCode::ArrowLeft]).update(&mut p);
    assert_eq!(p.gravity.y, i64::MIN);
}

#[test]
fn a_radius_is_not_lowered_to_zero_or_below() {
    for radius in [1, 327] {
        let mut p = SimulationParameters::default();
        p.poly_kernel_radius = radius;
        assert!(p.is_valid());
        let before = p;
        let changed = held(&[KeyCode::KeyP, KeyCode::ArrowLeft]).update(&mut p);
        assert_eq!(changed, Some(Parameter::PolyKernelRadius));
        assert_eq!(p, before);
        assert!(p.is_valid());
    }
    let mut p = SimulationParameters::default();
    p.poly_kernel_radius = 328;
    held(&[KeyCode::KeyP, KeyCode::ArrowLeft]).update(&mut p);
    assert_eq!(p.poly_kernel_radius, 1);
    assert!(p.is_valid());
}

#[test]
fn a_radius_is_not_raised_above_the_cell_size() {
    let base = SimulationParameters::default();
    for key in [KeyCode::KeyP, KeyCode::KeyS, KeyCode::KeyX, KeyCode::KeyB] {
        let mut p = base;
        held(&[key, KeyCode::ArrowRight]).update(&mut p);
        assert_eq!(p, base);
        held(&[key, KeyCode::ArrowLeft]).update(&mut p);
        assert!(p.is_valid());
        assert_ne!(p, base);
    }
}

#[test]
fn the_cell_size_is_not_lowered_below_a_radius() {
    let base = SimulationParameters::default();
    let mut p = base;
    held(&[KeyCode::KeyZ, KeyCode::ArrowLeft]).update(&mut p);
    assert_eq!(p, base);
    held(&[KeyCode::KeyZ, KeyCode::ArrowRight]).update(&mut p);
    assert_eq!(p.grid_size, base.grid_size + 655);
    held(&[KeyCode::KeyZ, KeyCode::ArrowLeft]).update(&mut p);
    assert_eq!(p, base);
}

#[test]
fn a_valid_configuration_stays_valid_under_every_key() {
    let mut p = SimulationParameters::default();
    for round in 0..400 {
        for key in BOUND {
            let arrow = if round % 3 == 0 { KeyCode::ArrowRight } else { KeyCode::ArrowLeft };
            held(&[key, arrow]).update(&mut p);
            assert!(p.is_valid());
        }
    }
}

#[test]
fn an_invalid_configuration_is_still_adjusted() {
    let mut p = SimulationParameters::default();
    p.poly_kernel_radius = -654;
    assert!(!p.is_valid());
    held(&[KeyCode::KeyP, KeyCode::ArrowRight]).update(&mut p);
    assert_eq!(p.poly_kernel_radius, -327);
    held(&[KeyCode::KeyP, KeyCode::ArrowRight]).update(&mut p);
    held(&[KeyCode::KeyP, KeyCode::ArrowRight]).update(&mut p);
    assert_eq!(p.poly_kernel_radius, 327);
    assert!(p.is_valid());
}
