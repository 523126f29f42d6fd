use fluid_simulation::fixed::ONE;
use fluid_simulation::parameters::{
    BoundingBoxUniform, ParameterStore, SimulationParameters, DEFAULT_GRID_SIZE,
};
use fluid_simulation::vector::Vector3;

#[test]
fn the_default_configuration() {
    let p = SimulationParameters::default();
    assert_eq!(p.bounding_box.position1, Vector3 { x: 0, y: 0, z: 0 });
    assert_eq!(p.bounding_box.position2, Vector3 { x: 1600 * ONE, y: 900 * ONE, z: ONE });
    assert_eq!(p.gravity, Vector3 { x: 0, y: -15 * ONE, z: 0 });
    assert_eq!(p.particle_mass, ONE);
    assert_eq!(p.particle_radius, 3 * ONE / 2);
    assert_eq!(p.particles_amount, 16384);
    assert_eq!(p.collision_damping, 58982);
    assert_eq!(p.viscosity, 3276);
    assert_eq!(p.cohesion_coef, ONE);
    assert_eq!(p.curvature_cef, ONE);
    assert_eq!(p.adhesion_cef, ONE);
    assert_eq!(p.rest_density, 35 * ONE);
    assert_eq!(p.pressure_multiplier, 1300 * ONE);
    assert_eq!(p.near_pressure_multiplier, 110 * ONE);
    assert_eq!(p.grid_size, 39321);
    assert_eq!(DEFAULT_GRID_SIZE, 39321);
    assert_eq!(p.vorticity_inensity, ONE / 2);
    assert_eq!(p.time_scale, 546);
    assert_eq!(p.velocity_smoothing_scale, 2293);
    for radius in [
        p.poly_kernel_radius,
        p.pressure_kernel_radius,
        p.near_pressure_kernel_radius,
        p.viscosity_kernel_radius,
        p.vorticity_kernel_radius,
        p.cohesion_kernel_radius,
        p.adhesion_kernel_radius,
        p.surface_normal_kernel_radius,
    ] {
        assert_eq!(radius, p.grid_size);
    }
}

#[test]
fn the_default_scene_scale_is_fifty_over_the_diagonal() {
    let p = SimulationParameters::default();
    assert_eq!(p.scene_scale_factor, 1784);
}

#[test]
fn the_default_configuration_is_valid() {
    assert!(SimulationParameters::default().is_valid());
}

#[test]
fn a_radius_must_be_positive_and_fit_a_cell() {
    let base = SimulationParameters::default();
    let mut p = base;
    p.poly_kernel_radius = 0;
    assert!(!p.is_valid());
    let mut p = base;
    p.viscosity_kernel_radius = -1;
    assert!(!p.is_valid());
    let mut p = base;
    p.surface_normal_kernel_radius = p.grid_size + 1;
    assert!(!p.is_valid());
    let mut p = base;
    p.grid_size = p.grid_size - 1;
    assert!(!p.is_valid());
    let mut p = base;
    p.grid_size = p.grid_size + 1;
    assert!(p.is_valid());
    for which in 0..8 {
        let mut p = base;
        let radius = match which {
            0 => &mut p.poly_kernel_radius,
            1 => &mut p.pressure_kernel_radius,
            2 => &mut p.near_pressure_kernel_radius,
            3 => &mut p.viscosity_kernel_radius,
            4 => &mut p.vorticity_kernel_radius,
            5 => &mut p.cohesion_kernel_radius,
            6 => &mut p.adhesion_kernel_radius,
            _ => &mut p.surface_normal_kernel_radius,
        };
        *radius = base.grid_size + 1;
        assert!(!p.is_valid());
        assert_eq!(p.max_radius(), base.grid_size + 1);
    }
}

#[test]
fn the_other_conditions_of_a_valid_configuration() {
    let base = SimulationParameters::default();
    let mut p = base;
    p.particles_amount = 0;
    assert!(!p.is_valid());
    let mut p = base;
    p.particle_mass = -1;
    assert!(!p.is_valid());
    p.particle_mass = 0;
    assert!(p.is_valid());
    let mut p = base;
    p.collision_damping = -1;
    assert!(!p.is_valid());
    p.collision_damping = ONE + 1;
    assert!(!p.is_valid());
    p.collision_damping = ONE;
    assert!(p.is_valid());
    p.collision_damping = 0;
    assert!(p.is_valid());
    let mut p = base;
    p.bounding_box.position1.y = p.bounding_box.position2.y + 1;
    assert!(!p.is_valid());
    p.bounding_box.position1.y = p.bounding_box.position2.y;
    assert!(p.is_valid());
}

#[test]
fn the_largest_radius() {
    let mut p = SimulationParameters::default();
    p.grid_size = 10 * ONE;
    p.poly_kernel_radius = 1;
    p.pressure_kernel_radius = 2;
    p.near_pressure_kernel_radius = 3;
    p.viscosity_kernel_radius = 9;
    p.vorticity_kernel_radius = 5;
    p.cohesion_kernel_radius = 6;
    p.adhesion_kernel_radius = 7;
    p.surface_normal_kernel_radius = 8;
    assert_eq!(p.max_radius(), 9);
}

#[test]
fn a_bounding_box_is_its_two_corners() {
    let b = BoundingBoxUniform::new(Vector3::new(1, 2, 3), Vector3::new(4, 5, 6));
    assert_eq!(b.position1, Vector3 { x: 1, y: 2, z: 3 });
    assert_eq!(b.position2, Vector3 { x: 4, y: 5, z: 6 });
    assert!(b.is_ordered());
    let inverted = BoundingBoxUniform::new(Vector3::new(1, 2, 7), Vector3::new(4, 5, 6));
    assert!(!inverted.is_ordered());
}

#[test]
fn a_store_starts_with_a_valid_configuration() {
    let mut wanted = SimulationParameters::default();
    wanted.particles_amount = 99;
    let store = ParameterStore::new(wanted);
    assert_eq!(store.read_snapshot(), wanted);
    let mut broken = wanted;
    broken.grid_size = -1;
    let store = ParameterStore::new(broken);
    assert_eq!(store.read_snapshot(), SimulationParameters::default());
}

#[test]
fn a_store_takes_valid_snapshots_only() {
    let mut store = ParameterStore::new(SimulationParameters::default());
    let mut next = SimulationParameters::default();
    next.viscosity = 12345;
    assert!(store.write(next));
    assert_eq!(store.read_snapshot(), next);
    let mut broken = next;
    broken.particles_amount = 0;
    assert!(!store.write(broken));
    assert_eq!(store.read_snapshot(), next);
}

#[test]
fn writing_a_snapshot_twice_is_writing_it_once() {
    let mut once = ParameterStore::new(SimulationParameters::default());
    let mut twice = ParameterStore::new(SimulationParameters::default());
    let mut next = SimulationParameters::default();
    next.rest_density = 7 * ONE;
    assert!(once.write(next));
    assert!(twice.write(next));
    assert!(twice.write(next));
    assert_eq!(once.read_snapshot(), twice.read_snapshot());
}

#[test]
fn a_snapshot_is_a_copy() {
    let mut store = ParameterStore::new(SimulationParameters::default());
    let snapshot = store.read_snapshot();
    let mut next = snapshot;
    next.time_scale = 1;
    assert!(store.write(next));
    assert_eq!(snapshot.time_scale, 546);
    assert_eq!(store.read_snapshot().time_scale, 1);
}
