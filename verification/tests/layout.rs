use fluid_simulation::fixed::ONE;
use fluid_simulation::geometry::{circle_indices, SEGMENTS};
use fluid_simulation::parameters::{BoundingBoxUniform, SimulationParameters};
use fluid_simulation::particle::{
    side_of_layout, Particle, ParticlesState, COLOR_BLUE, COLOR_GREEN, LAYOUT_MARGIN,
};
use fluid_simulation::simulation::Simulation;
use fluid_simulation::vector::{Vector3, Vector4};

#[test]
fn the_side_of_the_layout_is_the_root_rounded_up() {
    assert_eq!(side_of_layout(0), 0);
    assert_eq!(side_of_layout(1), 1);
    assert_eq!(side_of_layout(2), 2);
    assert_eq!(side_of_layout(4), 2);
    assert_eq!(side_of_layout(5), 3);
    assert_eq!(side_of_layout(9), 3);
    assert_eq!(side_of_layout(10), 4);
    assert_eq!(side_of_layout(16), 4);
    assert_eq!(side_of_layout(17), 5);
    assert_eq!(side_of_layout(10000), 100);
    assert_eq!(side_of_layout(16384), 128);
    assert_eq!(side_of_layout(u32::MAX), 65536);
}

#[test]
fn ten_particles_fill_a_grid_of_four_columns() {
    let mut params = SimulationParameters::default();
    params.particles_amount = 10;
    let state = ParticlesState::new(&params);
    assert_eq!(state.particles.len(), 10);
    let position = |i: usize| state.particles[i].position;
    assert_eq!(position(0), Vector3 { x: 51838976, y: 28901376, z: 0 });
    assert_eq!(position(1), Vector3 { x: 52232192, y: 28901376, z: 0 });
    assert_eq!(position(3), Vector3 { x: 53018624, y: 28901376, z: 0 });
    assert_eq!(position(4), Vector3 { x: 51838976, y: 29294592, z: 0 });
    assert_eq!(position(9), Vector3 { x: 52232192, y: 29687808, z: 0 });
}

#[test]
fn the_layout_is_centred_and_evenly_spaced() {
    let mut params = SimulationParameters::default();
    params.particles_amount = 16;
    let state = ParticlesState::new(&params);
    let spacing = 2 * params.particle_radius + LAYOUT_MARGIN;
    assert_eq!(spacing, 6 * ONE);
    let first = state.particles[0].position;
    let last = state.particles[15].position;
    assert_eq!(first.x + last.x, 1600 * ONE);
    assert_eq!(first.y + last.y, 900 * ONE);
    for i in 0..16usize {
        let p = state.particles[i].position;
        assert_eq!(p.x - first.x, (i as i64 % 4) * spacing);
        assert_eq!(p.y - first.y, (i as i64 / 4) * spacing);
    }
}

#[test]
fn particles_start_at_rest_in_one_colour() {
    let mut params = SimulationParameters::default();
    params.particles_amount = 7;
    params.bounding_box = BoundingBoxUniform::new(
        Vector3::new(-10 * ONE, -10 * ONE, 3),
        Vector3::new(10 * ONE, 30 * ONE, 9),
    );
    let state = ParticlesState::new(&params);
    for p in state.particles.iter() {
        assert_eq!(p.velocity, Vector3::zero());
        assert_eq!(p.color, Vector4 { x: 0, y: COLOR_GREEN, z: COLOR_BLUE, w: ONE });
        assert_eq!(p.position.z, 0);
    }
    assert_eq!(state.particles[4].position, Vector3 { x: 0, y: 10 * ONE, z: 0 });
}

#[test]
fn the_layout_lies_in_the_plane_of_zero_whatever_the_box() {
    let mut params = SimulationParameters::default();
    params.particles_amount = 1;
    params.bounding_box = BoundingBoxUniform::new(
        Vector3::new(-4 * ONE, -6 * ONE, -5 * ONE),
        Vector3::new(8 * ONE, 2 * ONE, 9 * ONE),
    );
    let state = ParticlesState::new(&params);
    assert_eq!(state.particles[0].position, Vector3 { x: 2 * ONE, y: -2 * ONE, z: 0 });
    params.particles_amount = 9;
    let state = ParticlesState::new(&params);
    let sum = state.particles.iter().fold((0i64, 0i64, 0i64), |s, p| {
        (s.0 + p.position.x, s.1 + p.position.y, s.2 + p.position.z)
    });
    assert_eq!(sum, (9 * 2 * ONE, 9 * -2 * ONE, 0));
}

#[test]
fn the_derived_fields_start_at_zero() {
    let mut params = SimulationParameters::default();
    params.particles_amount = 5;
    let state = ParticlesState::new(&params);
    assert_eq!(state.density_field, vec![0; 5]);
    assert_eq!(state.near_density_field, vec![0; 5]);
    assert_eq!(state.predicted_positions, vec![Vector3::zero(); 5]);
    assert_eq!(state.surface_normals, vec![Vector3::zero(); 5]);
    assert_eq!(state.vorticities, vec![Vector3::zero(); 5]);
}

#[test]
fn the_layout_saturates_instead_of_overflowing() {
    let mut params = SimulationParameters::default();
    params.particles_amount = 4;
    params.bounding_box = BoundingBoxUniform::new(
        Vector3::new(i64::MAX, i64::MIN, 0),
        Vector3::new(i64::MAX, i64::MIN, 0),
    );
    let state = ParticlesState::new(&params);
    assert_eq!(state.particles[0].position.x, i64::MAX - 3 * ONE);
    assert_eq!(state.particles[1].position.x, i64::MAX);
    assert_eq!(state.particles[0].position.y, i64::MIN);
    assert_eq!(state.particles[2].position.y, i64::MIN + 3 * ONE);
    params.particle_radius = i64::MAX;
    let wide = ParticlesState::new(&params);
    assert_eq!(wide.particles[1].position.x, i64::MAX);
    assert_eq!(wide.particles[0].position.x, i64::MAX / 2);
}

#[test]
fn a_new_run_has_its_particles_and_tables() {
    let mut params = SimulationParameters::default();
    params.particles_amount = 9;
    let run = Simulation::new(&params);
    assert_eq!(run.particles_state.particles.len(), 9);
    assert_eq!(run.sort_state.grid_state.key_cell_hash.len(), 9);
    assert_eq!(run.sort_state.grid_state.cell_start.len(), 9);
    assert!(run.accelerations.is_empty());
    assert_eq!(
        run.particles_state.particles[4].position,
        Vector3 { x: 800 * ONE, y: 450 * ONE, z: 0 }
    );
}

#[test]
fn a_particle_holds_what_it_is_made_of() {
    let p = Particle::new(Vector3::new(1, 2, 3), Vector3::new(4, 5, 6), Vector4::new(7, 8, 9, 10));
    assert_eq!(p.position, Vector3 { x: 1, y: 2, z: 3 });
    assert_eq!(p.velocity, Vector3 { x: 4, y: 5, z: 6 });
    assert_eq!(p.color, Vector4 { x: 7, y: 8, z: 9, w: 10 });
}

#[test]
fn the_disc_is_a_fan_of_triangles() {
    assert_eq!(SEGMENTS, 32);
    assert_eq!(circle_indices(0), Vec::<u16>::new());
    assert_eq!(circle_indices(3), vec![1, 2, 0, 2, 3, 0, 3, 4, 0]);
    let indices = circle_indices(SEGMENTS);
    assert_eq!(indices.len(), 96);
    assert_eq!(indices[93], 32);
    assert_eq!(indices[94], 33);
    assert_eq!(indices[95], 0);
    let most = circle_indices(65534);
    assert_eq!(most.len(), 3 * 65534);
    assert_eq!(most[3 * 65533], 65534);
    assert_eq!(most[3 * 65533 + 1], 65535);
    assert_eq!(most[3 * 65533 + 2], 0);
}
