use fluid_simulation::fixed::ONE;
use fluid_simulation::parameters::{BoundingBoxUniform, SimulationParameters};
use fluid_simulation::particle::{Particle, ParticlesState};
use fluid_simulation::schedule::Stage;
use fluid_simulation::search::NeighbourSearchSortState;
use fluid_simulation::simulation::Simulation;
use fluid_simulation::vector::{Vector3, Vector4};

fn unit_box_parameters() -> SimulationParameters {
    let mut params = SimulationParameters::default();
    params.scene_scale_factor = ONE;
    params.grid_size = ONE;
    params.poly_kernel_radius = ONE;
    params.pressure_kernel_radius = ONE;
    params.near_pressure_kernel_radius = ONE;
    params.viscosity_kernel_radius = ONE;
    params.vorticity_kernel_radius = ONE;
    params.cohesion_kernel_radius = ONE;
    params.adhesion_kernel_radius = ONE;
    params.surface_normal_kernel_radius = ONE;
    params.bounding_box =
        BoundingBoxUniform::new(Vector3::new(0, 0, 0), Vector3::new(100 * ONE, 100 * ONE, ONE));
    params
}

fn force_free_parameters() -> SimulationParameters {
    let mut params = unit_box_parameters();
    params.gravity = Vector3::zero();
    params.viscosity = 0;
    params.pressure_multiplier = 0;
    params.near_pressure_multiplier = 0;
    params.cohesion_coef = 0;
    params.curvature_cef = 0;
    params.adhesion_cef = 0;
    params.vorticity_inensity = 0;
    params.velocity_smoothing_scale = 0;
    params
}

fn run_of(particles: Vec<(Vector3, Vector3)>) -> Simulation {
    let n = particles.len();
    Simulation {
        particles_state: ParticlesState {
            particles: particles
                .into_iter()
                .map(|(p, v)| Particle::new(p, v, Vector4::new(0, 0, 0, ONE)))
                .collect(),
            density_field: vec![0; n],
            near_density_field: vec![0; n],
            predicted_positions: vec![Vector3::zero(); n],
            surface_normals: vec![Vector3::zero(); n],
            vorticities: vec![Vector3::zero(); n],
        },
        sort_state: NeighbourSearchSortState::new(n as u32),
        accelerations: Vec::new(),
    }
}

fn scattered(count: u32, span: i64, speed: i64) -> Vec<(Vector3, Vector3)> {
    let mut out = Vec::new();
    let mut state: u64 = 2024;
    let mut next = |range: i64| -> i64 {
        state = state.wrapping_mul(6364136223846793005).wrapping_add(1442695040888963407);
        ((state >> 33) % (range as u64)) as i64
    };
    for _ in 0..count {
        let p = Vector3::new(45 * ONE + next(span), 45 * ONE + next(span), next(ONE));
        let v = Vector3::new(next(2 * speed) - speed, next(2 * speed) - speed, 0);
        out.push((p, v));
    }
    out
}

fn energy(run: &Simulation) -> i128 {
    run.particles_state
        .particles
        .iter()
        .map(|p| {
            let v = p.velocity;
            let (x, y, z) = (v.x as i128, v.y as i128, v.z as i128);
            x * x + y * y + z * z
        })
        .sum()
}

#[test]
fn a_particle_below_the_floor_is_put_on_it_and_bounces() {
    let mut params = unit_box_parameters();
    params.gravity = Vector3::zero();
    params.adhesion_cef = 0;
    params.collision_damping = ONE / 2;
    let mut run = run_of(vec![(Vector3::new(50 * ONE, -ONE, 0), Vector3::new(0, -2 * ONE, 0))]);
    run.step(&params);
    let p = run.particles_state.particles[0];
    assert_eq!(p.position, Vector3 { x: 50 * ONE, y: 0, z: 0 });
    assert_eq!(p.velocity, Vector3 { x: 0, y: ONE, z: 0 });
}

#[test]
fn a_lone_particle_falls_freely() {
    let mut params = unit_box_parameters();
    params.adhesion_cef = 0;
    let mut run = run_of(vec![(Vector3::new(50 * ONE, 50 * ONE, 0), Vector3::new(ONE, 0, 0))]);
    run.step(&params);
    let p = run.particles_state.particles[0];
    assert_eq!(p.velocity, Vector3 { x: ONE, y: -8190, z: 0 });
    assert_eq!(p.position, Vector3 { x: 3277346, y: 3276731, z: 0 });
    assert_eq!(run.particles_state.density_field, vec![ONE]);
    assert_eq!(run.particles_state.near_density_field, vec![ONE]);
    assert_eq!(
        run.particles_state.predicted_positions,
        vec![Vector3 { x: 50 * ONE + 546, y: 50 * ONE, z: 0 }]
    );
}

#[test]
fn a_frame_of_three_particles() {
    let params = unit_box_parameters();
    let mut run = run_of(vec![
        (Vector3::new(10 * ONE, 10 * ONE, 0), Vector3::new(ONE, 0, 0)),
        (Vector3::new(10 * ONE + ONE / 2, 10 * ONE, 0), Vector3::new(0, ONE / 2, 0)),
        (Vector3::new(10 * ONE, 10 * ONE + ONE / 4, 0), Vector3::new(0, 0, 0)),
    ]);
    run.step(&params);
    let moved: Vec<(Vector3, Vector3)> =
        run.particles_state.particles.iter().map(|p| (p.position, p.velocity)).collect();
    assert_eq!(
        moved,
        vec![
            (Vector3 { x: 679238, y: 684282, z: 0 }, Vector3 { x: 2866144, y: 3471596, z: 0 }),
            (Vector3 { x: 643690, y: 665266, z: 0 }, Vector3 { x: -5333750, y: 1189117, z: 0 }),
            (Vector3 { x: 676465, y: 632983, z: 0 }, Vector3 { x: 2533325, y: -4652438, z: 0 }),
        ]
    );
    assert_eq!(run.particles_state.density_field, vec![148094, 115595, 141013]);
    assert_eq!(run.particles_state.near_density_field, vec![101775, 79834, 98859]);
    assert_eq!(run.particles_state.surface_normals[1], Vector3 { x: 26843, y: -5827, z: 0 });
    assert_eq!(run.particles_state.vorticities[2], Vector3 { x: 0, y: 0, z: -29118 });
}

#[test]
fn every_particle_stays_inside_the_bounding_volume() {
    let params = unit_box_parameters();
    let mut run = run_of(scattered(120, 10 * ONE, 2000 * ONE));
    for _ in 0..6 {
        run.step(&params);
        for p in run.particles_state.particles.iter() {
            assert!(0 <= p.position.x && p.position.x <= 100 * ONE);
            assert!(0 <= p.position.y && p.position.y <= 100 * ONE);
            assert!(0 <= p.position.z && p.position.z <= ONE);
        }
        for i in 0..120 {
            assert!(run.particles_state.density_field[i] >= ONE);
            assert!(run.particles_state.near_density_field[i] >= ONE);
        }
    }
}

#[test]
fn extreme_values_neither_overflow_nor_leave_the_volume() {
    let mut params = unit_box_parameters();
    params.pressure_multiplier = i64::MAX;
    params.near_pressure_multiplier = i64::MAX;
    params.gravity = Vector3::new(i64::MIN, i64::MAX, i64::MIN);
    params.time_scale = i64::MAX;
    params.bounding_box = BoundingBoxUniform::new(
        Vector3::new(i64::MIN, -5, 0),
        Vector3::new(i64::MAX, 5, 0),
    );
    let mut run = run_of(vec![
        (Vector3::new(i64::MAX, i64::MAX, i64::MAX), Vector3::new(i64::MAX, i64::MIN, 1)),
        (Vector3::new(i64::MIN, i64::MIN, i64::MIN), Vector3::new(i64::MIN, i64::MAX, -1)),
        (Vector3::new(0, 0, 0), Vector3::new(0, 0, 0)),
        (Vector3::new(1, 0, 0), Vector3::new(0, 0, 0)),
    ]);
    for _ in 0..3 {
        run.step(&params);
        for p in run.particles_state.particles.iter() {
            assert!(-5 <= p.position.y && p.position.y <= 5);
            assert_eq!(p.position.z, 0);
        }
    }
}

#[test]
fn with_no_time_and_no_smoothing_nothing_moves() {
    let mut params = unit_box_parameters();
    params.time_scale = 0;
    params.velocity_smoothing_scale = 0;
    let start = scattered(60, 3 * ONE, 5 * ONE);
    let mut run = run_of(start.clone());
    run.step(&params);
    run.step(&params);
    let now: Vec<(Vector3, Vector3)> =
        run.particles_state.particles.iter().map(|p| (p.position, p.velocity)).collect();
    assert_eq!(now, start);
}

#[test]
fn the_same_snapshot_twice_gives_the_same_frame() {
    let params = unit_box_parameters();
    let start = scattered(40, 2 * ONE, ONE);
    let mut first = run_of(start.clone());
    let mut second = run_of(start);
    first.step(&params);
    second.step(&params.clone());
    assert_eq!(first.particles_state.particles, second.particles_state.particles);
    assert_eq!(first.particles_state.density_field, second.particles_state.density_field);
}

#[test]
fn without_forces_the_kinetic_energy_does_not_grow() {
    let mut params = force_free_parameters();
    params.collision_damping = 58982;
    params.time_scale = ONE;
    let mut run = run_of(scattered(80, 10 * ONE, 40 * ONE));
    let mut last = energy(&run);
    let first = last;
    for _ in 0..10 {
        run.step(&params);
        let now = energy(&run);
        assert!(now <= last);
        last = now;
    }
    assert!(last < first);
}

#[test]
fn without_forces_and_walls_every_velocity_is_kept() {
    let mut params = force_free_parameters();
    params.time_scale = ONE / 100;
    let start = scattered(50, 10 * ONE, ONE);
    let mut run = run_of(start.clone());
    run.step(&params);
    for (p, (_, v)) in run.particles_state.particles.iter().zip(start.iter()) {
        assert_eq!(p.velocity, *v);
    }
}

#[test]
fn cohesion_alone_injects_energy_into_a_fluid_at_rest() {
    let mut params = force_free_parameters();
    params.cohesion_coef = ONE;
    params.time_scale = ONE;
    let mut run = run_of(vec![
        (Vector3::new(50 * ONE, 50 * ONE, 0), Vector3::zero()),
        (Vector3::new(50 * ONE + ONE / 2, 50 * ONE, 0), Vector3::zero()),
    ]);
    assert_eq!(energy(&run), 0);
    run.step(&params);
    assert!(energy(&run) > 0);
    assert!(run.particles_state.particles[0].velocity.x > 0);
    assert!(run.particles_state.particles[1].velocity.x < 0);
}

#[test]
fn smoothing_draws_a_velocity_towards_its_neighbours() {
    let mut params = force_free_parameters();
    params.velocity_smoothing_scale = ONE;
    params.time_scale = 0;
    let mut run = run_of(vec![
        (Vector3::new(50 * ONE, 50 * ONE, 0), Vector3::new(4 * ONE, 0, 0)),
        (Vector3::new(50 * ONE, 50 * ONE, 0), Vector3::new(0, 0, 0)),
    ]);
    run.step(&params);
    assert_eq!(run.particles_state.particles[0].velocity, Vector3 { x: 2 * ONE, y: 0, z: 0 });
    assert_eq!(run.particles_state.particles[1].velocity, Vector3 { x: 2 * ONE, y: 0, z: 0 });
}

#[test]
fn the_default_layout_runs_and_stays_inside() {
    let mut params = SimulationParameters::default();
    params.particles_amount = 256;
    let mut run = Simulation::new(&params);
    for _ in 0..3 {
        run.step(&params);
    }
    for p in run.particles_state.particles.iter() {
        assert!(0 <= p.position.x && p.position.x <= 1600 * ONE);
        assert!(0 <= p.position.y && p.position.y <= 900 * ONE);
        assert!(0 <= p.position.z && p.position.z <= ONE);
    }
    let moved = run.particles_state.particles.iter().filter(|p| p.velocity.y != 0).count();
    assert_eq!(moved, 256);
}

#[test]
fn the_stages_one_by_one_make_a_frame() {
    let params = unit_box_parameters();
    let start = scattered(70, 4 * ONE, 3 * ONE);
    let mut whole = run_of(start.clone());
    whole.step(&params);
    let mut staged = run_of(start);
    let mut stage = Some(Stage::first());
    let mut count = 0;
    while let Some(now) = stage {
        staged.run_stage(now, &params);
        stage = now.next();
        count += 1;
    }
    assert_eq!(count, 7);
    assert_eq!(staged.particles_state.particles, whole.particles_state.particles);
    assert_eq!(staged.particles_state.density_field, whole.particles_state.density_field);
    assert_eq!(staged.particles_state.near_density_field, whole.particles_state.near_density_field);
    assert_eq!(staged.particles_state.surface_normals, whole.particles_state.surface_normals);
    assert_eq!(staged.particles_state.vorticities, whole.particles_state.vorticities);
    assert_eq!(staged.accelerations, whole.accelerations);
}

#[test]
fn a_stage_writes_its_own_fields_only() {
    let params = unit_box_parameters();
    let start = vec![
        (Vector3::new(10 * ONE, 10 * ONE, 0), Vector3::new(ONE, 0, 0)),
        (Vector3::new(10 * ONE + ONE / 2, 10 * ONE, 0), Vector3::new(0, ONE / 2, 0)),
        (Vector3::new(10 * ONE, 10 * ONE + ONE / 4, 0), Vector3::new(0, 0, 0)),
    ];
    let mut run = run_of(start.clone());
    let kept = |run: &Simulation| -> Vec<(Vector3, Vector3)> {
        run.particles_state.particles.iter().map(|p| (p.position, p.velocity)).collect()
    };

    run.run_stage(Stage::PredictPositions, &params);
    assert_eq!(
        run.particles_state.predicted_positions,
        vec![
            Vector3 { x: 655906, y: 655360, z: 0 },
            Vector3 { x: 688128, y: 655633, z: 0 },
            Vector3 { x: 655360, y: 671744, z: 0 },
        ]
    );
    assert_eq!(run.particles_state.density_field, vec![0, 0, 0]);
    assert_eq!(kept(&run), start);

    run.run_stage(Stage::HashAndBin, &params);
    assert_eq!(run.sort_state.grid_state.value_particle_id, vec![0, 1, 2]);
    run.run_stage(Stage::SortAndResolve, &params);
    let keys = &run.sort_state.grid_state.key_cell_hash;
    assert!(keys[0] <= keys[1] && keys[1] <= keys[2]);
    assert_eq!(run.particles_state.density_field, vec![0, 0, 0]);

    run.run_stage(Stage::Density, &params);
    assert_eq!(run.particles_state.density_field, vec![148094, 115595, 141013]);
    assert_eq!(run.particles_state.surface_normals, vec![Vector3::zero(); 3]);

    run.run_stage(Stage::SurfaceNormals, &params);
    assert_eq!(run.particles_state.surface_normals[0], Vector3 { x: -18126, y: -22987, z: 0 });
    assert!(run.accelerations.is_empty());

    run.run_stage(Stage::Forces, &params);
    assert_eq!(run.accelerations[0], Vector3 { x: 343466522, y: 431452284, z: 0 });
    assert_eq!(kept(&run), start);

    run.run_stage(Stage::Integrate, &params);
    assert_eq!(
        kept(&run)[0],
        (Vector3 { x: 679238, y: 684282, z: 0 }, Vector3 { x: 2866144, y: 3471596, z: 0 })
    );
    assert_eq!(run.particles_state.density_field, vec![148094, 115595, 141013]);
}

#[test]
fn a_frame_can_be_given_up_before_it_commits() {
    let params = unit_box_parameters();
    let start = scattered(30, 2 * ONE, ONE);
    let mut run = run_of(start.clone());
    for stage in [
        Stage::PredictPositions,
        Stage::HashAndBin,
        Stage::SortAndResolve,
        Stage::Density,
        Stage::SurfaceNormals,
        Stage::Forces,
    ] {
        run.run_stage(stage, &params);
    }
    let kept: Vec<(Vector3, Vector3)> =
        run.particles_state.particles.iter().map(|p| (p.position, p.velocity)).collect();
    assert_eq!(kept, start);
    let mut again = run_of(start);
    again.step(&params);
    run.step(&params);
    assert_eq!(run.particles_state.particles, again.particles_state.particles);
}

#[test]
fn the_scene_scale_factor_changes_no_frame() {
    let start = scattered(40, 2 * ONE, ONE);
    let mut plain = run_of(start.clone());
    plain.step(&unit_box_parameters());
    for factor in [0, 1784, ONE / 2, -ONE, i64::MAX] {
        let mut params = unit_box_parameters();
        params.scene_scale_factor = factor;
        let mut run = run_of(start.clone());
        run.step(&params);
        assert_eq!(run.particles_state.particles, plain.particles_state.particles);
        assert_eq!(run.accelerations, plain.accelerations);
    }
}

#[test]
fn smoothing_makes_no_kinetic_energy_and_keeps_the_momentum() {
    let mut params = force_free_parameters();
    params.velocity_smoothing_scale = ONE;
    params.time_scale = 0;
    let mut start = vec![(Vector3::new(50 * ONE, 50 * ONE, 0), Vector3::new(ONE, 0, 0)); 10];
    start.push((Vector3::new(50 * ONE + 47972, 50 * ONE, 0), Vector3::zero()));
    let mut run = run_of(start);
    let before = energy(&run);
    run.step(&params);
    let after = energy(&run);
    assert_eq!(before, 42949672960);
    assert_eq!(after, 42146515840);
    let speeds: Vec<i64> = run.particles_state.particles.iter().map(|p| p.velocity.x).collect();
    assert_eq!(
        speeds,
        vec![64888, 64888, 64888, 64888, 64888, 64888, 64888, 64888, 64888, 64888, 6480]
    );
    assert_eq!(speeds.iter().sum::<i64>(), 10 * ONE);
}

#[test]
fn with_smoothing_the_kinetic_energy_does_not_grow() {
    for smoothing in [2293, ONE / 4, ONE / 2, ONE, 5 * ONE] {
        let mut params = force_free_parameters();
        params.velocity_smoothing_scale = smoothing;
        params.time_scale = ONE / 50;
        let mut run = run_of(scattered(90, 3 * ONE, 40 * ONE));
        let mut last = energy(&run);
        let first = last;
        for _ in 0..8 {
            run.step(&params);
            let now = energy(&run);
            assert!(now <= last);
            last = now;
        }
        assert!(last < first);
    }
}

#[test]
fn a_smoothing_scale_outside_zero_to_one_is_taken_at_the_nearer_end() {
    let start = scattered(30, 2 * ONE, 10 * ONE);
    let frame_with = |smoothing: i64| {
        let mut params = force_free_parameters();
        params.velocity_smoothing_scale = smoothing;
        let mut run = run_of(start.clone());
        run.step(&params);
        run.particles_state.particles
    };
    assert_eq!(frame_with(-5), frame_with(0));
    assert_eq!(frame_with(ONE + 1), frame_with(ONE));
    assert_eq!(frame_with(i64::MAX), frame_with(ONE));
    assert_ne!(frame_with(ONE), frame_with(0));
}

#[test]
fn half_the_smoothing_moves_a_pair_half_the_way() {
    let mut params = force_free_parameters();
    params.velocity_smoothing_scale = ONE / 2;
    params.time_scale = 0;
    let mut run = run_of(vec![
        (Vector3::new(50 * ONE, 50 * ONE, 0), Vector3::new(4 * ONE, 0, 0)),
        (Vector3::new(50 * ONE, 50 * ONE, 0), Vector3::new(0, 0, 0)),
    ]);
    run.step(&params);
    assert_eq!(run.particles_state.particles[0].velocity, Vector3 { x: 3 * ONE, y: 0, z: 0 });
    assert_eq!(run.particles_state.particles[1].velocity, Vector3 { x: ONE, y: 0, z: 0 });
}
