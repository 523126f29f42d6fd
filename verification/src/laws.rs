//! What holds of the neighbour search and of a frame for every input.
use vstd::prelude::*;
use crate::density::{
    density_at, density_terms, near_density_at, near_density_terms, near_mask,
    predicted_positions,
};
use crate::energy::{
    kinetic_energy, lemma_smoothing_makes_no_energy, smoothed_velocities, speed_squared,
    speed_sum, velocities_of,
};
use crate::fixed::{negation, product, saturated, ONE};
use crate::forces::{
    acceleration_at, accelerations, adhesion_at, cohesion_term, confinement_at, curvature_term,
    force_at, force_term, force_terms, mean, near_pressure_term, pressure_term, swirl_terms,
    viscosity_term,
};
use crate::grid::lemma_block_covers_radius;
use crate::integration::{
    advanced_velocities, blend_weight, committed, exchange_term, exchange_terms, share,
    smoothed_on_axis, smoothed_velocity, toward_zero, weight_around,
};
use crate::parameters::SimulationParameters;
use crate::particle::{Fluid, Particle};
use crate::series::lemma_series_ordered;
use crate::search::is_neighbour;
use crate::simulation::{frame, with_densities, with_prediction, with_surface};
use crate::sums::{
    axis, lemma_masked_sum_narrowed, masked_sum, masked_vector_sum, on_axis,
};
use crate::surface::{guarded, relative_velocity};
use crate::vector::{
    cross, direction, distance, lemma_beyond_radius, lemma_within_symmetric, unit,
    vector_difference, vector_quotient, vector_scaled, vector_sum, within, Vector3,
};

verus! {

/// The zero vector.
pub open spec fn zero_vector() -> Vector3 {
    Vector3 { x: 0, y: 0, z: 0 }
}

/// Neighbour completeness: two particles that lie within a kernel radius of
/// each other are each reported by a query around the other, for every search
/// radius from that kernel radius up to the cell size.
pub proof fn lemma_neighbours_mutual(
    positions: Seq<Vector3>,
    grid: i64,
    radius: i64,
    search: i64,
    a: u32,
    b: u32,
)
    requires
        a < positions.len(),
        b < positions.len(),
        radius <= search <= grid,
        grid > 0,
        within(positions[a as int], positions[b as int], radius as int),
    ensures
        is_neighbour(positions, grid, positions[a as int], search, b),
        is_neighbour(positions, grid, positions[b as int], search, a),
{
    let p = positions[a as int];
    let q = positions[b as int];
    lemma_within_symmetric(p, q, radius as int, search as int);
    lemma_block_covers_radius(p, q, search as int, grid, positions.len() as u32);
    lemma_block_covers_radius(q, p, search as int, grid, positions.len() as u32);
}

/// The density at a particle is the kernel-weighted mass of the particles
/// within the density kernel radius: the particles that the pass visits
/// beyond that radius add nothing. The same holds of the near-density and its
/// radius.
pub proof fn lemma_density_within_kernel_radius(
    positions: Seq<Vector3>,
    params: SimulationParameters,
    i: int,
)
    requires
        params.valid(),
    ensures
        density_at(positions, params, i) == saturated(
            masked_sum(
                positions.len(),
                near_mask(positions, i, params.poly_kernel_radius as int),
                density_terms(positions, params, i),
            ),
        ),
        near_density_at(positions, params, i) == saturated(
            masked_sum(
                positions.len(),
                near_mask(positions, i, params.near_pressure_kernel_radius as int),
                near_density_terms(positions, params, i),
            ),
        ),
{
    let n = positions.len();
    let wide = near_mask(positions, i, params.largest_radius());
    let h = params.poly_kernel_radius as int;
    let narrow = near_mask(positions, i, h);
    let terms = density_terms(positions, params, i);
    assert forall|j: int| 0 <= j < n && #[trigger] narrow(j) implies wide(j) by {
        lemma_within_symmetric(positions[i], positions[j], h, params.largest_radius());
    }
    assert forall|j: int| 0 <= j < n && wide(j) && !narrow(j) implies #[trigger] terms(j) == 0 by {
        lemma_beyond_radius(positions[i], positions[j], h);
    }
    lemma_masked_sum_narrowed(n, wide, narrow, terms);

    let near_h = params.near_pressure_kernel_radius as int;
    let near_narrow = near_mask(positions, i, near_h);
    let near_terms = near_density_terms(positions, params, i);
    assert forall|j: int| 0 <= j < n && #[trigger] near_narrow(j) implies wide(j) by {
        lemma_within_symmetric(positions[i], positions[j], near_h, params.largest_radius());
    }
    assert forall|j: int| 0 <= j < n && wide(j) && !near_narrow(j) implies #[trigger] near_terms(
        j,
    ) == 0 by {
        lemma_beyond_radius(positions[i], positions[j], near_h);
    }
    lemma_masked_sum_narrowed(n, wide, near_narrow, near_terms);
}

/// A sum whose terms are all zero is zero.
pub proof fn lemma_masked_sum_zero(n: nat, mask: spec_fn(int) -> bool, term: spec_fn(int) -> int)
    requires
        forall|j: int| 0 <= j < n && mask(j) ==> #[trigger] term(j) == 0,
    ensures
        masked_sum(n, mask, term) == 0,
    decreases n,
{
    if n > 0 {
        lemma_masked_sum_zero((n - 1) as nat, mask, term);
    }
}

/// A vector sum whose terms are all the zero vector is the zero vector.
pub proof fn lemma_masked_vector_sum_zero(
    n: nat,
    mask: spec_fn(int) -> bool,
    term: spec_fn(int) -> Vector3,
)
    requires
        forall|j: int| 0 <= j < n && mask(j) ==> #[trigger] term(j) == zero_vector(),
    ensures
        masked_vector_sum(n, mask, term) == zero_vector(),
{
    lemma_masked_sum_zero(n, mask, on_axis(term, 0));
    lemma_masked_sum_zero(n, mask, on_axis(term, 1));
    lemma_masked_sum_zero(n, mask, on_axis(term, 2));
}

/// Whether the configuration exerts no force at all: no gravity, and every
/// coefficient of a force zero.
pub open spec fn force_free(params: SimulationParameters) -> bool {
    &&& params.gravity == zero_vector()
    &&& params.viscosity == 0
    &&& params.pressure_multiplier == 0
    &&& params.near_pressure_multiplier == 0
    &&& params.cohesion_coef == 0
    &&& params.curvature_cef == 0
    &&& params.adhesion_cef == 0
    &&& params.vorticity_inensity == 0
}

/// A product with a zero factor is zero.
pub proof fn lemma_product_zero(a: int, b: int)
    requires
        a == 0 || b == 0,
    ensures
        product(a, b) == 0,
{
    assert(a * b == 0) by (nonlinear_arith)
        requires
            a == 0 || b == 0,
    ;
}

/// A vector scaled by zero, and the zero vector scaled by anything, are the
/// zero vector; adding the zero vector changes nothing.
pub proof fn lemma_zero_vectors(v: Vector3, s: int)
    ensures
        vector_scaled(v, 0) == zero_vector(),
        vector_scaled(zero_vector(), s) == zero_vector(),
        vector_sum(v, zero_vector()) == v,
        vector_sum(zero_vector(), v) == v,
        vector_quotient(zero_vector(), s) == zero_vector(),
{
    lemma_product_zero(v.x as int, 0);
    lemma_product_zero(v.y as int, 0);
    lemma_product_zero(v.z as int, 0);
    lemma_product_zero(0, s);
    if s > 0 {
        assert((0 * ONE) / s == 0) by (nonlinear_arith)
            requires
                s > 0,
        ;
    }
}

/// Under a configuration that exerts no force, no particle accelerates.
pub proof fn lemma_force_free_rest(f: Fluid, params: SimulationParameters, i: int)
    requires
        force_free(params),
    ensures
        acceleration_at(f, params, i) == zero_vector(),
{
    let n = f.predicted.len();
    let mask = near_mask(f.predicted, i, params.largest_radius());
    let terms = force_terms(f, params, i);
    assert forall|j: int| 0 <= j < n && mask(j) implies #[trigger] terms(j) == zero_vector() by {
        lemma_force_term_zero(f, params, i, j);
    }
    lemma_masked_vector_sum_zero(n, mask, terms);
    assert(adhesion_at(f, params, i) == zero_vector()) by {
        assert forall|a: int| #[trigger] product(0, a) == 0 by {
            lemma_product_zero(0, a);
        }
    }
    let gradient = masked_vector_sum(n, mask, swirl_terms(f, params, i));
    lemma_zero_vectors(cross(unit(gradient), f.vorticities[i]), 0);
    assert(confinement_at(f, params, i) == zero_vector());
    lemma_zero_vectors(zero_vector(), guarded(f.densities[i] as int));
    assert(force_at(f, params, i) == zero_vector());
}

/// Under a configuration that exerts no force, no particle acts on another.
pub proof fn lemma_force_term_zero(f: Fluid, params: SimulationParameters, i: int, j: int)
    requires
        force_free(params),
    ensures
        force_term(f, params, i, j) == zero_vector(),
{
    assert forall|a: int| #[trigger] product(0, a) == 0 by {
        lemma_product_zero(0, a);
    }
    assert forall|a: int| #[trigger] product(a, 0) == 0 by {
        lemma_product_zero(a, 0);
    }
    let d = distance(f.predicted[i], f.predicted[j]);
    assert(mean(0, 0) == 0);
    lemma_zero_vectors(direction(f.predicted[j], f.predicted[i], d), 0);
    lemma_zero_vectors(direction(f.predicted[i], f.predicted[j], d), 0);
    lemma_zero_vectors(relative_velocity(f, i, j), 0);
    lemma_zero_vectors(vector_difference(f.normals[j], f.normals[i]), 0);
    assert(pressure_term(f, params, i, j) == zero_vector());
    assert(near_pressure_term(f, params, i, j) == zero_vector());
    assert(viscosity_term(f, params, i, j) == zero_vector());
    assert(cohesion_term(f, params, i, j) == zero_vector());
    assert(curvature_term(f, params, i, j) == zero_vector());
}

/// A speed reversed and damped is no larger in magnitude than before.
pub proof fn lemma_damped_speed(v: int, damping: int)
    requires
        i64::MIN <= v <= i64::MAX,
        0 <= damping <= ONE,
    ensures
        negation(product(v, damping)) * negation(product(v, damping)) <= v * v,
{
    let scaled = (v * damping) / (ONE as int);
    assert((v >= 0 ==> 0 <= scaled <= v) && (v < 0 ==> v <= scaled <= 0)) by (nonlinear_arith)
        requires
            0 <= damping <= 65536,
            scaled == (v * damping) / 65536,
    ;
    let w = negation(product(v, damping));
    assert(w * w <= v * v) by (nonlinear_arith)
        requires
            (v >= 0 ==> -v <= w <= 0) && (v < 0 ==> 0 <= w <= -v),
    ;
}

/// The boundary response never raises the speed of a particle.
pub proof fn lemma_commit_slows(p: Particle, velocity: Vector3, params: SimulationParameters)
    requires
        0 <= params.collision_damping <= ONE,
    ensures
        speed_squared(committed(p, velocity, params).velocity) <= speed_squared(velocity),
{
    let damping = params.collision_damping as int;
    lemma_damped_speed(velocity.x as int, damping);
    lemma_damped_speed(velocity.y as int, damping);
    lemma_damped_speed(velocity.z as int, damping);
}

/// With a smoothing scale of zero or below, smoothing leaves every velocity
/// as it is.
pub proof fn lemma_unsmoothed(
    predicted: Seq<Vector3>,
    velocities: Seq<Vector3>,
    params: SimulationParameters,
    i: int,
)
    requires
        params.velocity_smoothing_scale <= 0,
        0 <= i < velocities.len(),
    ensures
        smoothed_velocity(predicted, velocities, params, i) == velocities[i],
{
    let n = predicted.len();
    let mask = near_mask(predicted, i, params.largest_radius());
    assert forall|a: int| 0 <= a <= 2 implies smoothed_on_axis(predicted, velocities, params, i, a)
        == axis(velocities[i], a) by {
        let terms = exchange_terms(predicted, velocities, params, i, a);
        assert forall|j: int| 0 <= j < n && mask(j) implies #[trigger] terms(j) == 0 by {
            let larger = if weight_around(predicted, params, i) >= weight_around(
                predicted,
                params,
                j,
            ) {
                weight_around(predicted, params, i)
            } else {
                weight_around(predicted, params, j)
            };
            if larger > 0 {
                assert((0 * blend_weight(predicted, params, i, j)) / larger == 0)
                    by (nonlinear_arith)
                    requires
                        larger > 0,
                ;
            }
            assert(share(predicted, params, i, j) == 0);
            assert(exchange_term(predicted, velocities, params, i, j, a) == 0) by (nonlinear_arith)
                requires
                    share(predicted, params, i, j) == 0,
                    exchange_term(predicted, velocities, params, i, j, a) == share(
                        predicted,
                        params,
                        i,
                        j,
                    ) * (axis(velocities[j], a) - axis(velocities[i], a)),
            ;
        }
        lemma_masked_sum_zero(n, mask, terms);
        let x = axis(velocities[i], a);
        assert(toward_zero(ONE * x, ONE as int) == x) by (nonlinear_arith)
            requires
                toward_zero(ONE * x, ONE as int) == if ONE * x >= 0 {
                    (ONE * x) / (ONE as int)
                } else {
                    -((-(ONE * x)) / (ONE as int))
                },
                ONE == 65536,
        ;
    }
    assert(smoothed_on_axis(predicted, velocities, params, i, 0) == velocities[i].x);
    assert(smoothed_on_axis(predicted, velocities, params, i, 1) == velocities[i].y);
    assert(smoothed_on_axis(predicted, velocities, params, i, 2) == velocities[i].z);
}

/// With no time elapsing in a frame, no force changes a velocity: a frame
/// commits every particle where it was, with the velocity it had, but for the
/// velocity smoothing and the boundary response.
pub proof fn lemma_timeless_frame(f: Fluid, params: SimulationParameters, i: int)
    requires
        f.aligned(),
        0 <= i < f.particles.len(),
        params.time_scale == 0,
    ensures
        frame(f, params).particles[i] == committed(
            f.particles[i],
            smoothed_velocity(
                predicted_positions(f.particles, params),
                velocities_of(f.particles),
                params,
                i,
            ),
            params,
        ),
{
    let third = with_surface(with_densities(with_prediction(f, params), params), params);
    let accelerated = accelerations(third, params);
    let velocities = advanced_velocities(third.particles, accelerated, params);
    assert forall|j: int| 0 <= j < f.particles.len() implies #[trigger] velocities[j]
        == f.particles[j].velocity by {
        lemma_zero_vectors(accelerated[j], 0);
    }
    assert(velocities =~= velocities_of(f.particles));
}

/// With no time elapsing in a frame and no velocity smoothing, a frame leaves
/// every particle inside the bounding volume exactly as it was: whatever the
/// forces are, they change no velocity and no position.
pub proof fn lemma_still_frame(f: Fluid, params: SimulationParameters, i: int)
    requires
        f.aligned(),
        0 <= i < f.particles.len(),
        params.time_scale == 0,
        params.velocity_smoothing_scale <= 0,
        params.bounding_box.holds(f.particles[i].position),
    ensures
        frame(f, params).particles[i] == f.particles[i],
{
    let third = with_surface(with_densities(with_prediction(f, params), params), params);
    let accelerated = accelerations(third, params);
    let velocities = advanced_velocities(third.particles, accelerated, params);
    let p = f.particles[i];
    lemma_zero_vectors(accelerated[i], 0);
    lemma_zero_vectors(p.velocity, 0);
    assert(velocities[i] == p.velocity);
    lemma_unsmoothed(third.predicted, velocities, params, i);
    assert(smoothed_velocity(third.predicted, velocities, params, i) == p.velocity);
    assert(committed(p, p.velocity, params) == p);
}

/// Without smoothing no particle gets faster: under a valid configuration
/// that exerts no force and smooths no velocity, a frame leaves every
/// velocity as it was, but for the boundary response, which only damps.
pub proof fn lemma_no_particle_faster(f: Fluid, params: SimulationParameters, i: int)
    requires
        f.aligned(),
        params.valid(),
        force_free(params),
        params.velocity_smoothing_scale <= 0,
        0 <= i < f.particles.len(),
    ensures
        speed_squared(frame(f, params).particles[i].velocity) <= speed_squared(
            f.particles[i].velocity,
        ),
{
    let third = with_surface(with_densities(with_prediction(f, params), params), params);
    let accelerated = accelerations(third, params);
    let velocities = advanced_velocities(third.particles, accelerated, params);
    let p = f.particles[i];
    lemma_force_free_rest(third, params, i);
    lemma_zero_vectors(p.velocity, params.time_scale as int);
    assert(velocities[i] == p.velocity);
    lemma_unsmoothed(third.predicted, velocities, params, i);
    let smoothed = smoothed_velocity(third.predicted, velocities, params, i);
    assert(smoothed == p.velocity);
    lemma_commit_slows(p, smoothed, params);
    assert(frame(f, params).particles[i] == committed(p, smoothed, params));
}

/// No energy is injected: under a valid configuration that exerts no force,
/// whatever its velocity smoothing scale and its damping, the kinetic energy
/// of the fluid after a frame is no larger than before. Smoothing moves
/// velocity between the particles of each pair in equal shares, and the
/// boundary response only damps.
pub proof fn lemma_energy_not_injected(f: Fluid, params: SimulationParameters)
    requires
        f.aligned(),
        params.valid(),
        force_free(params),
    ensures
        kinetic_energy(frame(f, params).particles, params.particle_mass as int) <= kinetic_energy(
            f.particles,
            params.particle_mass as int,
        ),
{
    let n = f.particles.len();
    let third = with_surface(with_densities(with_prediction(f, params), params), params);
    let accelerated = accelerations(third, params);
    let velocities = advanced_velocities(third.particles, accelerated, params);
    let after = frame(f, params).particles;
    assert forall|j: int| 0 <= j < n implies #[trigger] velocities[j]
        == f.particles[j].velocity by {
        lemma_force_free_rest(third, params, j);
        lemma_zero_vectors(f.particles[j].velocity, params.time_scale as int);
    }
    assert(velocities =~= velocities_of(f.particles));
    let smoothed = smoothed_velocities(third.predicted, velocities, params);
    lemma_smoothing_makes_no_energy(third.predicted, velocities, params);
    let committed_speeds = |i: int| speed_squared(velocities_of(after)[i]);
    let smoothed_speeds = |i: int| speed_squared(smoothed[i]);
    assert forall|i: int| 0 <= i < n implies #[trigger] committed_speeds(i) <= smoothed_speeds(
        i,
    ) by {
        let p = f.particles[i];
        assert(smoothed[i] == smoothed_velocity(third.predicted, velocities, params, i));
        lemma_commit_slows(p, smoothed[i], params);
        assert(after[i] == committed(p, smoothed[i], params));
    }
    lemma_series_ordered(n, committed_speeds, smoothed_speeds);
    let mass = params.particle_mass as int;
    let before_sum = speed_sum(velocities_of(f.particles));
    let after_sum = speed_sum(velocities_of(after));
    assert(after_sum <= before_sum);
    assert(mass * after_sum <= mass * before_sum) by (nonlinear_arith)
        requires
            mass >= 0,
            after_sum <= before_sum,
    ;
}

} // verus!
