//! The pass that adds up the forces on every particle and turns them into an
//! acceleration.
use vstd::prelude::*;
use crate::density::{gather, near_mask};
use crate::fixed::{difference, floor_div, mul_fixed, product, sub_fixed};
use crate::kernels::{
    cohesion_kernel, cohesion_kernel_at, falloff, falloff_at, near_slope, near_slope_at,
    poly_kernel, poly_kernel_at,
};
use crate::parameters::SimulationParameters;
use crate::particle::{Fluid, ParticlesState};
use crate::search::NeighbourSearchGridState;
use crate::sums::{lemma_walk_is_masked_vector_sum, masked_vector_sum, sum_vectors};
use crate::surface::{
    guard_density, guarded, ready, relative_velocity, relative_velocity_of, volume, volume_of,
};
use crate::vector::{
    cross, direction, distance, length, unit, vector_difference, vector_quotient, vector_scaled,
    vector_sum, Vector3,
};

verus! {

/// The pressure at a density: the pressure multiplier times the excess of the
/// density over the rest density.
pub open spec fn pressure(density: int, params: SimulationParameters) -> int {
    product(params.pressure_multiplier as int, difference(density, params.rest_density as int))
}

/// The near-pressure at a near-density: the near-pressure multiplier times it.
pub open spec fn near_pressure(near_density: int, params: SimulationParameters) -> int {
    product(params.near_pressure_multiplier as int, near_density)
}

/// The mean of two scalars, rounded down.
pub open spec fn mean(a: int, b: int) -> int {
    (a + b) / 2
}

/// The pressure force of `j` on `i`: along the direction from `j` to `i`, by
/// the pressure the two share, the falloff and the volume of `j`.
pub open spec fn pressure_term(f: Fluid, params: SimulationParameters, i: int, j: int) -> Vector3 {
    let d = distance(f.predicted[i], f.predicted[j]);
    let shared = mean(
        pressure(f.densities[i] as int, params),
        pressure(f.densities[j] as int, params),
    );
    vector_scaled(
        direction(f.predicted[j], f.predicted[i], d),
        product(
            product(shared, falloff(d, params.pressure_kernel_radius as int)),
            volume(params.particle_mass as int, f.densities[j] as int),
        ),
    )
}

/// The near-pressure force of `j` on `i`, which keeps particles from
/// clustering: as the pressure force, by the near-pressure and the sharper
/// weight.
pub open spec fn near_pressure_term(
    f: Fluid,
    params: SimulationParameters,
    i: int,
    j: int,
) -> Vector3 {
    let d = distance(f.predicted[i], f.predicted[j]);
    let shared = mean(
        near_pressure(f.near_densities[i] as int, params),
        near_pressure(f.near_densities[j] as int, params),
    );
    vector_scaled(
        direction(f.predicted[j], f.predicted[i], d),
        product(
            product(shared, near_slope(d, params.near_pressure_kernel_radius as int)),
            volume(params.particle_mass as int, f.densities[j] as int),
        ),
    )
}

/// The viscosity force of `j` on `i`: the velocity of `j` relative to `i`, by
/// the viscosity, the density kernel and the volume of `j`.
pub open spec fn viscosity_term(f: Fluid, params: SimulationParameters, i: int, j: int) -> Vector3 {
    let d = distance(f.predicted[i], f.predicted[j]);
    vector_scaled(
        relative_velocity(f, i, j),
        product(
            product(
                params.viscosity as int,
                poly_kernel(d, params.viscosity_kernel_radius as int),
            ),
            volume(params.particle_mass as int, f.densities[j] as int),
        ),
    )
}

/// The cohesion force of `j` on `i`: towards `j`, by the cohesion
/// coefficient, the mass and the cohesion kernel.
pub open spec fn cohesion_term(f: Fluid, params: SimulationParameters, i: int, j: int) -> Vector3 {
    let d = distance(f.predicted[i], f.predicted[j]);
    vector_scaled(
        direction(f.predicted[i], f.predicted[j], d),
        product(
            product(params.cohesion_coef as int, params.particle_mass as int),
            cohesion_kernel(d, params.cohesion_kernel_radius as int),
        ),
    )
}

/// The curvature force of `j` on `i`: the normal at `j` less the normal at
/// `i`, by the curvature coefficient and the density kernel, which flattens
/// the free surface.
pub open spec fn curvature_term(f: Fluid, params: SimulationParameters, i: int, j: int) -> Vector3 {
    let d = distance(f.predicted[i], f.predicted[j]);
    vector_scaled(
        vector_difference(f.normals[j], f.normals[i]),
        product(params.curvature_cef as int, poly_kernel(d, params.cohesion_kernel_radius as int)),
    )
}

/// The force of `j` on `i`: pressure, near-pressure, viscosity, cohesion and
/// curvature, added in this order. A particle exerts none on itself, since
/// its direction to itself and its velocity relative to itself are zero.
pub open spec fn force_term(f: Fluid, params: SimulationParameters, i: int, j: int) -> Vector3 {
    vector_sum(
        vector_sum(
            vector_sum(
                vector_sum(pressure_term(f, params, i, j), near_pressure_term(f, params, i, j)),
                viscosity_term(f, params, i, j),
            ),
            cohesion_term(f, params, i, j),
        ),
        curvature_term(f, params, i, j),
    )
}

/// What `j` adds to the gradient of the vorticity's magnitude at `i`.
pub open spec fn swirl_term(f: Fluid, params: SimulationParameters, i: int, j: int) -> Vector3 {
    let d = distance(f.predicted[i], f.predicted[j]);
    vector_scaled(
        direction(f.predicted[i], f.predicted[j], d),
        product(
            product(
                volume(params.particle_mass as int, f.densities[j] as int),
                falloff(d, params.vorticity_kernel_radius as int),
            ),
            length(f.vorticities[j]),
        ),
    )
}

/// The force terms of particle `i`, by neighbour.
pub open spec fn force_terms(f: Fluid, params: SimulationParameters, i: int) -> spec_fn(
    int,
) -> Vector3 {
    |j: int| force_term(f, params, i, j)
}

/// The swirl terms of particle `i`, by neighbour.
pub open spec fn swirl_terms(f: Fluid, params: SimulationParameters, i: int) -> spec_fn(
    int,
) -> Vector3 {
    |j: int| swirl_term(f, params, i, j)
}

/// The pull along one axis towards the walls of the bounding volume at `low`
/// and `high`, on a particle at `x`: by the adhesion coefficient and the
/// cohesion kernel of the distance to each wall.
pub open spec fn wall_pull(x: int, low: int, high: int, params: SimulationParameters) -> int {
    difference(
        product(
            params.adhesion_cef as int,
            cohesion_kernel(difference(high, x), params.adhesion_kernel_radius as int),
        ),
        product(
            params.adhesion_cef as int,
            cohesion_kernel(difference(x, low), params.adhesion_kernel_radius as int),
        ),
    )
}

/// The adhesion force on particle `i`: the pull towards the walls on each
/// axis.
pub open spec fn adhesion_at(f: Fluid, params: SimulationParameters, i: int) -> Vector3 {
    let low = params.bounding_box.position1;
    let high = params.bounding_box.position2;
    let p = f.predicted[i];
    Vector3 {
        x: wall_pull(p.x as int, low.x as int, high.x as int, params) as i64,
        y: wall_pull(p.y as int, low.y as int, high.y as int, params) as i64,
        z: wall_pull(p.z as int, low.z as int, high.z as int, params) as i64,
    }
}

/// The vorticity confinement force on particle `i`: the cross product of the
/// direction in which the vorticity's magnitude grows and the vorticity, by
/// the vorticity intensity.
pub open spec fn confinement_at(f: Fluid, params: SimulationParameters, i: int) -> Vector3 {
    let gradient = masked_vector_sum(
        f.predicted.len(),
        near_mask(f.predicted, i, params.largest_radius()),
        swirl_terms(f, params, i),
    );
    vector_scaled(cross(unit(gradient), f.vorticities[i]), params.vorticity_inensity as int)
}

/// The force on particle `i`: the forces of the particles within the largest
/// kernel radius, the adhesion to the walls and the vorticity confinement.
pub open spec fn force_at(f: Fluid, params: SimulationParameters, i: int) -> Vector3 {
    vector_sum(
        vector_sum(
            masked_vector_sum(
                f.predicted.len(),
                near_mask(f.predicted, i, params.largest_radius()),
                force_terms(f, params, i),
            ),
            adhesion_at(f, params, i),
        ),
        confinement_at(f, params, i),
    )
}

/// The acceleration of particle `i`: the force over the guarded density, and
/// gravity.
pub open spec fn acceleration_at(f: Fluid, params: SimulationParameters, i: int) -> Vector3 {
    vector_sum(
        vector_quotient(force_at(f, params, i), guarded(f.densities[i] as int)),
        params.gravity,
    )
}

/// The accelerations of all particles.
pub open spec fn accelerations(f: Fluid, params: SimulationParameters) -> Seq<Vector3> {
    Seq::new(f.particles.len(), |i: int| acceleration_at(f, params, i))
}

/// Computes the pressure at a density.
pub fn pressure_of(density: i64, params: &SimulationParameters) -> (p: i64)
    ensures
        p == pressure(density as int, *params),
{
    mul_fixed(params.pressure_multiplier, sub_fixed(density, params.rest_density))
}

/// Computes the near-pressure at a near-density.
pub fn near_pressure_of(near_density: i64, params: &SimulationParameters) -> (p: i64)
    ensures
        p == near_pressure(near_density as int, *params),
{
    mul_fixed(params.near_pressure_multiplier, near_density)
}

/// Computes the mean of two scalars.
fn mean_of(a: i64, b: i64) -> (m: i64)
    ensures
        m == mean(a as int, b as int),
{
    floor_div(a as i128 + b as i128, 2) as i64
}

/// Computes the force of `j` on `i`.
fn force_term_of(
    state: &ParticlesState,
    params: &SimulationParameters,
    i: usize,
    j: usize,
    d: i64,
) -> (t: Vector3)
    requires
        state.aligned(),
        i < state.particles.len(),
        j < state.particles.len(),
        d == distance(state.predicted_positions[i as int], state.predicted_positions[j as int]),
    ensures
        t == force_term(state@, *params, i as int, j as int),
{
    let here = state.predicted_positions[i];
    let there = state.predicted_positions[j];
    let away = there.direction_to(here, d);
    let towards = here.direction_to(there, d);
    let relative = relative_velocity_of(state, i, j);
    let share = volume_of(params.particle_mass, state.density_field[j]);
    let shared = mean_of(
        pressure_of(state.density_field[i], params),
        pressure_of(state.density_field[j], params),
    );
    let push = away.scaled(
        mul_fixed(mul_fixed(shared, falloff_at(d, params.pressure_kernel_radius)), share),
    );
    let shared_near = mean_of(
        near_pressure_of(state.near_density_field[i], params),
        near_pressure_of(state.near_density_field[j], params),
    );
    let near_push = away.scaled(
        mul_fixed(
            mul_fixed(shared_near, near_slope_at(d, params.near_pressure_kernel_radius)),
            share,
        ),
    );
    let drag = relative.scaled(
        mul_fixed(
            mul_fixed(params.viscosity, poly_kernel_at(d, params.viscosity_kernel_radius)),
            share,
        ),
    );
    let pull = towards.scaled(
        mul_fixed(
            mul_fixed(params.cohesion_coef, params.particle_mass),
            cohesion_kernel_at(d, params.cohesion_kernel_radius),
        ),
    );
    let flatten = state.surface_normals[j].minus(state.surface_normals[i]).scaled(
        mul_fixed(params.curvature_cef, poly_kernel_at(d, params.cohesion_kernel_radius)),
    );
    push.plus(near_push).plus(drag).plus(pull).plus(flatten)
}

/// Computes the swirl term of the pair `i`, `j`.
fn swirl_term_of(
    state: &ParticlesState,
    params: &SimulationParameters,
    i: usize,
    j: usize,
    d: i64,
) -> (t: Vector3)
    requires
        state.aligned(),
        i < state.particles.len(),
        j < state.particles.len(),
        d == distance(state.predicted_positions[i as int], state.predicted_positions[j as int]),
    ensures
        t == swirl_term(state@, *params, i as int, j as int),
{
    let weight = mul_fixed(
        mul_fixed(
            volume_of(params.particle_mass, state.density_field[j]),
            falloff_at(d, params.vorticity_kernel_radius),
        ),
        state.vorticities[j].length(),
    );
    state.predicted_positions[i].direction_to(state.predicted_positions[j], d).scaled(weight)
}

/// Computes the pull towards the walls along one axis.
fn wall_pull_of(x: i64, low: i64, high: i64, params: &SimulationParameters) -> (f: i64)
    ensures
        f == wall_pull(x as int, low as int, high as int, *params),
{
    sub_fixed(
        mul_fixed(
            params.adhesion_cef,
            cohesion_kernel_at(sub_fixed(high, x), params.adhesion_kernel_radius),
        ),
        mul_fixed(
            params.adhesion_cef,
            cohesion_kernel_at(sub_fixed(x, low), params.adhesion_kernel_radius),
        ),
    )
}

/// Computes the adhesion force on particle `i`.
fn adhesion_of(state: &ParticlesState, params: &SimulationParameters, i: usize) -> (f: Vector3)
    requires
        state.aligned(),
        i < state.particles.len(),
    ensures
        f == adhesion_at(state@, *params, i as int),
{
    let low = params.bounding_box.position1;
    let high = params.bounding_box.position2;
    let p = state.predicted_positions[i];
    Vector3 {
        x: wall_pull_of(p.x, low.x, high.x, params),
        y: wall_pull_of(p.y, low.y, high.y, params),
        z: wall_pull_of(p.z, low.z, high.z, params),
    }
}

/// The force pass: the acceleration of every particle.
pub fn force_pass(
    grid: &NeighbourSearchGridState,
    state: &ParticlesState,
    params: &SimulationParameters,
) -> (accelerated: Vec<Vector3>)
    requires
        ready(state@, *grid, *params),
    ensures
        accelerated@ == accelerations(state@, *params),
{
    let n = state.particles.len();
    let radius = params.max_radius();
    let mut accelerated: Vec<Vector3> = Vec::new();
    let mut i: usize = 0;
    while i < n
        invariant
            i <= n,
            n == state.particles.len(),
            ready(state@, *grid, *params),
            radius == params.largest_radius(),
            radius <= params.grid_size,
            accelerated.len() == i,
            forall|k: int| 0 <= k < i ==> accelerated[k] == acceleration_at(state@, *params, k),
        decreases n - i,
    {
        let (found, gaps) = gather(grid, &state.predicted_positions, params.grid_size, i, radius);
        let mut terms: Vec<Vector3> = Vec::new();
        let mut swirls: Vec<Vector3> = Vec::new();
        let mut k: usize = 0;
        while k < found.len()
            invariant
                k <= found.len(),
                gaps.len() == found.len(),
                i < n,
                n == state.particles.len(),
                state.aligned(),
                terms.len() == k,
                swirls.len() == k,
                forall|m: int|
                    0 <= m < found.len() ==> (#[trigger] found[m]) < n && gaps[m] == distance(
                        state.predicted_positions[i as int],
                        state.predicted_positions[found[m] as int],
                    ),
                forall|m: int|
                    0 <= m < k ==> terms[m] == force_term(
                        state@,
                        *params,
                        i as int,
                        found[m] as int,
                    ),
                forall|m: int|
                    0 <= m < k ==> swirls[m] == swirl_term(
                        state@,
                        *params,
                        i as int,
                        found[m] as int,
                    ),
            decreases found.len() - k,
        {
            let j = found[k] as usize;
            terms.push(force_term_of(state, params, i, j, gaps[k]));
            swirls.push(swirl_term_of(state, params, i, j, gaps[k]));
            k = k + 1;
        }
        let between = sum_vectors(&terms);
        let gradient = sum_vectors(&swirls);
        proof {
            let mask = near_mask(state@.predicted, i as int, radius as int);
            lemma_walk_is_masked_vector_sum(
                found@,
                terms@,
                n as nat,
                mask,
                force_terms(state@, *params, i as int),
                between,
            );
            lemma_walk_is_masked_vector_sum(
                found@,
                swirls@,
                n as nat,
                mask,
                swirl_terms(state@, *params, i as int),
                gradient,
            );
        }
        let confinement = gradient.unit().cross(state.vorticities[i]).scaled(
            params.vorticity_inensity,
        );
        let force = between.plus(adhesion_of(state, params, i)).plus(confinement);
        accelerated.push(
            force.divided(guard_density(state.density_field[i])).plus(params.gravity),
        );
        i = i + 1;
    }
    accelerated
}

} // verus!
