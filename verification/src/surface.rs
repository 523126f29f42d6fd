//! The pass that derives a surface normal and a vorticity for every particle.
use vstd::prelude::*;
use crate::density::{gather, near_mask};
use crate::fixed::{div_fixed, mul_fixed, product, quotient};
use crate::kernels::{falloff, falloff_at};
use crate::parameters::SimulationParameters;
use crate::particle::{Fluid, ParticlesState};
use crate::search::NeighbourSearchGridState;
use crate::sums::{lemma_walk_is_masked_vector_sum, masked_vector_sum, sum_vectors};
use crate::vector::{
    cross, direction, distance, vector_difference, vector_scaled, Vector3,
};

verus! {

/// The density below which a density counts as this much, so that dividing by
/// it stays bounded: about a thousandth.
pub const DENSITY_FLOOR: i64 = 64;

/// The density, raised to `DENSITY_FLOOR` where it is smaller.
pub open spec fn guarded(density: int) -> int {
    if density < DENSITY_FLOOR {
        DENSITY_FLOOR as int
    } else {
        density
    }
}

/// The volume that a particle of the given mass takes up at the given density.
pub open spec fn volume(mass: int, density: int) -> int {
    quotient(mass, guarded(density))
}

/// Whether the passes of a frame can run: the configuration is valid, every
/// field has an entry for each particle, and `grid` is the neighbour structure
/// of the predicted positions.
pub open spec fn ready(
    f: Fluid,
    grid: NeighbourSearchGridState,
    params: SimulationParameters,
) -> bool {
    &&& params.valid()
    &&& f.aligned()
    &&& grid.indexes(f.predicted, params.grid_size)
}

/// What particle `j` adds to the surface normal at particle `i`: the direction
/// from `j` to `i`, weighted by the volume of `j` and the falloff.
pub open spec fn normal_term(f: Fluid, params: SimulationParameters, i: int, j: int) -> Vector3 {
    let d = distance(f.predicted[i], f.predicted[j]);
    vector_scaled(
        direction(f.predicted[j], f.predicted[i], d),
        product(
            volume(params.particle_mass as int, f.densities[j] as int),
            falloff(d, params.surface_normal_kernel_radius as int),
        ),
    )
}

/// The velocity of particle `j` relative to particle `i`.
pub open spec fn relative_velocity(f: Fluid, i: int, j: int) -> Vector3 {
    vector_difference(f.particles[j].velocity, f.particles[i].velocity)
}

/// What particle `j` adds to the vorticity at particle `i`: the cross product
/// of its relative velocity and its direction, weighted by its volume and the
/// falloff.
pub open spec fn vorticity_term(f: Fluid, params: SimulationParameters, i: int, j: int) -> Vector3 {
    let d = distance(f.predicted[i], f.predicted[j]);
    vector_scaled(
        cross(
            relative_velocity(f, i, j),
            direction(f.predicted[i], f.predicted[j], d),
        ),
        product(
            volume(params.particle_mass as int, f.densities[j] as int),
            falloff(d, params.vorticity_kernel_radius as int),
        ),
    )
}

/// The normal terms of particle `i`, by neighbour.
pub open spec fn normal_terms(f: Fluid, params: SimulationParameters, i: int) -> spec_fn(
    int,
) -> Vector3 {
    |j: int| normal_term(f, params, i, j)
}

/// The vorticity terms of particle `i`, by neighbour.
pub open spec fn vorticity_terms(f: Fluid, params: SimulationParameters, i: int) -> spec_fn(
    int,
) -> Vector3 {
    |j: int| vorticity_term(f, params, i, j)
}

/// The surface normal at particle `i`: the sum of the normal terms of the
/// particles within the largest kernel radius. It points away from where the
/// neighbours are, and is small inside the fluid.
pub open spec fn normal_at(f: Fluid, params: SimulationParameters, i: int) -> Vector3 {
    masked_vector_sum(
        f.predicted.len(),
        near_mask(f.predicted, i, params.largest_radius()),
        normal_terms(f, params, i),
    )
}

/// The vorticity at particle `i`: the sum of the vorticity terms of the
/// particles within the largest kernel radius.
pub open spec fn vorticity_at(f: Fluid, params: SimulationParameters, i: int) -> Vector3 {
    masked_vector_sum(
        f.predicted.len(),
        near_mask(f.predicted, i, params.largest_radius()),
        vorticity_terms(f, params, i),
    )
}

/// The density, raised to the floor where it is smaller.
pub fn guard_density(density: i64) -> (g: i64)
    ensures
        g == guarded(density as int),
        g > 0,
{
    if density < DENSITY_FLOOR {
        DENSITY_FLOOR
    } else {
        density
    }
}

/// The volume of a particle of the given mass at the given density.
pub fn volume_of(mass: i64, density: i64) -> (v: i64)
    ensures
        v == volume(mass as int, density as int),
{
    div_fixed(mass, guard_density(density))
}

/// Computes the velocity of particle `j` relative to particle `i`.
pub fn relative_velocity_of(state: &ParticlesState, i: usize, j: usize) -> (v: Vector3)
    requires
        i < state.particles.len(),
        j < state.particles.len(),
    ensures
        v == relative_velocity(state@, i as int, j as int),
{
    state.particles[j].velocity.minus(state.particles[i].velocity)
}

/// Computes the normal term of the pair `i`, `j`.
fn normal_term_of(
    state: &ParticlesState,
    params: &SimulationParameters,
    i: usize,
    j: usize,
    d: i64,
) -> (t: Vector3)
    requires
        state.aligned(),
        i < state.particles.len(),
        j < state.particles.len(),
        d == distance(state.predicted_positions[i as int], state.predicted_positions[j as int]),
    ensures
        t == normal_term(state@, *params, i as int, j as int),
{
    let weight = mul_fixed(
        volume_of(params.particle_mass, state.density_field[j]),
        falloff_at(d, params.surface_normal_kernel_radius),
    );
    state.predicted_positions[j].direction_to(state.predicted_positions[i], d).scaled(weight)
}

/// Computes the vorticity term of the pair `i`, `j`.
fn vorticity_term_of(
    state: &ParticlesState,
    params: &SimulationParameters,
    i: usize,
    j: usize,
    d: i64,
) -> (t: Vector3)
    requires
        state.aligned(),
        i < state.particles.len(),
        j < state.particles.len(),
        d == distance(state.predicted_positions[i as int], state.predicted_positions[j as int]),
    ensures
        t == vorticity_term(state@, *params, i as int, j as int),
{
    let weight = mul_fixed(
        volume_of(params.particle_mass, state.density_field[j]),
        falloff_at(d, params.vorticity_kernel_radius),
    );
    let relative = relative_velocity_of(state, i, j);
    let towards = state.predicted_positions[i].direction_to(state.predicted_positions[j], d);
    relative.cross(towards).scaled(weight)
}

/// The surface pass: the surface normal and the vorticity at every particle.
pub fn surface_pass(
    grid: &NeighbourSearchGridState,
    state: &ParticlesState,
    params: &SimulationParameters,
) -> (fields: (Vec<Vector3>, Vec<Vector3>))
    requires
        ready(state@, *grid, *params),
    ensures
        fields.0.len() == state.particles.len(),
        fields.1.len() == state.particles.len(),
        forall|i: int|
            0 <= i < state.particles.len() ==> fields.0[i] == normal_at(state@, *params, i),
        forall|i: int|
            0 <= i < state.particles.len() ==> fields.1[i] == vorticity_at(state@, *params, i),
{
    let n = state.particles.len();
    let radius = params.max_radius();
    let mut normals: Vec<Vector3> = Vec::new();
    let mut vorticities: Vec<Vector3> = Vec::new();
    let mut i: usize = 0;
    while i < n
        invariant
            i <= n,
            n == state.particles.len(),
            ready(state@, *grid, *params),
            radius == params.largest_radius(),
            radius <= params.grid_size,
            normals.len() == i,
            vorticities.len() == i,
            forall|k: int| 0 <= k < i ==> normals[k] == normal_at(state@, *params, k),
            forall|k: int| 0 <= k < i ==> vorticities[k] == vorticity_at(state@, *params, k),
        decreases n - i,
    {
        let (found, gaps) = gather(grid, &state.predicted_positions, params.grid_size, i, radius);
        let mut terms: Vec<Vector3> = Vec::new();
        let mut curls: Vec<Vector3> = Vec::new();
        let mut k: usize = 0;
        while k < found.len()
            invariant
                k <= found.len(),
                gaps.len() == found.len(),
                i < n,
                n == state.particles.len(),
                state.aligned(),
                terms.len() == k,
                curls.len() == k,
                forall|m: int|
                    0 <= m < found.len() ==> (#[trigger] found[m]) < n && gaps[m] == distance(
                        state.predicted_positions[i as int],
                        state.predicted_positions[found[m] as int],
                    ),
                forall|m: int|
                    0 <= m < k ==> terms[m] == normal_term(
                        state@,
                        *params,
                        i as int,
                        found[m] as int,
                    ),
                forall|m: int|
                    0 <= m < k ==> curls[m] == vorticity_term(
                        state@,
                        *params,
                        i as int,
                        found[m] as int,
                    ),
            decreases found.len() - k,
        {
            let j = found[k] as usize;
            terms.push(normal_term_of(state, params, i, j, gaps[k]));
            curls.push(vorticity_term_of(state, params, i, j, gaps[k]));
            k = k + 1;
        }
        let normal = sum_vectors(&terms);
        let vorticity = sum_vectors(&curls);
        proof {
            let mask = near_mask(state@.predicted, i as int, radius as int);
            lemma_walk_is_masked_vector_sum(
                found@,
                terms@,
                n as nat,
                mask,
                normal_terms(state@, *params, i as int),
                normal,
            );
            lemma_walk_is_masked_vector_sum(
                found@,
                curls@,
                n as nat,
                mask,
                vorticity_terms(state@, *params, i as int),
                vorticity,
            );
        }
        normals.push(normal);
        vorticities.push(vorticity);
        i = i + 1;
    }
    (normals, vorticities)
}

} // verus!
