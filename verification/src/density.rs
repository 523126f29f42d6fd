//! The positions that a frame predicts, and the density pass over them.
use vstd::prelude::*;
use crate::fixed::{mul_fixed, product, saturated};
use crate::kernels::{
    lemma_kernel_ranges, poly_kernel, poly_kernel_at, spiky_kernel, spiky_kernel_at,
};
use crate::parameters::SimulationParameters;
use crate::particle::Particle;
use crate::search::NeighbourSearchGridState;
use crate::sums::{
    lemma_masked_sum_holds_two, lemma_masked_sum_not_negative, lemma_walk_is_masked_sum,
    masked_sum, scalar_values, sum_scalars,
};
use crate::vector::{distance, vector_scaled, vector_sum, within, Vector3};

verus! {

/// Where a particle is taken to be for this frame's neighbour search: its
/// position advanced by its velocity over one time step.
pub open spec fn predicted_position(p: Particle, params: SimulationParameters) -> Vector3 {
    vector_sum(p.position, vector_scaled(p.velocity, params.time_scale as int))
}

/// The predicted positions of all particles.
pub open spec fn predicted_positions(
    particles: Seq<Particle>,
    params: SimulationParameters,
) -> Seq<Vector3> {
    Seq::new(particles.len(), |i: int| predicted_position(particles[i], params))
}

/// The particles within `radius` of particle `i`, itself included.
pub open spec fn near_mask(positions: Seq<Vector3>, i: int, radius: int) -> spec_fn(int) -> bool {
    |j: int| within(positions[i], positions[j], radius)
}

/// What particle `j` adds to the density at particle `i`.
pub open spec fn density_term(
    positions: Seq<Vector3>,
    params: SimulationParameters,
    i: int,
    j: int,
) -> int {
    product(
        params.particle_mass as int,
        poly_kernel(distance(positions[i], positions[j]), params.poly_kernel_radius as int),
    )
}

/// What particle `j` adds to the near-density at particle `i`.
pub open spec fn near_density_term(
    positions: Seq<Vector3>,
    params: SimulationParameters,
    i: int,
    j: int,
) -> int {
    product(
        params.particle_mass as int,
        spiky_kernel(
            distance(positions[i], positions[j]),
            params.near_pressure_kernel_radius as int,
        ),
    )
}

/// The density terms of particle `i`, by neighbour.
pub open spec fn density_terms(
    positions: Seq<Vector3>,
    params: SimulationParameters,
    i: int,
) -> spec_fn(int) -> int {
    |j: int| density_term(positions, params, i, j)
}

/// The near-density terms of particle `i`, by neighbour.
pub open spec fn near_density_terms(
    positions: Seq<Vector3>,
    params: SimulationParameters,
    i: int,
) -> spec_fn(int) -> int {
    |j: int| near_density_term(positions, params, i, j)
}

/// The density at particle `i`: the mass of every particle within the largest
/// kernel radius, weighted by the density kernel.
pub open spec fn density_at(positions: Seq<Vector3>, params: SimulationParameters, i: int) -> int {
    saturated(
        masked_sum(
            positions.len(),
            near_mask(positions, i, params.largest_radius()),
            density_terms(positions, params, i),
        ),
    )
}

/// The near-density at particle `i`, weighted by the near-density kernel.
pub open spec fn near_density_at(
    positions: Seq<Vector3>,
    params: SimulationParameters,
    i: int,
) -> int {
    saturated(
        masked_sum(
            positions.len(),
            near_mask(positions, i, params.largest_radius()),
            near_density_terms(positions, params, i),
        ),
    )
}

/// Computes the predicted position of every particle.
pub fn predict_positions(particles: &Vec<Particle>, params: &SimulationParameters) -> (predicted:
    Vec<Vector3>)
    ensures
        predicted@ == predicted_positions(particles@, *params),
{
    let mut predicted: Vec<Vector3> = Vec::new();
    let mut i: usize = 0;
    while i < particles.len()
        invariant
            i <= particles.len(),
            predicted.len() == i,
            forall|k: int| 0 <= k < i ==> predicted[k] == predicted_position(particles[k], *params),
        decreases particles.len() - i,
    {
        let p = particles[i];
        predicted.push(p.position.plus(p.velocity.scaled(params.time_scale)));
        i = i + 1;
    }
    predicted
}

/// The neighbours of particle `i` within `radius`, each once, and the
/// distance of each from the particle.
pub fn gather(
    grid: &NeighbourSearchGridState,
    positions: &Vec<Vector3>,
    grid_size: i64,
    i: usize,
    radius: i64,
) -> (near: (Vec<u32>, Vec<i64>))
    requires
        grid.indexes(positions@, grid_size),
        i < positions.len(),
        radius <= grid_size,
    ensures
        near.0@.no_duplicates(),
        forall|id: u32|
            (#[trigger] near.0@.contains(id)) <==> id < positions.len() && near_mask(
                positions@,
                i as int,
                radius as int,
            )(id as int),
        near.1.len() == near.0.len(),
        near.0.len() <= u32::MAX,
        forall|k: int|
            0 <= k < near.0.len() ==> (#[trigger] near.0[k]) < positions.len() && near.1[k]
                == distance(positions[i as int], positions[near.0[k] as int]) && 0 <= near.1[k]
                <= radius,
{
    let center = positions[i];
    let found = grid.neighbours(positions, grid_size, center, radius);
    proof {
        found@.unique_seq_to_set();
        lemma_ids_below_finite(positions.len() as nat);
        vstd::set_lib::lemma_len_subset(
            found@.to_set(),
            Set::new(|id: u32| id < positions.len()),
        );
    }
    let mut gaps: Vec<i64> = Vec::new();
    let mut k: usize = 0;
    while k < found.len()
        invariant
            k <= found.len(),
            i < positions.len(),
            center == positions[i as int],
            gaps.len() == k,
            forall|id: u32|
                (#[trigger] found@.contains(id)) <==> id < positions.len() && within(
                    center,
                    positions[id as int],
                    radius as int,
                ),
            forall|m: int|
                0 <= m < k ==> gaps[m] == distance(center, positions[found[m] as int]) && 0
                    <= gaps[m] <= radius,
        decreases found.len() - k,
    {
        let id = found[k];
        assert(found@.contains(id));
        let d = center.distance_within(positions[id as usize], radius);
        gaps.push(d.unwrap());
        k = k + 1;
    }
    proof {
        assert forall|m: int| 0 <= m < found.len() implies (#[trigger] found[m])
            < positions.len() by {
            assert(found@.contains(found[m]));
        }
    }
    (found, gaps)
}

/// The ids below `n` are a finite set of `n` elements.
pub proof fn lemma_ids_below_finite(n: nat)
    requires
        n <= u32::MAX,
    ensures
        Set::new(|id: u32| id < n).finite(),
        Set::new(|id: u32| id < n).len() == n,
    decreases n,
{
    let s = Set::new(|id: u32| id < n);
    if n == 0 {
        assert(s =~= Set::<u32>::empty());
    } else {
        let shorter = Set::new(|id: u32| id < n - 1);
        lemma_ids_below_finite((n - 1) as nat);
        assert(s =~= shorter.insert((n - 1) as u32));
    }
}

/// The density pass: the density and the near-density at every particle.
pub fn density_pass(
    grid: &NeighbourSearchGridState,
    positions: &Vec<Vector3>,
    params: &SimulationParameters,
) -> (fields: (Vec<i64>, Vec<i64>))
    requires
        params.valid(),
        grid.indexes(positions@, params.grid_size),
    ensures
        fields.0.len() == positions.len(),
        fields.1.len() == positions.len(),
        forall|i: int|
            0 <= i < positions.len() ==> fields.0[i] == density_at(positions@, *params, i),
        forall|i: int|
            0 <= i < positions.len() ==> fields.1[i] == near_density_at(positions@, *params, i),
        forall|i: int| 0 <= i < positions.len() ==> fields.0[i] >= 0 && fields.1[i] >= 0,
{
    let n = positions.len();
    let radius = params.max_radius();
    let mut densities: Vec<i64> = Vec::new();
    let mut near_densities: Vec<i64> = Vec::new();
    let mut i: usize = 0;
    while i < n
        invariant
            i <= n,
            n == positions.len(),
            params.valid(),
            radius == params.largest_radius(),
            radius <= params.grid_size,
            grid.indexes(positions@, params.grid_size),
            densities.len() == i,
            near_densities.len() == i,
            forall|k: int| 0 <= k < i ==> densities[k] == density_at(positions@, *params, k),
            forall|k: int|
                0 <= k < i ==> near_densities[k] == near_density_at(positions@, *params, k),
            forall|k: int| 0 <= k < i ==> densities[k] >= 0 && near_densities[k] >= 0,
        decreases n - i,
    {
        let (found, gaps) = gather(grid, positions, params.grid_size, i, radius);
        let mut terms: Vec<i64> = Vec::new();
        let mut near_terms: Vec<i64> = Vec::new();
        let mut k: usize = 0;
        while k < found.len()
            invariant
                k <= found.len(),
                gaps.len() == found.len(),
                i < n,
                n == positions.len(),
                terms.len() == k,
                near_terms.len() == k,
                forall|m: int|
                    0 <= m < found.len() ==> (#[trigger] found[m]) < positions.len() && gaps[m]
                        == distance(positions[i as int], positions[found[m] as int]),
                forall|m: int|
                    0 <= m < k ==> terms[m] == density_term(
                        positions@,
                        *params,
                        i as int,
                        found[m] as int,
                    ),
                forall|m: int|
                    0 <= m < k ==> near_terms[m] == near_density_term(
                        positions@,
                        *params,
                        i as int,
                        found[m] as int,
                    ),
            decreases found.len() - k,
        {
            let d = gaps[k];
            terms.push(
                mul_fixed(params.particle_mass, poly_kernel_at(d, params.poly_kernel_radius)),
            );
            near_terms.push(
                mul_fixed(
                    params.particle_mass,
                    spiky_kernel_at(d, params.near_pressure_kernel_radius),
                ),
            );
            k = k + 1;
        }
        let density = sum_scalars(&terms);
        let near_density = sum_scalars(&near_terms);
        proof {
            let mask = near_mask(positions@, i as int, radius as int);
            lemma_walk_is_masked_sum(
                found@,
                scalar_values(terms@),
                n as nat,
                mask,
                density_terms(positions@, *params, i as int),
            );
            lemma_walk_is_masked_sum(
                found@,
                scalar_values(near_terms@),
                n as nat,
                mask,
                near_density_terms(positions@, *params, i as int),
            );
            lemma_density_not_negative(positions@, *params, i as int);
        }
        densities.push(density);
        near_densities.push(near_density);
        i = i + 1;
    }
    (densities, near_densities)
}

/// Density and near-density are never negative.
pub proof fn lemma_density_not_negative(
    positions: Seq<Vector3>,
    params: SimulationParameters,
    i: int,
)
    requires
        params.particle_mass >= 0,
    ensures
        density_at(positions, params, i) >= 0,
        near_density_at(positions, params, i) >= 0,
{
    let mask = near_mask(positions, i, params.largest_radius());
    let terms = density_terms(positions, params, i);
    let near_terms = near_density_terms(positions, params, i);
    assert forall|j: int| 0 <= j < positions.len() && mask(j) implies #[trigger] terms(j) >= 0 by {
        let d = distance(positions[i], positions[j]);
        lemma_kernel_ranges(d, params.poly_kernel_radius as int);
    }
    assert forall|j: int| 0 <= j < positions.len() && mask(j) implies #[trigger] near_terms(j)
        >= 0 by {
        let d = distance(positions[i], positions[j]);
        lemma_kernel_ranges(d, params.near_pressure_kernel_radius as int);
    }
    lemma_masked_sum_not_negative(positions.len(), mask, terms);
    lemma_masked_sum_not_negative(positions.len(), mask, near_terms);
}

/// A particle with a neighbour is denser than one alone: the density at a
/// particle is at least its own mass and what any one other particle within
/// the largest kernel radius adds, so it exceeds the density of a lone
/// particle, its mass, wherever that neighbour adds anything and the sum
/// does not saturate.
pub proof fn lemma_density_above_own(
    positions: Seq<Vector3>,
    params: SimulationParameters,
    i: int,
    j: int,
)
    requires
        params.valid(),
        0 <= i < positions.len(),
        0 <= j < positions.len(),
        i != j,
        within(positions[i], positions[j], params.largest_radius()),
    ensures
        density_term(positions, params, i, i) == params.particle_mass,
        density_at(positions, params, i) >= saturated(
            params.particle_mass + density_term(positions, params, i, j),
        ),
{
    let mask = near_mask(positions, i, params.largest_radius());
    let terms = density_terms(positions, params, i);
    assert forall|k: int| 0 <= k < positions.len() && mask(k) implies #[trigger] terms(k) >= 0 by {
        lemma_kernel_ranges(
            distance(positions[i], positions[k]),
            params.poly_kernel_radius as int,
        );
    }
    crate::fixed::lemma_root_unique(0, 0);
    assert(distance(positions[i], positions[i]) == 0);
    lemma_kernel_ranges(0, params.poly_kernel_radius as int);
    assert(terms(i) == params.particle_mass);
    assert(mask(i));
    lemma_masked_sum_holds_two(positions.len(), mask, terms, i, j);
}

} // verus!
