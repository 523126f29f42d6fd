//! The pass that advances velocities and positions and keeps the particles
//! inside the bounding volume.
use vstd::prelude::*;
use crate::density::{gather, near_mask};
use crate::fixed::{
    lemma_root_unique, mul_fixed, neg_fixed, negation, product, saturate, saturated, ONE,
};
use crate::kernels::{lemma_kernel_ranges, poly_kernel, poly_kernel_at};
use crate::parameters::SimulationParameters;
use crate::particle::{Fluid, Particle, ParticlesState};
use crate::search::NeighbourSearchGridState;
use crate::sums::{
    axis, lemma_masked_sum_holds_one, lemma_walk_is_masked_sum, masked_sum, sum_wide, total,
    wide_values,
};
use crate::surface::ready;
use crate::vector::{distance, vector_scaled, vector_sum, Vector3};

verus! {

/// The velocity of a particle after its acceleration has acted for one time
/// step.
pub open spec fn advanced_velocity(
    p: Particle,
    acceleration: Vector3,
    params: SimulationParameters,
) -> Vector3 {
    vector_sum(p.velocity, vector_scaled(acceleration, params.time_scale as int))
}

/// The advanced velocities of all particles.
pub open spec fn advanced_velocities(
    particles: Seq<Particle>,
    accelerated: Seq<Vector3>,
    params: SimulationParameters,
) -> Seq<Vector3> {
    Seq::new(particles.len(), |i: int| advanced_velocity(particles[i], accelerated[i], params))
}

/// The weight of particle `j` in the average velocity around particle `i`.
pub open spec fn blend_weight(
    predicted: Seq<Vector3>,
    params: SimulationParameters,
    i: int,
    j: int,
) -> int {
    poly_kernel(distance(predicted[i], predicted[j]), params.viscosity_kernel_radius as int)
}

/// The weights around particle `i`, by neighbour.
pub open spec fn blend_weights(
    predicted: Seq<Vector3>,
    params: SimulationParameters,
    i: int,
) -> spec_fn(int) -> int {
    |j: int| blend_weight(predicted, params, i, j)
}

/// The sum of the weights around particle `i`, itself included.
pub open spec fn weight_around(
    predicted: Seq<Vector3>,
    params: SimulationParameters,
    i: int,
) -> int {
    masked_sum(
        predicted.len(),
        near_mask(predicted, i, params.largest_radius()),
        blend_weights(predicted, params, i),
    )
}

/// The velocity smoothing scale, taken between zero and one.
pub open spec fn smoothing(params: SimulationParameters) -> int {
    if params.velocity_smoothing_scale < 0 {
        0
    } else if params.velocity_smoothing_scale > ONE {
        ONE as int
    } else {
        params.velocity_smoothing_scale as int
    }
}

/// The share of the velocity of particle `j` that particle `i` takes over:
/// the smoothing scale times the weight of `j`, over the larger of the two
/// particles' sums of weights. Both particles of a pair have the same share
/// in each other, and the shares of all others in one particle come to no
/// more than the smoothing scale.
pub open spec fn share(
    predicted: Seq<Vector3>,
    params: SimulationParameters,
    i: int,
    j: int,
) -> int {
    let here = weight_around(predicted, params, i);
    let there = weight_around(predicted, params, j);
    let larger = if here >= there { here } else { there };
    if i != j && larger > 0 {
        (smoothing(params) * blend_weight(predicted, params, i, j)) / larger
    } else {
        0
    }
}

/// What particle `i` gains on one axis from particle `j`: its share of the
/// velocity of `j` relative to its own.
pub open spec fn exchange_term(
    predicted: Seq<Vector3>,
    velocities: Seq<Vector3>,
    params: SimulationParameters,
    i: int,
    j: int,
    a: int,
) -> int {
    share(predicted, params, i, j) * (axis(velocities[j], a) - axis(velocities[i], a))
}

/// What particle `i` gains on one axis, by neighbour.
pub open spec fn exchange_terms(
    predicted: Seq<Vector3>,
    velocities: Seq<Vector3>,
    params: SimulationParameters,
    i: int,
    a: int,
) -> spec_fn(int) -> int {
    |j: int| exchange_term(predicted, velocities, params, i, j, a)
}

/// The quotient rounded towards zero.
pub open spec fn toward_zero(n: int, d: int) -> int {
    if n >= 0 {
        n / d
    } else {
        -((-n) / d)
    }
}

/// The smoothed velocity of particle `i` on one axis: its own velocity and
/// what it gains from the particles within the largest kernel radius, which
/// moves it towards the weighted average of the velocities around it.
pub open spec fn smoothed_on_axis(
    predicted: Seq<Vector3>,
    velocities: Seq<Vector3>,
    params: SimulationParameters,
    i: int,
    a: int,
) -> int {
    saturated(
        toward_zero(
            ONE * axis(velocities[i], a) + masked_sum(
                predicted.len(),
                near_mask(predicted, i, params.largest_radius()),
                exchange_terms(predicted, velocities, params, i, a),
            ),
            ONE as int,
        ),
    )
}

/// The velocity of particle `i` after smoothing. Where no neighbour has a
/// larger sum of weights than the particle itself, this is the velocity
/// moved towards the weighted average around it by the smoothing scale.
/// Because the two particles of a pair share alike, smoothing moves momentum
/// between particles without making any, and makes no kinetic energy.
pub open spec fn smoothed_velocity(
    predicted: Seq<Vector3>,
    velocities: Seq<Vector3>,
    params: SimulationParameters,
    i: int,
) -> Vector3 {
    Vector3 {
        x: smoothed_on_axis(predicted, velocities, params, i, 0) as i64,
        y: smoothed_on_axis(predicted, velocities, params, i, 1) as i64,
        z: smoothed_on_axis(predicted, velocities, params, i, 2) as i64,
    }
}

/// The sum of the weights around a particle is at least the particle's own
/// weight, one.
pub proof fn lemma_weight_around(predicted: Seq<Vector3>, params: SimulationParameters, i: int)
    requires
        params.valid(),
        0 <= i < predicted.len(),
    ensures
        weight_around(predicted, params, i) >= ONE,
        forall|j: int| 0 <= #[trigger] blend_weight(predicted, params, i, j) <= ONE,
{
    let mask = near_mask(predicted, i, params.largest_radius());
    let weights = blend_weights(predicted, params, i);
    assert forall|j: int| 0 <= #[trigger] blend_weight(predicted, params, i, j) <= ONE by {
        lemma_kernel_ranges(
            distance(predicted[i], predicted[j]),
            params.viscosity_kernel_radius as int,
        );
    }
    assert forall|j: int| 0 <= j < predicted.len() && mask(j) implies #[trigger] weights(j)
        >= 0 by {
        assert(weights(j) == blend_weight(predicted, params, i, j));
    }
    lemma_root_unique(0, 0);
    assert(distance(predicted[i], predicted[i]) == 0);
    lemma_kernel_ranges(0, params.viscosity_kernel_radius as int);
    assert(weights(i) == ONE);
    assert(mask(i));
    lemma_masked_sum_holds_one(predicted.len(), mask, weights, i);
}

/// A coordinate brought back between `low` and `high`.
pub open spec fn bounced_coordinate(x: int, low: int, high: int) -> int {
    if x < low {
        low
    } else if x > high {
        high
    } else {
        x
    }
}

/// The velocity along an axis after the boundary response: reversed and
/// scaled by the damping where the coordinate `x` left the range from `low` to
/// `high`, unchanged where it did not.
pub open spec fn bounced_speed(x: int, v: int, low: int, high: int, damping: int) -> int {
    if x < low || x > high {
        negation(product(v, damping))
    } else {
        v
    }
}

/// The particle as a frame commits it: moved by `velocity` over one time step,
/// then brought back into the bounding volume axis by axis, with the velocity
/// reflected on each axis on which it had left.
pub open spec fn committed(
    p: Particle,
    velocity: Vector3,
    params: SimulationParameters,
) -> Particle {
    let moved = vector_sum(p.position, vector_scaled(velocity, params.time_scale as int));
    let low = params.bounding_box.position1;
    let high = params.bounding_box.position2;
    let damping = params.collision_damping as int;
    Particle {
        position: Vector3 {
            x: bounced_coordinate(moved.x as int, low.x as int, high.x as int) as i64,
            y: bounced_coordinate(moved.y as int, low.y as int, high.y as int) as i64,
            z: bounced_coordinate(moved.z as int, low.z as int, high.z as int) as i64,
        },
        velocity: Vector3 {
            x: bounced_speed(
                moved.x as int,
                velocity.x as int,
                low.x as int,
                high.x as int,
                damping,
            ) as i64,
            y: bounced_speed(
                moved.y as int,
                velocity.y as int,
                low.y as int,
                high.y as int,
                damping,
            ) as i64,
            z: bounced_speed(
                moved.z as int,
                velocity.z as int,
                low.z as int,
                high.z as int,
                damping,
            ) as i64,
        },
        color: p.color,
    }
}

/// The particles after the integration pass: velocities advanced by the
/// accelerations, smoothed, then each particle committed.
pub open spec fn integrated(
    f: Fluid,
    accelerated: Seq<Vector3>,
    params: SimulationParameters,
) -> Seq<Particle> {
    let velocities = advanced_velocities(f.particles, accelerated, params);
    Seq::new(
        f.particles.len(),
        |i: int| committed(
            f.particles[i],
            smoothed_velocity(f.predicted, velocities, params, i),
            params,
        ),
    )
}

/// A committed particle lies inside the bounding volume.
pub proof fn lemma_committed_inside(p: Particle, velocity: Vector3, params: SimulationParameters)
    requires
        params.bounding_box.ordered(),
    ensures
        params.bounding_box.holds(committed(p, velocity, params).position),
{
}

/// One axis of the boundary response.
fn bounce(x: i64, v: i64, low: i64, high: i64, damping: i64) -> (r: (i64, i64))
    ensures
        r.0 == bounced_coordinate(x as int, low as int, high as int),
        r.1 == bounced_speed(x as int, v as int, low as int, high as int, damping as int),
{
    if x < low {
        (low, neg_fixed(mul_fixed(v, damping)))
    } else if x > high {
        (high, neg_fixed(mul_fixed(v, damping)))
    } else {
        (x, v)
    }
}

/// Moves a particle by `velocity` over one time step and applies the boundary
/// response.
pub fn commit(p: Particle, velocity: Vector3, params: &SimulationParameters) -> (q: Particle)
    ensures
        q == committed(p, velocity, *params),
        params.bounding_box.ordered() ==> params.bounding_box.holds(q.position),
{
    let moved = p.position.plus(velocity.scaled(params.time_scale));
    let low = params.bounding_box.position1;
    let high = params.bounding_box.position2;
    let (x, vx) = bounce(moved.x, velocity.x, low.x, high.x, params.collision_damping);
    let (y, vy) = bounce(moved.y, velocity.y, low.y, high.y, params.collision_damping);
    let (z, vz) = bounce(moved.z, velocity.z, low.z, high.z, params.collision_damping);
    Particle {
        position: Vector3 { x, y, z },
        velocity: Vector3 { x: vx, y: vy, z: vz },
        color: p.color,
    }
}

/// Advances the velocity of every particle by its acceleration.
pub fn advance_velocities(
    particles: &Vec<Particle>,
    accelerated: &Vec<Vector3>,
    params: &SimulationParameters,
) -> (velocities: Vec<Vector3>)
    requires
        accelerated.len() == particles.len(),
    ensures
        velocities@ == advanced_velocities(particles@, accelerated@, *params),
{
    let mut velocities: Vec<Vector3> = Vec::new();
    let mut i: usize = 0;
    while i < particles.len()
        invariant
            i <= particles.len(),
            accelerated.len() == particles.len(),
            velocities.len() == i,
            forall|k: int|
                0 <= k < i ==> velocities[k] == advanced_velocity(
                    particles[k],
                    accelerated[k],
                    *params,
                ),
        decreases particles.len() - i,
    {
        velocities.push(particles[i].velocity.plus(accelerated[i].scaled(params.time_scale)));
        i = i + 1;
    }
    velocities
}

/// The integration pass: the particles as the frame commits them. Every one
/// of them lies inside the bounding volume.
pub fn integrate(
    grid: &NeighbourSearchGridState,
    state: &ParticlesState,
    accelerated: &Vec<Vector3>,
    params: &SimulationParameters,
) -> (particles: Vec<Particle>)
    requires
        ready(state@, *grid, *params),
        accelerated.len() == state.particles.len(),
    ensures
        particles@ == integrated(state@, accelerated@, *params),
        forall|i: int|
            0 <= i < particles.len() ==> params.bounding_box.holds(
                (#[trigger] particles[i]).position,
            ),
{
    let n = state.particles.len();
    let radius = params.max_radius();
    let velocities = advance_velocities(&state.particles, accelerated, params);
    let around = weights_around(grid, state, params);
    let scale: i128 = if params.velocity_smoothing_scale < 0 {
        0
    } else if params.velocity_smoothing_scale > ONE {
        ONE as i128
    } else {
        params.velocity_smoothing_scale as i128
    };
    let mut particles: Vec<Particle> = Vec::new();
    let mut i: usize = 0;
    while i < n
        invariant
            i <= n,
            n == state.particles.len(),
            ready(state@, *grid, *params),
            radius == params.largest_radius(),
            radius <= params.grid_size,
            scale == smoothing(*params),
            around.len() == n,
            forall|k: int|
                0 <= k < n ==> ONE <= (#[trigger] around[k]) && around[k] == weight_around(
                    state@.predicted,
                    *params,
                    k,
                ),
            velocities@ == advanced_velocities(state@.particles, accelerated@, *params),
            particles.len() == i,
            forall|k: int|
                0 <= k < i ==> particles[k] == committed(
                    state.particles[k],
                    smoothed_velocity(state@.predicted, velocities@, *params, k),
                    *params,
                ),
            forall|k: int|
                0 <= k < i ==> params.bounding_box.holds((#[trigger] particles[k]).position),
        decreases n - i,
    {
        let (found, gaps) = gather(grid, &state.predicted_positions, params.grid_size, i, radius);
        let own = velocities[i];
        let mut along_x: Vec<i128> = Vec::new();
        let mut along_y: Vec<i128> = Vec::new();
        let mut along_z: Vec<i128> = Vec::new();
        let mut k: usize = 0;
        while k < found.len()
            invariant
                k <= found.len(),
                gaps.len() == found.len(),
                i < n,
                n == state.particles.len(),
                n == velocities.len(),
                around.len() == n,
                state.aligned(),
                params.valid(),
                0 <= scale <= ONE,
                scale == smoothing(*params),
                own == velocities[i as int],
                forall|m: int|
                    0 <= m < n ==> ONE <= (#[trigger] around[m]) && around[m] == weight_around(
                        state@.predicted,
                        *params,
                        m,
                    ),
                along_x.len() == k,
                along_y.len() == k,
                along_z.len() == k,
                forall|m: int|
                    0 <= m < found.len() ==> (#[trigger] found[m]) < n && gaps[m] == distance(
                        state.predicted_positions[i as int],
                        state.predicted_positions[found[m] as int],
                    ),
                forall|m: int|
                    0 <= m < k ==> -0x1_0000_0000_0000_0000_0000 <= (#[trigger] along_x[m])
                        <= 0x1_0000_0000_0000_0000_0000 && along_x[m] == exchange_term(
                        state@.predicted,
                        velocities@,
                        *params,
                        i as int,
                        found[m] as int,
                        0,
                    ),
                forall|m: int|
                    0 <= m < k ==> -0x1_0000_0000_0000_0000_0000 <= (#[trigger] along_y[m])
                        <= 0x1_0000_0000_0000_0000_0000 && along_y[m] == exchange_term(
                        state@.predicted,
                        velocities@,
                        *params,
                        i as int,
                        found[m] as int,
                        1,
                    ),
                forall|m: int|
                    0 <= m < k ==> -0x1_0000_0000_0000_0000_0000 <= (#[trigger] along_z[m])
                        <= 0x1_0000_0000_0000_0000_0000 && along_z[m] == exchange_term(
                        state@.predicted,
                        velocities@,
                        *params,
                        i as int,
                        found[m] as int,
                        2,
                    ),
            decreases found.len() - k,
        {
            let j = found[k] as usize;
            let weight = poly_kernel_at(gaps[k], params.viscosity_kernel_radius);
            let larger = if around[i] >= around[j] { around[i] } else { around[j] };
            assert(0 <= scale * weight <= 0x1_0000_0000) by (nonlinear_arith)
                requires
                    0 <= scale <= 65536,
                    0 <= weight <= 65536,
            ;
            let part: i128 = if j != i {
                (scale * weight as i128) / larger
            } else {
                0
            };
            let other = velocities[j];
            proof {
                assert(0 <= part <= ONE) by (nonlinear_arith)
                    requires
                        0 <= scale <= 65536,
                        0 <= weight <= 65536,
                        larger >= 65536,
                        part == 0 || part == (scale * weight) / (larger as int),
                ;
                assert(part == share(state@.predicted, *params, i as int, j as int));
                lemma_share_fits(part as int, other.x - own.x);
                lemma_share_fits(part as int, other.y - own.y);
                lemma_share_fits(part as int, other.z - own.z);
            }
            along_x.push(part * (other.x as i128 - own.x as i128));
            along_y.push(part * (other.y as i128 - own.y as i128));
            along_z.push(part * (other.z as i128 - own.z as i128));
            k = k + 1;
        }
        let gain_x = sum_wide(&along_x);
        let gain_y = sum_wide(&along_y);
        let gain_z = sum_wide(&along_z);
        proof {
            let mask = near_mask(state@.predicted, i as int, radius as int);
            lemma_walk_is_masked_sum(
                found@,
                wide_values(along_x@),
                n as nat,
                mask,
                exchange_terms(state@.predicted, velocities@, *params, i as int, 0),
            );
            lemma_walk_is_masked_sum(
                found@,
                wide_values(along_y@),
                n as nat,
                mask,
                exchange_terms(state@.predicted, velocities@, *params, i as int, 1),
            );
            lemma_walk_is_masked_sum(
                found@,
                wide_values(along_z@),
                n as nat,
                mask,
                exchange_terms(state@.predicted, velocities@, *params, i as int, 2),
            );
            lemma_sum_fits(wide_values(along_x@));
            lemma_sum_fits(wide_values(along_y@));
            lemma_sum_fits(wide_values(along_z@));
            lemma_share_fits(ONE as int, own.x as int);
            lemma_share_fits(ONE as int, own.y as int);
            lemma_share_fits(ONE as int, own.z as int);
        }
        let smoothed = Vector3 {
            x: saturate(round_toward_zero((ONE as i128) * (own.x as i128) + gain_x)),
            y: saturate(round_toward_zero((ONE as i128) * (own.y as i128) + gain_y)),
            z: saturate(round_toward_zero((ONE as i128) * (own.z as i128) + gain_z)),
        };
        particles.push(commit(state.particles[i], smoothed, params));
        i = i + 1;
    }
    particles
}

/// The sum of the weights around every particle.
pub fn weights_around(
    grid: &NeighbourSearchGridState,
    state: &ParticlesState,
    params: &SimulationParameters,
) -> (around: Vec<i128>)
    requires
        ready(state@, *grid, *params),
    ensures
        around.len() == state.particles.len(),
        forall|k: int|
            0 <= k < around.len() ==> ONE <= (#[trigger] around[k]) && around[k] == weight_around(
                state@.predicted,
                *params,
                k,
            ),
{
    let n = state.particles.len();
    let radius = params.max_radius();
    let mut around: Vec<i128> = Vec::new();
    let mut i: usize = 0;
    while i < n
        invariant
            i <= n,
            n == state.particles.len(),
            ready(state@, *grid, *params),
            radius == params.largest_radius(),
            radius <= params.grid_size,
            around.len() == i,
            forall|k: int|
                0 <= k < i ==> ONE <= (#[trigger] around[k]) && around[k] == weight_around(
                    state@.predicted,
                    *params,
                    k,
                ),
        decreases n - i,
    {
        let (found, gaps) = gather(grid, &state.predicted_positions, params.grid_size, i, radius);
        let mut weights: Vec<i128> = Vec::new();
        let mut k: usize = 0;
        while k < found.len()
            invariant
                k <= found.len(),
                gaps.len() == found.len(),
                i < n,
                n == state.particles.len(),
                state.aligned(),
                weights.len() == k,
                forall|m: int|
                    0 <= m < found.len() ==> (#[trigger] found[m]) < n && gaps[m] == distance(
                        state.predicted_positions[i as int],
                        state.predicted_positions[found[m] as int],
                    ),
                forall|m: int|
                    0 <= m < k ==> 0 <= (#[trigger] weights[m]) <= ONE && weights[m]
                        == blend_weight(state@.predicted, *params, i as int, found[m] as int),
            decreases found.len() - k,
        {
            weights.push(poly_kernel_at(gaps[k], params.viscosity_kernel_radius) as i128);
            k = k + 1;
        }
        let sum = sum_wide(&weights);
        proof {
            lemma_walk_is_masked_sum(
                found@,
                wide_values(weights@),
                n as nat,
                near_mask(state@.predicted, i as int, radius as int),
                blend_weights(state@.predicted, *params, i as int),
            );
            lemma_weight_around(state@.predicted, *params, i as int);
        }
        around.push(sum);
        i = i + 1;
    }
    around
}

/// Divides by one, rounding towards zero.
fn round_toward_zero(n: i128) -> (q: i128)
    requires
        -0x2_0000_0000_0000_0000_0000_0000_0000 <= n <= 0x2_0000_0000_0000_0000_0000_0000_0000,
    ensures
        q == toward_zero(n as int, ONE as int),
{
    if n >= 0 {
        n / (ONE as i128)
    } else {
        -((-n) / (ONE as i128))
    }
}

/// A share of at most one times a difference of two scalars has at most
/// eighty bits.
proof fn lemma_share_fits(part: int, gap: int)
    requires
        0 <= part <= ONE,
        -0x1_0000_0000_0000_0000 <= gap <= 0x1_0000_0000_0000_0000,
    ensures
        -0x1_0000_0000_0000_0000_0000 <= part * gap <= 0x1_0000_0000_0000_0000_0000,
{
    assert(-0x1_0000_0000_0000_0000_0000 <= part * gap <= 0x1_0000_0000_0000_0000_0000)
        by (nonlinear_arith)
        requires
            0 <= part <= 65536,
            -0x1_0000_0000_0000_0000 <= gap <= 0x1_0000_0000_0000_0000,
    ;
}

/// The total of at most 2^32 terms of at most eighty bits has at most 112.
proof fn lemma_sum_fits(values: Seq<int>)
    requires
        values.len() <= u32::MAX,
        forall|k: int|
            0 <= k < values.len() ==> -0x1_0000_0000_0000_0000_0000 <= #[trigger] values[k]
                <= 0x1_0000_0000_0000_0000_0000,
    ensures
        -(values.len() as int) * 0x1_0000_0000_0000_0000_0000 <= total(values) <= (
        values.len() as int) * 0x1_0000_0000_0000_0000_0000,
        -0x1_0000_0000_0000_0000_0000_0000_0000 <= total(values)
            <= 0x1_0000_0000_0000_0000_0000_0000_0000,
    decreases values.len(),
{
    if values.len() > 0 {
        lemma_sum_fits(values.drop_last());
    }
    assert((values.len() as int) * 0x1_0000_0000_0000_0000_0000
        <= 0x1_0000_0000_0000_0000_0000_0000_0000) by (nonlinear_arith)
        requires
            values.len() <= 0xffff_ffff,
    ;
}

} // verus!
