//! Why velocity smoothing makes no kinetic energy: every pair of particles
//! shares alike, so what one gains in squared speed the other gives up, and
//! each smoothed velocity is a weighted mean, whose square is at most the
//! weighted mean of the squares.
use vstd::prelude::*;
use crate::density::near_mask;
use crate::fixed::{saturated, ONE};
use crate::integration::{
    blend_weight, blend_weights, exchange_terms, lemma_weight_around, share, smoothed_on_axis,
    smoothed_velocity, smoothing, toward_zero, weight_around,
};
use crate::parameters::SimulationParameters;
use crate::particle::Particle;
use crate::series::{
    lemma_double_series_of_rows, lemma_exchange_cancels, lemma_row_is, lemma_series_add,
    lemma_series_cauchy, lemma_series_of_masked, lemma_series_ordered, lemma_series_scale, row,
    series,
};
use crate::sums::{axis, masked_sum};
use crate::vector::{distance, distance_squared, lemma_within_symmetric, within, Vector3};

verus! {

/// The square of a number.
pub open spec fn square(x: int) -> int {
    x * x
}

/// The share of particle `j` in particle `i`, zero beyond the largest kernel
/// radius.
pub open spec fn reach(
    predicted: Seq<Vector3>,
    params: SimulationParameters,
    i: int,
    j: int,
) -> int {
    if within(predicted[i], predicted[j], params.largest_radius()) {
        share(predicted, params, i, j)
    } else {
        0
    }
}

/// What particle `i` may gain in squared speed on one axis from particle `j`.
pub open spec fn square_gain(
    predicted: Seq<Vector3>,
    velocities: Seq<Vector3>,
    params: SimulationParameters,
    a: int,
    i: int,
    j: int,
) -> int {
    reach(predicted, params, i, j) * (square(axis(velocities[j], a)) - square(
        axis(velocities[i], a),
    ))
}

/// The gains in squared speed on one axis, by pair.
pub open spec fn square_gains(
    predicted: Seq<Vector3>,
    velocities: Seq<Vector3>,
    params: SimulationParameters,
    a: int,
) -> spec_fn(int, int) -> int {
    |i: int, j: int| square_gain(predicted, velocities, params, a, i, j)
}

/// The sum over all particles of the squared speed.
pub open spec fn speed_sum(velocities: Seq<Vector3>) -> int {
    series(velocities.len(), |i: int| speed_squared(velocities[i]))
}

/// The square of the speed of a velocity, in raw units.
pub open spec fn speed_squared(v: Vector3) -> int {
    v.x * v.x + v.y * v.y + v.z * v.z
}

/// The velocities of the particles, in order.
pub open spec fn velocities_of(particles: Seq<Particle>) -> Seq<Vector3> {
    Seq::new(particles.len(), |k: int| particles[k].velocity)
}

/// Twice the kinetic energy of the particles: the mass times the sum over
/// them of the squared speed.
pub open spec fn kinetic_energy(particles: Seq<Particle>, mass: int) -> int {
    mass * speed_sum(velocities_of(particles))
}

/// The two particles of a pair share alike, no share is negative, no
/// particle shares with itself, and a share times the particle's sum of
/// weights is at most the smoothing scale times the weight of the other.
pub proof fn lemma_reach(predicted: Seq<Vector3>, params: SimulationParameters, i: int, j: int)
    requires
        params.valid(),
        0 <= i < predicted.len(),
        0 <= j < predicted.len(),
    ensures
        reach(predicted, params, i, j) == reach(predicted, params, j, i),
        reach(predicted, params, i, j) >= 0,
        reach(predicted, params, i, i) == 0,
        reach(predicted, params, i, j) * weight_around(predicted, params, i) <= smoothing(params)
            * if within(predicted[i], predicted[j], params.largest_radius()) {
            blend_weight(predicted, params, i, j)
        } else {
            0
        },
{
    let p = predicted[i];
    let q = predicted[j];
    let radius = params.largest_radius();
    assert(distance_squared(p, q) == distance_squared(q, p)) by (nonlinear_arith);
    assert(distance(p, q) == distance(q, p));
    assert(blend_weight(predicted, params, i, j) == blend_weight(predicted, params, j, i));
    if within(p, q, radius) {
        lemma_within_symmetric(p, q, radius, radius);
    }
    if within(q, p, radius) {
        lemma_within_symmetric(q, p, radius, radius);
    }
    lemma_weight_around(predicted, params, i);
    lemma_weight_around(predicted, params, j);
    let here = weight_around(predicted, params, i);
    let there = weight_around(predicted, params, j);
    let larger = if here >= there { here } else { there };
    let s = smoothing(params);
    let w = blend_weight(predicted, params, i, j);
    let part = (s * w) / larger;
    assert(0 <= part && part * here <= s * w) by (nonlinear_arith)
        requires
            0 <= s,
            0 <= w,
            0 < here <= larger,
            part == (s * w) / larger,
    ;
    assert(0 * here == 0 && s * 0 == 0 && s * w >= 0) by (nonlinear_arith)
        requires
            0 <= s,
            0 <= w,
    ;
}

/// The shares of all particles in one come to no more than one.
pub proof fn lemma_reach_sum(predicted: Seq<Vector3>, params: SimulationParameters, i: int)
    requires
        params.valid(),
        0 <= i < predicted.len(),
        predicted.len() <= u32::MAX,
    ensures
        0 <= series(predicted.len(), |j: int| reach(predicted, params, i, j)) <= ONE,
{
    let n = predicted.len();
    let here = weight_around(predicted, params, i);
    let s = smoothing(params);
    let mask = near_mask(predicted, i, params.largest_radius());
    let shares = |j: int| reach(predicted, params, i, j);
    let scaled = |j: int| here * reach(predicted, params, i, j);
    let nothing = |j: int| 0int;
    let weights = |j: int|
        if within(predicted[i], predicted[j], params.largest_radius()) {
            blend_weight(predicted, params, i, j)
        } else {
            0
        };
    let bounds = |j: int| s * weights(j);
    lemma_weight_around(predicted, params, i);
    assert forall|j: int| 0 <= j < n implies #[trigger] scaled(j) <= bounds(j) && nothing(j)
        <= shares(j) by {
        lemma_reach(predicted, params, i, j);
        assert(here * reach(predicted, params, i, j) == reach(predicted, params, i, j) * here)
            by (nonlinear_arith);
    }
    lemma_series_ordered(n, scaled, bounds);
    lemma_series_ordered(n, nothing, shares);
    lemma_series_scale(n, nothing, 0, nothing);
    lemma_series_scale(n, shares, here, scaled);
    lemma_series_scale(n, weights, s, bounds);
    lemma_series_of_masked(n, mask, blend_weights(predicted, params, i), weights);
    let sum = series(n, shares);
    assert(sum <= ONE) by (nonlinear_arith)
        requires
            here > 0,
            here * sum <= s * here,
            s <= ONE,
    ;
}

/// Rounding towards zero and saturating never raise a square.
pub proof fn lemma_rounded_square(numerator: int)
    ensures
        ONE * ONE * square(saturated(toward_zero(numerator, ONE as int))) <= square(numerator),
{
    let t = toward_zero(numerator, ONE as int);
    assert((numerator >= 0 ==> 0 <= 65536 * t <= numerator) && (numerator < 0 ==> numerator
        <= 65536 * t <= 0)) by (nonlinear_arith)
        requires
            t == if numerator >= 0 {
                numerator / 65536
            } else {
                -((-numerator) / 65536)
            },
    ;
    let r = saturated(t);
    assert((t >= 0 ==> 0 <= r <= t) && (t < 0 ==> t <= r <= 0));
    assert(65536 * 65536 * (r * r) <= numerator * numerator) by (nonlinear_arith)
        requires
            (numerator >= 0 ==> 0 <= 65536 * t <= numerator) && (numerator < 0 ==> numerator
                <= 65536 * t <= 0),
            (t >= 0 ==> 0 <= r <= t) && (t < 0 ==> t <= r <= 0),
    ;
}

/// The square of a smoothed velocity on one axis is at most the square
/// before and what the particle may gain from the others.
pub proof fn lemma_smoothed_square(
    predicted: Seq<Vector3>,
    velocities: Seq<Vector3>,
    params: SimulationParameters,
    a: int,
    i: int,
)
    requires
        params.valid(),
        0 <= i < predicted.len(),
        predicted.len() <= u32::MAX,
        velocities.len() == predicted.len(),
    ensures
        ONE * square(smoothed_on_axis(predicted, velocities, params, i, a)) <= ONE * square(
            axis(velocities[i], a),
        ) + row(predicted.len(), square_gains(predicted, velocities, params, a), i),
{
    let n = predicted.len();
    let x = axis(velocities[i], a);
    let mask = near_mask(predicted, i, params.largest_radius());
    let shares = |j: int| reach(predicted, params, i, j);
    let values = |j: int| axis(velocities[j], a);
    let weighted = |j: int| reach(predicted, params, i, j) * axis(velocities[j], a);
    let squares = |j: int|
        reach(predicted, params, i, j) * (axis(velocities[j], a) * axis(velocities[j], a));
    let own = |j: int| (-x) * reach(predicted, params, i, j);
    let own_squares = |j: int| (-(x * x)) * reach(predicted, params, i, j);
    let gains = |j: int| reach(predicted, params, i, j) * (axis(velocities[j], a) - x);
    let gains_squared = |j: int| square_gain(predicted, velocities, params, a, i, j);
    let sum = series(n, shares);
    lemma_reach_sum(predicted, params, i);
    assert(series(n, shares) == sum);
    let first = ONE - sum;

    // The numerator is a weighted sum of the velocities, with weights that
    // come to one.
    assert forall|j: int| 0 <= j < n implies #[trigger] gains(j) == weighted(j) + own(j) by {
        let r = reach(predicted, params, i, j);
        let t = axis(velocities[j], a);
        assert(r * (t - x) == r * t + (-x) * r) by (nonlinear_arith);
    }
    lemma_series_add(n, weighted, own, gains);
    lemma_series_scale(n, shares, -x, own);
    assert forall|j: int| 0 <= j < n implies #[trigger] gains(j) == if mask(j) {
        exchange_terms(predicted, velocities, params, i, a)(j)
    } else {
        0
    } by {
        if !mask(j) {
            assert(0 * (axis(velocities[j], a) - x) == 0) by (nonlinear_arith);
        }
    }
    lemma_series_of_masked(
        n,
        mask,
        exchange_terms(predicted, velocities, params, i, a),
        gains,
    );
    let numerator = ONE * x + masked_sum(
        n,
        mask,
        exchange_terms(predicted, velocities, params, i, a),
    );
    assert(numerator == first * x + series(n, weighted)) by (nonlinear_arith)
        requires
            numerator == ONE * x + series(n, gains),
            series(n, gains) == series(n, weighted) + series(n, own),
            series(n, own) == (-x) * sum,
            first == ONE - sum,
    ;

    // The same for the squares.
    assert forall|j: int| 0 <= j < n implies #[trigger] gains_squared(j) == squares(j)
        + own_squares(j) by {
        let r = reach(predicted, params, i, j);
        let t = axis(velocities[j], a);
        assert(r * (t * t - x * x) == r * (t * t) + (-(x * x)) * r) by (nonlinear_arith);
    }
    lemma_series_add(n, squares, own_squares, gains_squared);
    lemma_series_scale(n, shares, -(x * x), own_squares);
    lemma_row_is(n, square_gains(predicted, velocities, params, a), i, gains_squared);
    let gained = row(n, square_gains(predicted, velocities, params, a), i);
    let mean_square = first * (x * x) + series(n, squares);
    assert(mean_square == ONE * (x * x) + gained) by (nonlinear_arith)
        requires
            mean_square == first * (x * x) + series(n, squares),
            gained == series(n, squares) + series(n, own_squares),
            series(n, own_squares) == (-(x * x)) * sum,
            first == ONE - sum,
    ;

    // The square of the mean is at most the mean of the squares.
    assert forall|j: int| 0 <= j < n implies (#[trigger] shares(j)) >= 0 && weighted(j) == shares(
        j,
    ) * values(j) && squares(j) == shares(j) * (values(j) * values(j)) by {
        lemma_reach(predicted, params, i, j);
    }
    lemma_series_cauchy(n, shares, values, weighted, squares, first, x);
    assert(numerator * numerator <= ONE * mean_square) by (nonlinear_arith)
        requires
            numerator == first * x + series(n, weighted),
            (first * x + series(n, weighted)) * (first * x + series(n, weighted)) <= (first
                + sum) * mean_square,
            first + sum == ONE,
    ;
    lemma_rounded_square(numerator);
    let after = smoothed_on_axis(predicted, velocities, params, i, a);
    assert(after == saturated(toward_zero(numerator, ONE as int)));
    assert(ONE * (after * after) <= mean_square) by (nonlinear_arith)
        requires
            65536 * 65536 * (after * after) <= numerator * numerator,
            numerator * numerator <= 65536 * mean_square,
            ONE == 65536,
    ;
}

/// Smoothing does not raise the sum of the squared velocities on any axis.
pub proof fn lemma_smoothing_on_axis(
    predicted: Seq<Vector3>,
    velocities: Seq<Vector3>,
    params: SimulationParameters,
    a: int,
)
    requires
        params.valid(),
        predicted.len() <= u32::MAX,
        velocities.len() == predicted.len(),
    ensures
        series(
            predicted.len(),
            |i: int| square(smoothed_on_axis(predicted, velocities, params, i, a)),
        ) <= series(predicted.len(), |i: int| square(axis(velocities[i], a))),
{
    let n = predicted.len();
    let pairs = square_gains(predicted, velocities, params, a);
    let after = |i: int| square(smoothed_on_axis(predicted, velocities, params, i, a));
    let before = |i: int| square(axis(velocities[i], a));
    let scaled_after = |i: int| ONE * square(smoothed_on_axis(predicted, velocities, params, i, a));
    let scaled_before = |i: int| ONE * square(axis(velocities[i], a));
    let rows = |i: int| row(n, pairs, i);
    let bounds = |i: int| ONE * square(axis(velocities[i], a)) + row(n, pairs, i);
    assert forall|i: int, j: int| 0 <= i < n && 0 <= j < n implies #[trigger] pairs(i, j)
        == -pairs(j, i) by {
        lemma_reach(predicted, params, i, j);
        let r = reach(predicted, params, i, j);
        let u = square(axis(velocities[j], a));
        let v = square(axis(velocities[i], a));
        assert(r * (u - v) == -(r * (v - u))) by (nonlinear_arith);
    }
    lemma_exchange_cancels(n, pairs);
    lemma_double_series_of_rows(n, n, pairs, rows);
    assert forall|i: int| 0 <= i < n implies #[trigger] scaled_after(i) <= bounds(i) by {
        lemma_smoothed_square(predicted, velocities, params, a, i);
    }
    lemma_series_ordered(n, scaled_after, bounds);
    lemma_series_add(n, scaled_before, rows, bounds);
    lemma_series_scale(n, after, ONE as int, scaled_after);
    lemma_series_scale(n, before, ONE as int, scaled_before);
    assert(series(n, after) <= series(n, before)) by (nonlinear_arith)
        requires
            65536 * series(n, after) <= 65536 * series(n, before),
    ;
}

/// The velocities of all particles after smoothing.
pub open spec fn smoothed_velocities(
    predicted: Seq<Vector3>,
    velocities: Seq<Vector3>,
    params: SimulationParameters,
) -> Seq<Vector3> {
    Seq::new(velocities.len(), |i: int| smoothed_velocity(predicted, velocities, params, i))
}

/// Smoothing makes no kinetic energy: at any smoothing scale, the squared
/// speeds of all particles after smoothing add up to no more than before.
pub proof fn lemma_smoothing_makes_no_energy(
    predicted: Seq<Vector3>,
    velocities: Seq<Vector3>,
    params: SimulationParameters,
)
    requires
        params.valid(),
        predicted.len() <= u32::MAX,
        velocities.len() == predicted.len(),
    ensures
        speed_sum(smoothed_velocities(predicted, velocities, params)) <= speed_sum(velocities),
{
    let n = predicted.len();
    let smoothed = smoothed_velocities(predicted, velocities, params);
    lemma_smoothing_on_axis(predicted, velocities, params, 0);
    lemma_smoothing_on_axis(predicted, velocities, params, 1);
    lemma_smoothing_on_axis(predicted, velocities, params, 2);
    let after_x = |i: int| square(smoothed_on_axis(predicted, velocities, params, i, 0));
    let after_y = |i: int| square(smoothed_on_axis(predicted, velocities, params, i, 1));
    let after_z = |i: int| square(smoothed_on_axis(predicted, velocities, params, i, 2));
    let before_x = |i: int| square(axis(velocities[i], 0));
    let before_y = |i: int| square(axis(velocities[i], 1));
    let before_z = |i: int| square(axis(velocities[i], 2));
    let after_xy = |i: int| after_x(i) + after_y(i);
    let before_xy = |i: int| before_x(i) + before_y(i);
    let after = |i: int| speed_squared(smoothed[i]);
    let before = |i: int| speed_squared(velocities[i]);
    lemma_series_add(n, after_x, after_y, after_xy);
    lemma_series_add(n, before_x, before_y, before_xy);
    assert forall|i: int| 0 <= i < n implies #[trigger] after(i) == after_xy(i) + after_z(i) by {
        assert(smoothed[i] == smoothed_velocity(predicted, velocities, params, i));
    }
    lemma_series_add(n, after_xy, after_z, after);
    lemma_series_add(n, before_xy, before_z, before);
}

} // verus!
