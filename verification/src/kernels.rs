//! The smoothing kernels. Each weighs a neighbour by its distance `d` against
//! a radius `h`; each lies between zero and one and is exactly zero from the
//! radius outwards.
use vstd::prelude::*;
use crate::fixed::ONE;

verus! {

/// The square of a scalar between zero and one.
pub open spec fn squared(s: int) -> int {
    (s * s) / (ONE as int)
}

/// The cube of a scalar between zero and one.
pub open spec fn cubed(s: int) -> int {
    (squared(s) * s) / (ONE as int)
}

/// The distance as a fraction of the radius, rounded down.
pub open spec fn fraction(d: int, h: int) -> int {
    (d * ONE) / h
}

/// One minus the distance over the radius inside the radius, zero outside.
pub open spec fn falloff(d: int, h: int) -> int {
    if 0 <= d < h {
        ONE - fraction(d, h)
    } else {
        0
    }
}

/// The density kernel: the cube of one minus the squared fraction. It is one
/// at the centre and flattens towards the radius.
pub open spec fn poly_kernel(d: int, h: int) -> int {
    if 0 <= d < h {
        cubed(ONE - squared(fraction(d, h)))
    } else {
        0
    }
}

/// The near-density kernel: the cube of the falloff, which drops off more
/// sharply than the density kernel.
pub open spec fn spiky_kernel(d: int, h: int) -> int {
    cubed(falloff(d, h))
}

/// The weight of the near-pressure gradient: the square of the falloff.
pub open spec fn near_slope(d: int, h: int) -> int {
    squared(falloff(d, h))
}

/// The cohesion kernel: the fraction times the square of the falloff, which is
/// zero at the centre and at the radius and positive between them.
pub open spec fn cohesion_kernel(d: int, h: int) -> int {
    if 0 <= d < h {
        (fraction(d, h) * squared(ONE - fraction(d, h))) / (ONE as int)
    } else {
        0
    }
}

/// The product of two scalars between zero and one lies between zero and one.
pub proof fn lemma_unit_product(a: int, b: int)
    requires
        0 <= a <= ONE,
        0 <= b <= ONE,
    ensures
        0 <= (a * b) / (ONE as int) <= a,
        0 <= (a * b) / (ONE as int) <= b,
        0 <= a * b <= 0x1_0000_0000,
{
    assert(0 <= a * b <= 0x1_0000_0000 && 0 <= (a * b) / 65536 <= a && (a * b) / 65536 <= b)
        by (nonlinear_arith)
        requires
            0 <= a <= 65536,
            0 <= b <= 65536,
    ;
}

/// Inside the radius the fraction lies between zero and one.
pub proof fn lemma_fraction_range(d: int, h: int)
    requires
        0 <= d < h,
    ensures
        0 <= fraction(d, h) < ONE,
        d == 0 ==> fraction(d, h) == 0,
{
    assert(0 <= (d * 65536) / h < 65536 && (d == 0 ==> (d * 65536) / h == 0)) by (nonlinear_arith)
        requires
            0 <= d < h,
    ;
}

/// Every kernel lies between zero and one, is zero from the radius outwards
/// and no more than about twice the falloff inside it, and the density
/// kernels are one at the centre.
pub proof fn lemma_kernel_ranges(d: int, h: int)
    ensures
        0 <= falloff(d, h) <= ONE,
        0 <= poly_kernel(d, h) <= ONE,
        0 <= spiky_kernel(d, h) <= falloff(d, h),
        0 <= near_slope(d, h) <= falloff(d, h),
        0 <= cohesion_kernel(d, h) <= falloff(d, h),
        poly_kernel(d, h) <= 2 * falloff(d, h) + 1,
        d >= h ==> falloff(d, h) == 0 && poly_kernel(d, h) == 0 && spiky_kernel(d, h) == 0
            && near_slope(d, h) == 0 && cohesion_kernel(d, h) == 0,
        0 < h ==> falloff(0, h) == ONE && poly_kernel(0, h) == ONE && spiky_kernel(0, h) == ONE,
{
    if 0 <= d < h {
        lemma_fraction_range(d, h);
        let q = fraction(d, h);
        lemma_unit_product(q, q);
        let s = ONE - squared(q);
        lemma_unit_product(s, s);
        lemma_unit_product(squared(s), s);
        let f = ONE - q;
        lemma_unit_product(f, f);
        lemma_unit_product(squared(f), f);
        lemma_unit_product(q, squared(f));
        assert(s <= 2 * f + 1) by (nonlinear_arith)
            requires
                0 <= q < 65536,
                f == 65536 - q,
                s == 65536 - (q * q) / 65536,
        ;
    }
    if 0 < h {
        assert(squared(ONE as int) == ONE) by (nonlinear_arith);
    }
}

/// The falloff stays within one raw unit of the straight line from one at the
/// centre to zero at the radius, so no kernel jumps where it reaches zero.
pub proof fn lemma_falloff_meets_zero(d: int, h: int)
    requires
        0 <= d < h,
    ensures
        falloff(d, h) * h <= (h - d) * ONE + h,
{
    assert((65536 - (d * 65536) / h) * h <= (h - d) * 65536 + h) by (nonlinear_arith)
        requires
            0 <= d < h,
    ;
}

/// The square of a scalar between zero and one.
fn unit_square(s: i64) -> (r: i64)
    requires
        0 <= s <= ONE,
    ensures
        r == squared(s as int),
        0 <= r <= s,
{
    proof {
        lemma_unit_product(s as int, s as int);
    }
    (s * s) / ONE
}

/// The product of two scalars between zero and one.
fn unit_product(a: i64, b: i64) -> (r: i64)
    requires
        0 <= a <= ONE,
        0 <= b <= ONE,
    ensures
        r == (a * b) / (ONE as int),
        0 <= r <= a,
        r <= b,
{
    proof {
        lemma_unit_product(a as int, b as int);
    }
    (a * b) / ONE
}

/// Computes the distance as a fraction of the radius.
fn fraction_of(d: i64, h: i64) -> (q: i64)
    requires
        0 <= d < h,
    ensures
        q == fraction(d as int, h as int),
        0 <= q < ONE,
{
    proof {
        lemma_fraction_range(d as int, h as int);
        assert(0 <= d * 65536 <= 0x7fff_ffff_ffff_ffff * 65536) by (nonlinear_arith)
            requires
                0 <= d <= 0x7fff_ffff_ffff_ffff,
        ;
    }
    let wide: i128 = (d as i128 * ONE as i128) / (h as i128);
    wide as i64
}

/// Computes the falloff.
pub fn falloff_at(d: i64, h: i64) -> (w: i64)
    ensures
        w == falloff(d as int, h as int),
        0 <= w <= ONE,
{
    if 0 <= d && d < h {
        ONE - fraction_of(d, h)
    } else {
        0
    }
}

/// Computes the density kernel.
pub fn poly_kernel_at(d: i64, h: i64) -> (w: i64)
    ensures
        w == poly_kernel(d as int, h as int),
        0 <= w <= ONE,
{
    if 0 <= d && d < h {
        let q = fraction_of(d, h);
        let s = ONE - unit_square(q);
        unit_product(unit_square(s), s)
    } else {
        0
    }
}

/// Computes the near-density kernel.
pub fn spiky_kernel_at(d: i64, h: i64) -> (w: i64)
    ensures
        w == spiky_kernel(d as int, h as int),
        0 <= w <= ONE,
{
    let f = falloff_at(d, h);
    unit_product(unit_square(f), f)
}

/// Computes the weight of the near-pressure gradient.
pub fn near_slope_at(d: i64, h: i64) -> (w: i64)
    ensures
        w == near_slope(d as int, h as int),
        0 <= w <= ONE,
{
    unit_square(falloff_at(d, h))
}

/// Computes the cohesion kernel.
pub fn cohesion_kernel_at(d: i64, h: i64) -> (w: i64)
    ensures
        w == cohesion_kernel(d as int, h as int),
        0 <= w <= ONE,
{
    if 0 <= d && d < h {
        let q = fraction_of(d, h);
        unit_product(q, unit_square(ONE - q))
    } else {
        0
    }
}

} // verus!
