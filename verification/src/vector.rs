//! Vectors of fixed-point scalars.
use vstd::prelude::*;
use crate::fixed::{
    add_fixed, difference, div_fixed, integer_root, is_root, lemma_root_exists, mul_fixed, product,
    quotient, root, saturated, sub_fixed, sum,
};

verus! {

/// A vector of three scalars.
#[derive(Clone, Copy, Debug, PartialEq, Eq, Structural)]
pub struct Vector3 {
    pub x: i64,
    pub y: i64,
    pub z: i64,
}

/// A vector of four scalars.
#[derive(Clone, Copy, Debug, PartialEq, Eq, Structural)]
pub struct Vector4 {
    pub x: i64,
    pub y: i64,
    pub z: i64,
    pub w: i64,
}

/// The component-wise saturated sum.
pub open spec fn vector_sum(a: Vector3, b: Vector3) -> Vector3 {
    Vector3 {
        x: sum(a.x as int, b.x as int) as i64,
        y: sum(a.y as int, b.y as int) as i64,
        z: sum(a.z as int, b.z as int) as i64,
    }
}

/// The component-wise saturated difference.
pub open spec fn vector_difference(a: Vector3, b: Vector3) -> Vector3 {
    Vector3 {
        x: difference(a.x as int, b.x as int) as i64,
        y: difference(a.y as int, b.y as int) as i64,
        z: difference(a.z as int, b.z as int) as i64,
    }
}

/// Each component multiplied by the scalar `s`.
pub open spec fn vector_scaled(a: Vector3, s: int) -> Vector3 {
    Vector3 {
        x: product(a.x as int, s) as i64,
        y: product(a.y as int, s) as i64,
        z: product(a.z as int, s) as i64,
    }
}

/// Each component divided by the scalar `d`; the zero vector where `d` is not
/// positive.
pub open spec fn vector_quotient(a: Vector3, d: int) -> Vector3 {
    Vector3 {
        x: quotient(a.x as int, d) as i64,
        y: quotient(a.y as int, d) as i64,
        z: quotient(a.z as int, d) as i64,
    }
}

/// The vector from `from` to `to` over their distance `d`: a unit vector, or
/// the zero vector where the two coincide.
pub open spec fn direction(from: Vector3, to: Vector3, d: int) -> Vector3 {
    vector_quotient(vector_difference(to, from), d)
}

/// The cross product of two vectors.
pub open spec fn cross(a: Vector3, b: Vector3) -> Vector3 {
    Vector3 {
        x: difference(product(a.y as int, b.z as int), product(a.z as int, b.y as int)) as i64,
        y: difference(product(a.z as int, b.x as int), product(a.x as int, b.z as int)) as i64,
        z: difference(product(a.x as int, b.y as int), product(a.y as int, b.x as int)) as i64,
    }
}

/// The length of a vector, rounded down to a raw unit and saturated.
pub open spec fn length(v: Vector3) -> int {
    saturated(root(v.x * v.x + v.y * v.y + v.z * v.z))
}

/// The vector over its length: a unit vector, or the zero vector.
pub open spec fn unit(v: Vector3) -> Vector3 {
    vector_quotient(v, length(v))
}

/// The square of the Euclidean distance between two points, in raw units.
pub open spec fn distance_squared(p: Vector3, q: Vector3) -> int {
    (p.x - q.x) * (p.x - q.x) + (p.y - q.y) * (p.y - q.y) + (p.z - q.z) * (p.z - q.z)
}

/// Whether `q` lies no further than `r` from `p`.
pub open spec fn within(p: Vector3, q: Vector3, r: int) -> bool {
    r >= 0 && distance_squared(p, q) <= r * r
}

/// The Euclidean distance between two points, rounded down to a raw unit.
pub open spec fn distance(p: Vector3, q: Vector3) -> int {
    root(distance_squared(p, q))
}

/// Distance is symmetric, and a point within one radius is within every
/// larger one.
pub proof fn lemma_within_symmetric(p: Vector3, q: Vector3, r: int, larger: int)
    requires
        within(p, q, r),
        r <= larger,
    ensures
        within(q, p, r),
        within(p, q, larger),
        within(q, p, larger),
{
    assert(distance_squared(p, q) == distance_squared(q, p)) by (nonlinear_arith);
    assert(r * r <= larger * larger) by (nonlinear_arith)
        requires
            0 <= r <= larger,
    ;
}

/// A point that does not lie within `radius` of another lies at least that
/// far from it, in whole raw units.
pub proof fn lemma_beyond_radius(p: Vector3, q: Vector3, radius: int)
    requires
        radius >= 0,
        !within(p, q, radius),
    ensures
        distance(p, q) >= radius,
{
    let square = distance_squared(p, q);
    let d = distance(p, q);
    assert(square >= 0) by (nonlinear_arith)
        requires
            square == (p.x - q.x) * (p.x - q.x) + (p.y - q.y) * (p.y - q.y) + (p.z - q.z) * (p.z
                - q.z),
    ;
    assert(is_root(d, square)) by {
        lemma_root_exists(square);
    }
    assert(d >= radius) by (nonlinear_arith)
        requires
            d >= 0,
            radius >= 0,
            square > radius * radius,
            square < (d + 1) * (d + 1),
    ;
}

/// The distance along one axis, as a magnitude.
fn axis_gap(a: i64, b: i64) -> (g: u128)
    ensures
        g == if a >= b { a - b } else { b - a },
{
    if a >= b {
        (a as i128 - b as i128) as u128
    } else {
        (b as i128 - a as i128) as u128
    }
}

impl Vector3 {
    /// The vector with the given components.
    pub fn new(x: i64, y: i64, z: i64) -> (v: Vector3)
        ensures
            v == (Vector3 { x, y, z }),
    {
        Vector3 { x, y, z }
    }

    /// The zero vector.
    pub fn zero() -> (v: Vector3)
        ensures
            v == (Vector3 { x: 0, y: 0, z: 0 }),
    {
        Vector3 { x: 0, y: 0, z: 0 }
    }

    /// The saturated sum of two vectors.
    pub fn plus(self, other: Vector3) -> (v: Vector3)
        ensures
            v == vector_sum(self, other),
    {
        Vector3 {
            x: add_fixed(self.x, other.x),
            y: add_fixed(self.y, other.y),
            z: add_fixed(self.z, other.z),
        }
    }

    /// The saturated difference of two vectors.
    pub fn minus(self, other: Vector3) -> (v: Vector3)
        ensures
            v == vector_difference(self, other),
    {
        Vector3 {
            x: sub_fixed(self.x, other.x),
            y: sub_fixed(self.y, other.y),
            z: sub_fixed(self.z, other.z),
        }
    }

    /// The vector with each component multiplied by the scalar `s`.
    pub fn scaled(self, s: i64) -> (v: Vector3)
        ensures
            v == vector_scaled(self, s as int),
    {
        Vector3 {
            x: mul_fixed(self.x, s),
            y: mul_fixed(self.y, s),
            z: mul_fixed(self.z, s),
        }
    }

    /// The vector with each component divided by the scalar `d`.
    pub fn divided(self, d: i64) -> (v: Vector3)
        ensures
            v == vector_quotient(self, d as int),
    {
        Vector3 { x: div_fixed(self.x, d), y: div_fixed(self.y, d), z: div_fixed(self.z, d) }
    }

    /// The direction from `self` to `to`, given their distance `d`.
    pub fn direction_to(self, to: Vector3, d: i64) -> (v: Vector3)
        ensures
            v == direction(self, to, d as int),
    {
        to.minus(self).divided(d)
    }

    /// The cross product of `self` and `other`.
    pub fn cross(self, other: Vector3) -> (v: Vector3)
        ensures
            v == cross(self, other),
    {
        Vector3 {
            x: sub_fixed(mul_fixed(self.y, other.z), mul_fixed(self.z, other.y)),
            y: sub_fixed(mul_fixed(self.z, other.x), mul_fixed(self.x, other.z)),
            z: sub_fixed(mul_fixed(self.x, other.y), mul_fixed(self.y, other.x)),
        }
    }

    /// The length of the vector.
    pub fn length(self) -> (l: i64)
        ensures
            l == length(self),
            l >= 0,
    {
        let ax: u128 = axis_gap(self.x, 0);
        let ay: u128 = axis_gap(self.y, 0);
        let az: u128 = axis_gap(self.z, 0);
        proof {
            assert(ax * ax == self.x * self.x && ay * ay == self.y * self.y && az * az == self.z
                * self.z) by (nonlinear_arith)
                requires
                    ax == self.x || ax == -self.x,
                    ay == self.y || ay == -self.y,
                    az == self.z || az == -self.z,
            ;
            assert(ax * ax <= 0x4000_0000_0000_0000_0000_0000_0000_0000 && ay * ay
                <= 0x4000_0000_0000_0000_0000_0000_0000_0000 && az * az
                <= 0x4000_0000_0000_0000_0000_0000_0000_0000) by (nonlinear_arith)
                requires
                    0 <= ax <= 0x8000_0000_0000_0000,
                    0 <= ay <= 0x8000_0000_0000_0000,
                    0 <= az <= 0x8000_0000_0000_0000,
            ;
        }
        let r: u64 = integer_root(ax * ax + ay * ay + az * az);
        if r > i64::MAX as u64 {
            i64::MAX
        } else {
            r as i64
        }
    }

    /// The vector over its length.
    pub fn unit(self) -> (v: Vector3)
        ensures
            v == unit(self),
    {
        self.divided(self.length())
    }

    /// The distance from `self` to `other` where it is at most `r`, and `None`
    /// where the two lie further apart.
    pub fn distance_within(self, other: Vector3, r: i64) -> (d: Option<i64>)
        ensures
            d is Some <==> within(self, other, r as int),
            d is Some ==> d.unwrap() == distance(self, other) && 0 <= d.unwrap() <= r,
    {
        if r < 0 {
            return None;
        }
        let limit: u128 = r as u128;
        let gx: u128 = axis_gap(self.x, other.x);
        let gy: u128 = axis_gap(self.y, other.y);
        let gz: u128 = axis_gap(self.z, other.z);
        proof {
            let dx = self.x - other.x;
            let dy = self.y - other.y;
            let dz = self.z - other.z;
            assert(gx * gx == dx * dx && gy * gy == dy * dy && gz * gz == dz * dz)
                by (nonlinear_arith)
                requires
                    gx == dx || gx == -dx,
                    gy == dy || gy == -dy,
                    gz == dz || gz == -dz,
            ;
            assert(gx * gx >= 0 && gy * gy >= 0 && gz * gz >= 0) by (nonlinear_arith);
            assert(gx > limit ==> gx * gx > limit * limit) by (nonlinear_arith)
                requires
                    gx >= 0,
                    limit >= 0,
            ;
            assert(gy > limit ==> gy * gy > limit * limit) by (nonlinear_arith)
                requires
                    gy >= 0,
                    limit >= 0,
            ;
            assert(gz > limit ==> gz * gz > limit * limit) by (nonlinear_arith)
                requires
                    gz >= 0,
                    limit >= 0,
            ;
        }
        if gx > limit || gy > limit || gz > limit {
            return None;
        }
        proof {
            assert(gx * gx <= 0x3fff_ffff_ffff_ffff_0000_0000_0000_0001
                && gy * gy <= 0x3fff_ffff_ffff_ffff_0000_0000_0000_0001
                && gz * gz <= 0x3fff_ffff_ffff_ffff_0000_0000_0000_0001
                && limit * limit <= 0x3fff_ffff_ffff_ffff_0000_0000_0000_0001)
                by (nonlinear_arith)
                requires
                    0 <= gx <= limit,
                    0 <= gy <= limit,
                    0 <= gz <= limit,
                    limit <= 0x7fff_ffff_ffff_ffff,
            ;
        }
        let square: u128 = gx * gx + gy * gy + gz * gz;
        if square > limit * limit {
            return None;
        }
        let d: u64 = integer_root(square);
        proof {
            assert(d <= limit) by (nonlinear_arith)
                requires
                    0 <= d,
                    0 <= limit,
                    d * d <= square,
                    square <= limit * limit,
            ;
        }
        Some(d as i64)
    }
}

impl Vector4 {
    /// The vector with the given components.
    pub fn new(x: i64, y: i64, z: i64, w: i64) -> (v: Vector4)
        ensures
            v == (Vector4 { x, y, z, w }),
    {
        Vector4 { x, y, z, w }
    }
}

} // verus!
