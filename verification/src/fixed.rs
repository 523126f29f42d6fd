//! Fixed-point scalars: an `i64` holds a value in units of 1/65536. Results
//! that leave the range of `i64` saturate at its ends.
use vstd::prelude::*;

verus! {

/// The raw value of the number one.
pub const ONE: i64 = 65536;

/// `x` brought into the range of `i64`.
pub open spec fn saturated(x: int) -> int {
    if x > i64::MAX {
        i64::MAX as int
    } else if x < i64::MIN {
        i64::MIN as int
    } else {
        x
    }
}

/// The sum of two scalars, saturated.
pub open spec fn sum(a: int, b: int) -> int {
    saturated(a + b)
}

/// The difference of two scalars, saturated.
pub open spec fn difference(a: int, b: int) -> int {
    saturated(a - b)
}

/// The negation of a scalar, saturated.
pub open spec fn negation(a: int) -> int {
    saturated(-a)
}

/// The product of two scalars: the raw product over `ONE`, rounded down, saturated.
pub open spec fn product(a: int, b: int) -> int {
    saturated((a * b) / (ONE as int))
}

/// The quotient of two scalars, rounded down and saturated; zero where the
/// divisor is not positive.
pub open spec fn quotient(a: int, b: int) -> int {
    if b > 0 {
        saturated((a * ONE) / b)
    } else {
        0
    }
}

/// The largest natural number whose square is at most `x`.
pub open spec fn is_root(r: int, x: int) -> bool {
    0 <= r && r * r <= x < (r + 1) * (r + 1)
}

/// The integer square root of a natural number.
pub open spec fn root(x: int) -> int {
    choose|r: int| is_root(r, x)
}

/// A number has at most one integer square root.
pub proof fn lemma_root_unique(r: int, x: int)
    requires
        is_root(r, x),
    ensures
        root(x) == r,
{
    let s = root(x);
    assert(s == r) by (nonlinear_arith)
        requires
            0 <= r,
            0 <= s,
            r * r <= x < (r + 1) * (r + 1),
            s * s <= x < (s + 1) * (s + 1),
    ;
}

/// Every natural number has an integer square root.
pub proof fn lemma_root_exists(x: int)
    requires
        x >= 0,
    ensures
        is_root(root(x), x),
    decreases x,
{
    if x == 0 {
        assert(is_root(0, 0));
    } else {
        lemma_root_exists(x - 1);
        let r = root(x - 1);
        if x < (r + 1) * (r + 1) {
            assert(is_root(r, x));
        } else {
            assert(x < (r + 2) * (r + 2)) by (nonlinear_arith)
                requires
                    (r + 1) * (r + 1) == x,
                    r >= 0,
            ;
            assert(is_root(r + 1, x));
        }
    }
}

/// Brings a wide value into the scalar range.
pub fn saturate(x: i128) -> (r: i64)
    ensures
        r == saturated(x as int),
{
    if x > i64::MAX as i128 {
        i64::MAX
    } else if x < i64::MIN as i128 {
        i64::MIN
    } else {
        x as i64
    }
}

/// The quotient of `a` by a positive `b`, rounded towards minus infinity.
pub fn floor_div(a: i128, b: i128) -> (q: i128)
    requires
        b > 0,
    ensures
        q == (a as int) / (b as int),
{
    if a >= 0 {
        a / b
    } else {
        let m: i128 = -(a + 1);
        let t: i128 = m / b;
        proof {
            assert((a as int) / (b as int) == -(t as int) - 1) by (nonlinear_arith)
                requires
                    b > 0,
                    a < 0,
                    m == -(a + 1),
                    t == m / b,
            ;
        }
        -t - 1
    }
}

/// The product of any two `i64` values lies well inside `i128`.
pub proof fn lemma_wide_product(a: int, b: int)
    requires
        i64::MIN <= a <= i64::MAX,
        i64::MIN <= b <= i64::MAX,
    ensures
        -0x4000_0000_0000_0000_0000_0000_0000_0000 <= a * b
            <= 0x4000_0000_0000_0000_0000_0000_0000_0000,
{
    assert(-0x4000_0000_0000_0000_0000_0000_0000_0000 <= a * b
        <= 0x4000_0000_0000_0000_0000_0000_0000_0000) by (nonlinear_arith)
        requires
            -0x8000_0000_0000_0000 <= a <= 0x7fff_ffff_ffff_ffff,
            -0x8000_0000_0000_0000 <= b <= 0x7fff_ffff_ffff_ffff,
    ;
}

/// Adds two scalars.
pub fn add_fixed(a: i64, b: i64) -> (r: i64)
    ensures
        r == sum(a as int, b as int),
{
    saturate(a as i128 + b as i128)
}

/// Subtracts one scalar from another.
pub fn sub_fixed(a: i64, b: i64) -> (r: i64)
    ensures
        r == difference(a as int, b as int),
{
    saturate(a as i128 - b as i128)
}

/// Negates a scalar.
pub fn neg_fixed(a: i64) -> (r: i64)
    ensures
        r == negation(a as int),
{
    saturate(-(a as i128))
}

/// Multiplies two scalars.
pub fn mul_fixed(a: i64, b: i64) -> (r: i64)
    ensures
        r == product(a as int, b as int),
{
    proof {
        lemma_wide_product(a as int, b as int);
    }
    let wide: i128 = (a as i128) * (b as i128);
    saturate(floor_div(wide, ONE as i128))
}

/// Divides one scalar by another; the result is zero where the divisor is not
/// positive.
pub fn div_fixed(a: i64, b: i64) -> (r: i64)
    ensures
        r == quotient(a as int, b as int),
{
    if b > 0 {
        proof {
            lemma_wide_product(a as int, ONE as int);
        }
        let wide: i128 = (a as i128) * (ONE as i128);
        saturate(floor_div(wide, b as i128))
    } else {
        0
    }
}

/// The integer square root of `x`.
pub fn integer_root(x: u128) -> (r: u64)
    ensures
        r == root(x as int),
        is_root(r as int, x as int),
{
    let mut lo: u128 = 0;
    let mut hi: u128 = 0x1_0000_0000_0000_0000;
    assert(x < 0x1_0000_0000_0000_0000 * 0x1_0000_0000_0000_0000) by (nonlinear_arith)
        requires
            x <= 0xffff_ffff_ffff_ffff_ffff_ffff_ffff_ffff,
    ;
    while hi - lo > 1
        invariant
            lo < hi <= 0x1_0000_0000_0000_0000,
            lo * lo <= x < hi * hi,
        decreases hi - lo,
    {
        let mid: u128 = lo + (hi - lo) / 2;
        assert(mid * mid <= 0xffff_ffff_ffff_ffff * 0xffff_ffff_ffff_ffff) by (nonlinear_arith)
            requires
                0 <= mid <= 0xffff_ffff_ffff_ffff,
        ;
        if mid * mid <= x {
            lo = mid;
        } else {
            hi = mid;
        }
    }
    proof {
        lemma_root_unique(lo as int, x as int);
    }
    lo as u64
}

} // verus!
