//! Sums over the neighbours of a particle. A pass adds up one term for each
//! neighbour it finds; what it computes is stated as a sum over all particles
//! that a mask selects, which does not depend on the order of the walk.
use vstd::prelude::*;
use crate::fixed::{saturate, saturated};
use crate::vector::Vector3;

verus! {

/// The sum of the values of a sequence.
pub open spec fn total(values: Seq<int>) -> int
    decreases values.len(),
{
    if values.len() == 0 {
        0
    } else {
        total(values.drop_last()) + values.last()
    }
}

/// The sum of `term(j)` over the `j` below `n` that `mask` selects.
pub open spec fn masked_sum(n: nat, mask: spec_fn(int) -> bool, term: spec_fn(int) -> int) -> int
    decreases n,
{
    if n == 0 {
        0
    } else {
        masked_sum((n - 1) as nat, mask, term) + if mask(n - 1) {
            term(n - 1)
        } else {
            0
        }
    }
}

/// The component of `v` on axis 0, 1 or 2.
pub open spec fn axis(v: Vector3, a: int) -> int {
    if a == 0 {
        v.x as int
    } else if a == 1 {
        v.y as int
    } else {
        v.z as int
    }
}

/// The components on axis `a` of a sequence of vectors.
pub open spec fn axis_values(terms: Seq<Vector3>, a: int) -> Seq<int> {
    Seq::new(terms.len(), |k: int| axis(terms[k], a))
}

/// The values of a sequence of scalars.
pub open spec fn scalar_values(terms: Seq<i64>) -> Seq<int> {
    Seq::new(terms.len(), |k: int| terms[k] as int)
}

/// The component on axis `a` of a vector-valued term.
pub open spec fn on_axis(term: spec_fn(int) -> Vector3, a: int) -> spec_fn(int) -> int {
    |j: int| axis(term(j), a)
}

/// The saturated sum, axis by axis, of `term(j)` over the `j` below `n` that
/// `mask` selects.
pub open spec fn masked_vector_sum(
    n: nat,
    mask: spec_fn(int) -> bool,
    term: spec_fn(int) -> Vector3,
) -> Vector3 {
    Vector3 {
        x: saturated(masked_sum(n, mask, on_axis(term, 0))) as i64,
        y: saturated(masked_sum(n, mask, on_axis(term, 1))) as i64,
        z: saturated(masked_sum(n, mask, on_axis(term, 2))) as i64,
    }
}

/// Taking one value out of a sequence lowers its total by that value.
pub proof fn lemma_total_remove(values: Seq<int>, k: int)
    requires
        0 <= k < values.len(),
    ensures
        total(values) == total(values.remove(k)) + values[k],
    decreases values.len(),
{
    if k < values.len() - 1 {
        lemma_total_remove(values.drop_last(), k);
        assert(values.drop_last().remove(k) =~= values.remove(k).drop_last());
    }
}

/// A sum of terms that are not negative is not negative.
pub proof fn lemma_masked_sum_not_negative(
    n: nat,
    mask: spec_fn(int) -> bool,
    term: spec_fn(int) -> int,
)
    requires
        forall|j: int| 0 <= j < n && mask(j) ==> #[trigger] term(j) >= 0,
    ensures
        masked_sum(n, mask, term) >= 0,
    decreases n,
{
    if n > 0 {
        lemma_masked_sum_not_negative((n - 1) as nat, mask, term);
    }
}

/// A sum of terms that are not negative is at least the sum of any two of its
/// terms.
pub proof fn lemma_masked_sum_holds_two(
    n: nat,
    mask: spec_fn(int) -> bool,
    term: spec_fn(int) -> int,
    i: int,
    j: int,
)
    requires
        forall|k: int| 0 <= k < n && mask(k) ==> #[trigger] term(k) >= 0,
        0 <= i < n,
        0 <= j < n,
        i != j,
        mask(i),
        mask(j),
    ensures
        masked_sum(n, mask, term) >= term(i) + term(j),
    decreases n,
{
    let last = n - 1;
    if i < last && j < last {
        lemma_masked_sum_holds_two(last as nat, mask, term, i, j);
    } else {
        let other = if i == last { j } else { i };
        lemma_masked_sum_holds_one(last as nat, mask, term, other);
    }
}

/// A sum of terms that are not negative is at least any one of its terms.
pub proof fn lemma_masked_sum_holds_one(
    n: nat,
    mask: spec_fn(int) -> bool,
    term: spec_fn(int) -> int,
    i: int,
)
    requires
        forall|k: int| 0 <= k < n && mask(k) ==> #[trigger] term(k) >= 0,
        0 <= i < n,
        mask(i),
    ensures
        masked_sum(n, mask, term) >= term(i),
    decreases n,
{
    if i < n - 1 {
        lemma_masked_sum_holds_one((n - 1) as nat, mask, term, i);
    } else {
        lemma_masked_sum_not_negative((n - 1) as nat, mask, term);
    }
}

/// A sum does not change when its mask is narrowed to leave out only terms
/// that are zero.
pub proof fn lemma_masked_sum_narrowed(
    n: nat,
    mask: spec_fn(int) -> bool,
    narrow: spec_fn(int) -> bool,
    term: spec_fn(int) -> int,
)
    requires
        forall|j: int| 0 <= j < n && #[trigger] narrow(j) ==> mask(j),
        forall|j: int| 0 <= j < n && mask(j) && !narrow(j) ==> #[trigger] term(j) == 0,
    ensures
        masked_sum(n, mask, term) == masked_sum(n, narrow, term),
    decreases n,
{
    if n > 0 {
        lemma_masked_sum_narrowed((n - 1) as nat, mask, narrow, term);
    }
}

/// The total of one term for each particle of a list, where the list holds
/// each particle that the mask selects exactly once, is the masked sum: the
/// order of the list does not matter.
pub proof fn lemma_walk_is_masked_sum(
    found: Seq<u32>,
    values: Seq<int>,
    n: nat,
    mask: spec_fn(int) -> bool,
    term: spec_fn(int) -> int,
)
    requires
        n <= u32::MAX,
        found.no_duplicates(),
        forall|id: u32| (#[trigger] found.contains(id)) <==> id < n && mask(id as int),
        values.len() == found.len(),
        forall|k: int| 0 <= k < found.len() ==> values[k] == term(found[k] as int),
    ensures
        total(values) == masked_sum(n, mask, term),
    decreases n,
{
    if n == 0 {
        if found.len() > 0 {
            assert(found.contains(found[0]));
        }
    } else {
        let last = (n - 1) as u32;
        if mask(last as int) {
            assert(found.contains(last));
            let k = choose|k: int| 0 <= k < found.len() && found[k] == last;
            let rest = found.remove(k);
            let rest_values = values.remove(k);
            lemma_total_remove(values, k);
            assert forall|id: u32| (#[trigger] rest.contains(id)) <==> id < n - 1 && mask(
                id as int,
            ) by {
                if rest.contains(id) {
                    let r = choose|r: int| 0 <= r < rest.len() && rest[r] == id;
                    assert(found.contains(id));
                }
                if id < n - 1 && mask(id as int) {
                    assert(found.contains(id));
                    let f = choose|f: int| 0 <= f < found.len() && found[f] == id;
                    let r = if f < k { f } else { f - 1 };
                    assert(rest[r] == id);
                }
            }
            lemma_walk_is_masked_sum(rest, rest_values, (n - 1) as nat, mask, term);
        } else {
            lemma_walk_is_masked_sum(found, values, (n - 1) as nat, mask, term);
        }
    }
}

/// The same for vector-valued terms, axis by axis.
pub proof fn lemma_walk_is_masked_vector_sum(
    found: Seq<u32>,
    terms: Seq<Vector3>,
    n: nat,
    mask: spec_fn(int) -> bool,
    term: spec_fn(int) -> Vector3,
    sum: Vector3,
)
    requires
        n <= u32::MAX,
        found.no_duplicates(),
        forall|id: u32| (#[trigger] found.contains(id)) <==> id < n && mask(id as int),
        terms.len() == found.len(),
        forall|k: int| 0 <= k < found.len() ==> terms[k] == term(found[k] as int),
        sum.x == saturated(total(axis_values(terms, 0))),
        sum.y == saturated(total(axis_values(terms, 1))),
        sum.z == saturated(total(axis_values(terms, 2))),
    ensures
        sum == masked_vector_sum(n, mask, term),
{
    lemma_walk_is_masked_sum(found, axis_values(terms, 0), n, mask, on_axis(term, 0));
    lemma_walk_is_masked_sum(found, axis_values(terms, 1), n, mask, on_axis(term, 1));
    lemma_walk_is_masked_sum(found, axis_values(terms, 2), n, mask, on_axis(term, 2));
}

/// The values of a sequence of wide terms.
pub open spec fn wide_values(terms: Seq<i128>) -> Seq<int> {
    Seq::new(terms.len(), |k: int| terms[k] as int)
}

/// Adds up wide terms, each of at most eighty bits.
pub fn sum_wide(terms: &Vec<i128>) -> (s: i128)
    requires
        terms.len() <= u32::MAX,
        forall|k: int|
            0 <= k < terms.len() ==> -0x1_0000_0000_0000_0000_0000 <= #[trigger] terms[k]
                <= 0x1_0000_0000_0000_0000_0000,
    ensures
        s == total(wide_values(terms@)),
{
    let mut wide: i128 = 0;
    let mut k: usize = 0;
    assert(wide_values(terms@).take(0) =~= Seq::<int>::empty());
    while k < terms.len()
        invariant
            k <= terms.len(),
            terms.len() <= u32::MAX,
            forall|m: int|
                0 <= m < terms.len() ==> -0x1_0000_0000_0000_0000_0000 <= #[trigger] terms[m]
                    <= 0x1_0000_0000_0000_0000_0000,
            wide == total(wide_values(terms@).take(k as int)),
            -(k as int) * 0x1_0000_0000_0000_0000_0000 <= wide <= (k as int)
                * 0x1_0000_0000_0000_0000_0000,
        decreases terms.len() - k,
    {
        proof {
            let values = wide_values(terms@);
            assert(values.take(k + 1).drop_last() =~= values.take(k as int));
            assert(values.take(k + 1).last() == terms[k as int]);
            assert((k as int) * 0x1_0000_0000_0000_0000_0000 <= 0xffff_ffff
                * 0x1_0000_0000_0000_0000_0000) by (nonlinear_arith)
                requires
                    k <= 0xffff_ffff,
            ;
        }
        wide = wide + terms[k];
        k = k + 1;
    }
    assert(wide_values(terms@).take(k as int) =~= wide_values(terms@));
    wide
}

/// Adds up scalars; the result saturates once, at the end.
pub fn sum_scalars(terms: &Vec<i64>) -> (s: i64)
    requires
        terms.len() <= u32::MAX,
    ensures
        s == saturated(total(scalar_values(terms@))),
{
    let mut wide: i128 = 0;
    let mut k: usize = 0;
    while k < terms.len()
        invariant
            k <= terms.len(),
            terms.len() <= u32::MAX,
            wide == total(scalar_values(terms@).take(k as int)),
            -(k as int) * 0x8000_0000_0000_0000 <= wide <= (k as int) * 0x8000_0000_0000_0000,
        decreases terms.len() - k,
    {
        proof {
            let values = scalar_values(terms@);
            assert(values.take(k + 1).drop_last() =~= values.take(k as int));
            assert((k as int) * 0x8000_0000_0000_0000 <= 0xffff_ffff * 0x8000_0000_0000_0000)
                by (nonlinear_arith)
                requires
                    k <= 0xffff_ffff,
            ;
        }
        wide = wide + terms[k] as i128;
        k = k + 1;
    }
    assert(scalar_values(terms@).take(k as int) =~= scalar_values(terms@));
    saturate(wide)
}

/// Adds up the components of the vectors on each axis; the results saturate
/// once, at the end.
pub fn sum_vectors(terms: &Vec<Vector3>) -> (s: Vector3)
    requires
        terms.len() <= u32::MAX,
    ensures
        s.x == saturated(total(axis_values(terms@, 0))),
        s.y == saturated(total(axis_values(terms@, 1))),
        s.z == saturated(total(axis_values(terms@, 2))),
{
    let mut wide_x: i128 = 0;
    let mut wide_y: i128 = 0;
    let mut wide_z: i128 = 0;
    let mut k: usize = 0;
    while k < terms.len()
        invariant
            k <= terms.len(),
            terms.len() <= u32::MAX,
            wide_x == total(axis_values(terms@, 0).take(k as int)),
            wide_y == total(axis_values(terms@, 1).take(k as int)),
            wide_z == total(axis_values(terms@, 2).take(k as int)),
            -(k as int) * 0x8000_0000_0000_0000 <= wide_x <= (k as int) * 0x8000_0000_0000_0000,
            -(k as int) * 0x8000_0000_0000_0000 <= wide_y <= (k as int) * 0x8000_0000_0000_0000,
            -(k as int) * 0x8000_0000_0000_0000 <= wide_z <= (k as int) * 0x8000_0000_0000_0000,
        decreases terms.len() - k,
    {
        proof {
            let xs = axis_values(terms@, 0);
            let ys = axis_values(terms@, 1);
            let zs = axis_values(terms@, 2);
            assert(xs.take(k + 1).drop_last() =~= xs.take(k as int));
            assert(ys.take(k + 1).drop_last() =~= ys.take(k as int));
            assert(zs.take(k + 1).drop_last() =~= zs.take(k as int));
            assert((k as int) * 0x8000_0000_0000_0000 <= 0xffff_ffff * 0x8000_0000_0000_0000)
                by (nonlinear_arith)
                requires
                    k <= 0xffff_ffff,
            ;
        }
        let v = terms[k];
        wide_x = wide_x + v.x as i128;
        wide_y = wide_y + v.y as i128;
        wide_z = wide_z + v.z as i128;
        k = k + 1;
    }
    assert(axis_values(terms@, 0).take(k as int) =~= axis_values(terms@, 0));
    assert(axis_values(terms@, 1).take(k as int) =~= axis_values(terms@, 1));
    assert(axis_values(terms@, 2).take(k as int) =~= axis_values(terms@, 2));
    Vector3 { x: saturate(wide_x), y: saturate(wide_y), z: saturate(wide_z) }
}

} // verus!
