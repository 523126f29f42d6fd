//! The mesh of the disc that every particle is drawn as.
use vstd::prelude::*;

verus! {

/// The number of segments of the disc of a particle.
pub const SEGMENTS: u32 = 32;

/// The indices of a fan of `segments` triangles around vertex 0: triangle `k`
/// joins the rim vertices `k + 1` and `k + 2` to the centre.
pub open spec fn fan_indices(segments: nat) -> Seq<u16> {
    Seq::new(
        3 * segments,
        |i: int|
            if i % 3 == 0 {
                (i / 3 + 1) as u16
            } else if i % 3 == 1 {
                (i / 3 + 2) as u16
            } else {
                0u16
            },
    )
}

/// Builds the indices of the disc's triangles. The rim has one vertex more
/// than there are segments, so that the last triangle closes the disc.
pub fn circle_indices(segments: u32) -> (indices: Vec<u16>)
    requires
        segments <= 65534,
    ensures
        indices@ == fan_indices(segments as nat),
{
    let mut indices: Vec<u16> = Vec::new();
    let mut k: u32 = 0;
    while k < segments
        invariant
            k <= segments,
            segments <= 65534,
            indices.len() == 3 * k,
            forall|i: int| 0 <= i < 3 * k ==> indices[i] == fan_indices(segments as nat)[i],
        decreases segments - k,
    {
        indices.push((k + 1) as u16);
        indices.push((k + 2) as u16);
        indices.push(0);
        k = k + 1;
    }
    indices
}

} // verus!
