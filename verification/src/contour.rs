//! The clearance contour: the envelope of the inbound and the outbound curve.
//!
//! A baffle has to clear the wider of the two traced curves at every sample, so
//! the contour takes, sample by sample, whichever point lies farther from the
//! local origin.  Distances are compared by their squares, which is exact.
use crate::units::{norm_squared, squared_radius};
use vstd::prelude::*;

verus! {

/// The point of a sample that the contour keeps: the inbound one unless the
/// outbound one lies strictly farther from the local origin.
pub open spec fn farther(inbound: (i64, i64), outbound: (i64, i64)) -> (i64, i64) {
    if norm_squared(inbound) >= norm_squared(outbound) {
        inbound
    } else {
        outbound
    }
}

/// The contour of two curves: one point per sample that both curves have, in
/// the order of the samples.
pub open spec fn envelope(inbound: Seq<(i64, i64)>, outbound: Seq<(i64, i64)>) -> Seq<(i64, i64)> {
    Seq::new(
        if inbound.len() <= outbound.len() {
            inbound.len()
        } else {
            outbound.len()
        },
        |i: int| farther(inbound[i], outbound[i]),
    )
}

/// Picks the point of one sample that the contour keeps.
pub fn farther_point(inbound: (i64, i64), outbound: (i64, i64)) -> (kept: (i64, i64))
    ensures
        kept == farther(inbound, outbound),
        kept == inbound || kept == outbound,
        norm_squared(kept) >= norm_squared(inbound),
        norm_squared(kept) >= norm_squared(outbound),
        norm_squared(inbound) >= norm_squared(outbound) ==> kept == inbound,
{
    if squared_radius(inbound) >= squared_radius(outbound) {
        inbound
    } else {
        outbound
    }
}

/// Assembles the clearance contour from the two traced curves.
///
/// Sample `i` of the result is the farther of sample `i` of either curve; a
/// sample that only one curve has is dropped.
pub fn assemble_contour(inbound: &Vec<(i64, i64)>, outbound: &Vec<(i64, i64)>) -> (contour: Vec<
    (i64, i64),
>)
    ensures
        contour@ == envelope(inbound@, outbound@),
{
    let count: usize = if inbound.len() <= outbound.len() {
        inbound.len()
    } else {
        outbound.len()
    };
    let mut contour: Vec<(i64, i64)> = Vec::new();
    let mut i: usize = 0;
    while i < count
        invariant
            i <= count,
            count <= inbound.len(),
            count <= outbound.len(),
            contour.len() == i,
            forall|k: int| 0 <= k < i ==> contour[k] == farther(inbound[k], outbound[k]),
        decreases count - i,
    {
        contour.push(farther_point(inbound[i], outbound[i]));
        i += 1;
    }
    contour
}

/// The contour is the envelope of the two curves: at every sample its point is
/// one of the two traced points, lies at the greater of their two distances
/// from the local origin, and is the inbound point whenever the distances are
/// equal.
pub proof fn envelope_keeps_the_farther_point(
    inbound: Seq<(i64, i64)>,
    outbound: Seq<(i64, i64)>,
    i: int,
)
    requires
        0 <= i < inbound.len(),
        i < outbound.len(),
    ensures
        i < envelope(inbound, outbound).len(),
        norm_squared(envelope(inbound, outbound)[i]) == if norm_squared(inbound[i])
            >= norm_squared(outbound[i]) {
            norm_squared(inbound[i])
        } else {
            norm_squared(outbound[i])
        },
        envelope(inbound, outbound)[i] == inbound[i] || envelope(inbound, outbound)[i]
            == outbound[i],
        norm_squared(inbound[i]) == norm_squared(outbound[i]) ==> envelope(inbound, outbound)[i]
            == inbound[i],
{
}

/// The contour has one point for every sample that both curves have, so for
/// two curves traced from one bundle it has as many points as the bundle has
/// rays.
pub proof fn envelope_keeps_the_sample_count(inbound: Seq<(i64, i64)>, outbound: Seq<(i64, i64)>)
    requires
        inbound.len() == outbound.len(),
    ensures
        envelope(inbound, outbound).len() == inbound.len(),
{
}

} // verus!
