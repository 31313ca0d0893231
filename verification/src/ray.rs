//! Rays, and the transform that reads a ray's position in the local frame of a
//! mask.
use crate::mask::{OpticalPathMaskSpecs, Tilt};
use crate::units::{in_reach, nearest_ratio, round_ratio, within_reach, ONE, REACH};
use vstd::prelude::*;

verus! {

/// A ray: the point `p` where it stands, in nanometres from the vertex of the
/// mirror, and the direction `u` in which it travels, in parts per 10^12.
#[derive(Clone, Copy, Debug)]
pub struct Ray {
    pub p: [i64; 3],
    pub u: [i64; 3],
}

/// The point `p` seen from the frame with the given origin and tilt: `p` less
/// the origin, turned back about the y axis by the tilt, without its third
/// coordinate.
pub open spec fn local_frame(p: [i64; 3], origin: (int, int, int), tilt: Tilt) -> (int, int) {
    let u0 = p[0] - origin.0;
    let u1 = p[1] - origin.1;
    let u2 = p[2] - origin.2;
    (nearest_ratio(tilt.cos * u0 + tilt.sin * u2), u1)
}

/// The point `p` seen from the local frame of the mask.
pub open spec fn mask_frame(p: [i64; 3], mask_specs: OpticalPathMaskSpecs) -> (int, int) {
    local_frame(p, mask_specs.spec_vertex_origin(), mask_specs.spec_tilt())
}

/// Where the ray stands, in the local frame of the mask.
pub fn local_radius(ray: &Ray, mask_specs: &OpticalPathMaskSpecs) -> (v: (i64, i64))
    requires
        within_reach(ray.p),
    ensures
        (v.0 as int, v.1 as int) == mask_frame(ray.p, *mask_specs),
{
    let origin = mask_specs.vertex_origin();
    let tilt = mask_specs.tilt();
    let u0: i64 = ray.p[0] - origin[0];
    let u1: i64 = ray.p[1] - origin[1];
    let u2: i64 = ray.p[2] - origin[2];
    let ghost bound: int = REACH + 10_000_000_000;
    assert(-(ONE * bound) <= tilt.cos * u0 <= ONE * bound) by (nonlinear_arith)
        requires
            -ONE <= tilt.cos <= ONE,
            -bound <= u0 <= bound,
            bound >= 0,
    ;
    assert(-(ONE * bound) <= tilt.sin * u2 <= ONE * bound) by (nonlinear_arith)
        requires
            -ONE <= tilt.sin <= ONE,
            -bound <= u2 <= bound,
            bound >= 0,
    ;
    let turned: i128 = (tilt.cos as i128) * (u0 as i128) + (tilt.sin as i128) * (u2 as i128);
    let v0: i128 = round_ratio(turned);
    (v0 as i64, u1)
}

/// Whether the ray stands within reach, so that `local_radius` accepts it.
pub fn ray_in_reach(ray: &Ray) -> (b: bool)
    ensures
        b == within_reach(ray.p),
{
    in_reach(&ray.p)
}

/// Without tilt the local frame only shifts the point: the local coordinates
/// are the first two of the point less those of the origin.
pub proof fn untilted_frame_is_a_shift(p: [i64; 3], origin: (int, int, int), tilt: Tilt)
    requires
        tilt.sin == 0,
        tilt.cos == ONE,
    ensures
        local_frame(p, origin, tilt) == (p[0] - origin.0, p[1] - origin.1),
{
}

/// The center mask is not tilted and its origin lies on the optical axis, so
/// its local frame keeps the first two coordinates of every point.
pub proof fn center_frame_keeps_the_axial_offset(p: [i64; 3])
    ensures
        mask_frame(p, OpticalPathMaskSpecs::Center) == (p[0] as int, p[1] as int),
{
    let center = OpticalPathMaskSpecs::Center;
    untilted_frame_is_a_shift(p, center.spec_vertex_origin(), center.spec_tilt());
}

} // verus!
