//! The bundle of rays that leave the perimeter of the clear aperture.
//!
//! A ray of the center mask starts on the perimeter at the source height and
//! runs down the optical axis.  A ray of the outer mask first leaves the
//! tilted mask along its normal; where that ray meets the mirror, an axial ray
//! from the source height takes its place.
use crate::mask::{tilt_is_a_rotation, OpticalPathMaskSpecs};
use crate::ray::{center_frame_keeps_the_axial_offset, mask_frame, Ray};
use crate::rounding::{
    scaled_bearing_lies_by_the_circle, scaled_is_nearest, turned_back_is_within_one,
};
use crate::units::{coordinates, is_unit, is_unit_pair, scale, scaled, ONE};
use vstd::prelude::*;

verus! {

/// The direction from the center of the aperture to one perimeter sample: the
/// cosine and the sine of the sample's angle, in parts per 10^12.
#[derive(Clone, Copy, Debug, PartialEq, Eq, Structural)]
pub struct Bearing {
    pub cos: i64,
    pub sin: i64,
}

impl Bearing {
    /// Cosine and sine belong to one angle.
    pub open spec fn wf(self) -> bool {
        is_unit_pair(self.cos as int, self.sin as int)
    }

    /// Whether the bearing is well formed.
    pub fn is_wf(&self) -> (b: bool)
        ensures
            b == self.wf(),
    {
        if self.cos < -ONE || self.cos > ONE || self.sin < -ONE || self.sin > ONE {
            return false;
        }
        let c: i128 = self.cos as i128;
        let s: i128 = self.sin as i128;
        assert(0 <= c * c <= ONE * ONE) by (nonlinear_arith)
            requires
                -ONE <= c <= ONE,
        ;
        assert(0 <= s * s <= ONE * ONE) by (nonlinear_arith)
            requires
                -ONE <= s <= ONE,
        ;
        let defect: i128 = c * c + s * s - 1_000_000_000_000_000_000_000_000;
        -2_000_000_000_000 <= defect && defect <= 2_000_000_000_000
    }
}

/// How a ray of the bundle comes to be.
#[derive(Clone, Copy, Debug)]
pub enum Launch {
    /// The ray is ready to be traced.
    Axial(Ray),
    /// The ray leaves the mask along its normal.  It is to be traced to the
    /// mirror, and `axial_substitute` of where it arrives is the ray of the
    /// bundle.
    ViaMirror(Ray),
}

impl Launch {
    /// The ray that is launched.
    pub open spec fn ray(self) -> Ray {
        match self {
            Launch::Axial(ray) => ray,
            Launch::ViaMirror(ray) => ray,
        }
    }
}

/// The perimeter sample at the given bearing, in the plane of the aperture
/// before it is tilted, in nanometres from the center of the aperture.
pub open spec fn perimeter_point(mask_specs: OpticalPathMaskSpecs, bearing: Bearing) -> (int, int) {
    (
        scaled(mask_specs.spec_clear_radius(), bearing.cos as int),
        scaled(mask_specs.spec_clear_radius(), bearing.sin as int),
    )
}

/// Where the ray of a perimeter sample starts: for the center mask on the
/// perimeter at the source height `z0`, for the outer mask on the perimeter of
/// the tilted mask.
pub open spec fn launch_position(mask_specs: OpticalPathMaskSpecs, bearing: Bearing, z0: i64) -> (
    int,
    int,
    int,
) {
    let (x, y) = perimeter_point(mask_specs, bearing);
    match mask_specs {
        OpticalPathMaskSpecs::Center => (x, y, z0 as int),
        OpticalPathMaskSpecs::Outer => {
            let origin = mask_specs.spec_vertex_origin();
            let tilt = mask_specs.spec_tilt();
            (
                scaled(x, tilt.cos as int) + origin.0,
                y + origin.1,
                scaled(x, tilt.sin as int) + origin.2,
            )
        },
    }
}

/// The direction in which the ray of a perimeter sample starts: down the
/// optical axis for the center mask, along the normal of the tilted mask,
/// towards the mirror, for the outer mask.
pub open spec fn launch_direction(mask_specs: OpticalPathMaskSpecs) -> (int, int, int) {
    match mask_specs {
        OpticalPathMaskSpecs::Center => (0, 0, -(ONE as int)),
        OpticalPathMaskSpecs::Outer => {
            let tilt = mask_specs.spec_tilt();
            (tilt.sin as int, 0, -(tilt.cos as int))
        },
    }
}

/// `launch` is how the ray of the perimeter sample at `bearing` comes to be.
pub open spec fn is_launch_of(
    launch: Launch,
    mask_specs: OpticalPathMaskSpecs,
    bearing: Bearing,
    z0: i64,
) -> bool {
    &&& launch is ViaMirror <==> mask_specs is Outer
    &&& coordinates(launch.ray().p) == launch_position(mask_specs, bearing, z0)
    &&& coordinates(launch.ray().u) == launch_direction(mask_specs)
}

/// Launches the ray of the perimeter sample at `bearing`, for a source at
/// height `z0`.
pub fn launch_ray(mask_specs: &OpticalPathMaskSpecs, bearing: &Bearing, z0: i64) -> (launch: Launch)
    requires
        bearing.wf(),
    ensures
        is_launch_of(launch, *mask_specs, *bearing, z0),
        is_unit(launch.ray().u),
{
    let radius: i64 = mask_specs.clear_radius();
    let x: i64 = scale(radius, bearing.cos);
    let y: i64 = scale(radius, bearing.sin);
    match mask_specs {
        OpticalPathMaskSpecs::Center => {
            Launch::Axial(Ray { p: [x, y, z0], u: [0, 0, -ONE] })
        },
        OpticalPathMaskSpecs::Outer => {
            let origin = mask_specs.vertex_origin();
            let tilt = mask_specs.tilt();
            Launch::ViaMirror(
                Ray {
                    p: [
                        scale(x, tilt.cos) + origin[0],
                        y + origin[1],
                        scale(x, tilt.sin) + origin[2],
                    ],
                    u: [tilt.sin, 0, -tilt.cos],
                },
            )
        },
    }
}

/// The axial ray that stands for a ray which left the mask along its normal
/// and has arrived at `hit` on the mirror: it starts at the source height `z0`
/// straight above or below `hit` and runs down the optical axis.
pub fn axial_substitute(hit: &Ray, z0: i64) -> (ray: Ray)
    ensures
        coordinates(ray.p) == (hit.p[0] as int, hit.p[1] as int, z0 as int),
        coordinates(ray.u) == (0int, 0int, -(ONE as int)),
        is_unit(ray.u),
{
    Ray { p: [hit.p[0], hit.p[1], z0], u: [0, 0, -ONE] }
}

/// Launches the whole bundle: one ray for each bearing, in the order of the
/// bearings.
pub fn ray_bundle(mask_specs: &OpticalPathMaskSpecs, bearings: &Vec<Bearing>, z0: i64) -> (bundle:
    Vec<Launch>)
    requires
        forall|i: int| 0 <= i < bearings.len() ==> (#[trigger] bearings[i]).wf(),
    ensures
        bundle.len() == bearings.len(),
        forall|i: int|
            0 <= i < bearings.len() ==> is_launch_of(
                #[trigger] bundle[i],
                *mask_specs,
                bearings[i],
                z0,
            ),
        forall|i: int| 0 <= i < bearings.len() ==> is_unit((#[trigger] bundle[i]).ray().u),
{
    let mut bundle: Vec<Launch> = Vec::new();
    let mut i: usize = 0;
    while i < bearings.len()
        invariant
            i <= bearings.len(),
            bundle.len() == i,
            forall|k: int| 0 <= k < bearings.len() ==> (#[trigger] bearings[k]).wf(),
            forall|k: int|
                0 <= k < i ==> is_launch_of(#[trigger] bundle[k], *mask_specs, bearings[k], z0),
            forall|k: int| 0 <= k < i ==> is_unit((#[trigger] bundle[k]).ray().u),
        decreases bearings.len() - i,
    {
        bundle.push(launch_ray(mask_specs, &bearings[i], z0));
        i += 1;
    }
    bundle
}

/// Every perimeter sample lies within two nanometres of the circle of the
/// clear aperture, whatever its bearing.
pub proof fn perimeter_point_lies_by_the_aperture_circle(
    mask_specs: OpticalPathMaskSpecs,
    bearing: Bearing,
)
    requires
        bearing.wf(),
    ensures
        ({
            let (x, y) = perimeter_point(mask_specs, bearing);
            let r = mask_specs.spec_clear_radius();
            (r - 2) * (r - 2) <= x * x + y * y <= (r + 2) * (r + 2)
        }),
{
    scaled_bearing_lies_by_the_circle(
        mask_specs.spec_clear_radius(),
        bearing.cos as int,
        bearing.sin as int,
    );
}

/// A ray of the center mask is read in the local frame at its perimeter
/// sample as long as nothing has moved it sideways, so all rays of the bundle
/// start within two nanometres of one circle about the local origin.
pub proof fn center_ray_starts_on_the_aperture_circle(launch: Launch, bearing: Bearing, z0: i64)
    requires
        bearing.wf(),
        is_launch_of(launch, OpticalPathMaskSpecs::Center, bearing, z0),
    ensures
        launch is Axial,
        mask_frame(launch.ray().p, OpticalPathMaskSpecs::Center) == perimeter_point(
            OpticalPathMaskSpecs::Center,
            bearing,
        ),
        ({
            let (x, y) = mask_frame(launch.ray().p, OpticalPathMaskSpecs::Center);
            let r = OpticalPathMaskSpecs::Center.spec_clear_radius();
            (r - 2) * (r - 2) <= x * x + y * y <= (r + 2) * (r + 2)
        }),
{
    center_frame_keeps_the_axial_offset(launch.ray().p);
    perimeter_point_lies_by_the_aperture_circle(OpticalPathMaskSpecs::Center, bearing);
}

/// A ray that has just been launched is read in the local frame of its mask
/// at its perimeter sample, to the nanometre: the tilt that places the ray on
/// the mask and the tilt that the local frame takes back are the same.
pub proof fn launched_ray_is_read_at_its_perimeter_sample(
    launch: Launch,
    mask_specs: OpticalPathMaskSpecs,
    bearing: Bearing,
    z0: i64,
)
    requires
        bearing.wf(),
        is_launch_of(launch, mask_specs, bearing, z0),
    ensures
        ({
            let (vx, vy) = mask_frame(launch.ray().p, mask_specs);
            let (x, y) = perimeter_point(mask_specs, bearing);
            x - 1 <= vx <= x + 1 && vy == y
        }),
{
    match mask_specs {
        OpticalPathMaskSpecs::Center => {
            center_ray_starts_on_the_aperture_circle(launch, bearing, z0);
        },
        OpticalPathMaskSpecs::Outer => {
            let radius = mask_specs.spec_clear_radius();
            let tilt = mask_specs.spec_tilt();
            let (x, y) = perimeter_point(mask_specs, bearing);
            scaled_is_nearest(radius, bearing.cos as int);
            assert(-radius * ONE <= radius * bearing.cos <= radius * ONE) by (nonlinear_arith)
                requires
                    -ONE <= bearing.cos <= ONE,
                    radius >= 0,
            ;
            tilt_is_a_rotation(mask_specs);
            turned_back_is_within_one(x, tilt.cos as int, tilt.sin as int);
        },
    }
}

/// A ray of the outer mask starts in the plane of the mask, to the nanometre,
/// and leaves it along its normal, towards the mirror: from the mask origin
/// to where the ray starts there is nothing along the normal but rounding, and
/// the ray's direction is the opposite of the normal.
pub proof fn outer_ray_leaves_the_mask_along_its_normal(launch: Launch, bearing: Bearing, z0: i64)
    requires
        bearing.wf(),
        is_launch_of(launch, OpticalPathMaskSpecs::Outer, bearing, z0),
    ensures
        launch is ViaMirror,
        ({
            let outer = OpticalPathMaskSpecs::Outer;
            let origin = outer.spec_vertex_origin();
            let normal = (-(outer.spec_tilt().sin as int), 0int, outer.spec_tilt().cos as int);
            let p = coordinates(launch.ray().p);
            let u = coordinates(launch.ray().u);
            let along = (p.0 - origin.0) * normal.0 + (p.1 - origin.1) * normal.1 + (p.2
                - origin.2) * normal.2;
            &&& u == (-normal.0, -normal.1, -normal.2)
            &&& -ONE <= along <= ONE
        }),
{
    let outer = OpticalPathMaskSpecs::Outer;
    let sin = outer.spec_tilt().sin as int;
    let cos = outer.spec_tilt().cos as int;
    let x = perimeter_point(outer, bearing).0;
    let a = scaled(x, cos);
    let b = scaled(x, sin);
    scaled_is_nearest(x, cos);
    scaled_is_nearest(x, sin);
    let f1 = ONE * a - x * cos;
    let f2 = ONE * b - x * sin;
    let along = a * (-sin) + b * cos;
    assert(ONE * along == cos * f2 - sin * f1) by (nonlinear_arith)
        requires
            along == a * (-sin) + b * cos,
            f1 == ONE * a - x * cos,
            f2 == ONE * b - x * sin,
    ;
}

} // verus!
