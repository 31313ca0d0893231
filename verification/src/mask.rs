//! The geometry of the two optical-path masks: clear aperture, tilt, and the
//! place of the mask's local origin above the vertex of the mirror's conic
//! surface.
use crate::units::{coordinates, is_unit, is_unit_pair, scale, scaled, ONE};
use vstd::prelude::*;

verus! {

/// Optical path mask specifications
#[derive(Clone, Copy, Debug, PartialEq, Eq, Structural)]
pub enum OpticalPathMaskSpecs {
    /// The mask of the on-axis segment, which is not tilted.
    Center,
    /// The mask of an off-axis segment, tilted about the y axis.
    Outer,
}

/// The tilt of a mask about the y axis: the angle in thousandths of a degree,
/// which is exact, and its sine and cosine in parts per 10^12, rounded to the
/// nearest.
#[derive(Clone, Copy, Debug, PartialEq, Eq, Structural)]
pub struct Tilt {
    pub millidegrees: u32,
    pub sin: i64,
    pub cos: i64,
}

/// The plane in which a mask lies: a point of it and its unit normal.
#[derive(Clone, Copy, Debug)]
pub struct MaskPlane {
    pub point: [i64; 3],
    pub normal: [i64; 3],
}

impl Tilt {
    /// Sine and cosine belong to one angle.
    pub open spec fn is_rotation(self) -> bool {
        is_unit_pair(self.cos as int, self.sin as int)
    }
}

impl OpticalPathMaskSpecs {
    /// Clear aperture diameter, in nanometres.
    pub open spec fn spec_clear_diameter(self) -> int {
        match self {
            Self::Center => 8_357_600_000,
            Self::Outer => 8_354_400_000,
        }
    }

    /// Clear aperture radius, in nanometres: half the diameter.
    pub open spec fn spec_clear_radius(self) -> int {
        self.spec_clear_diameter() / 2
    }

    /// Tilt of the mask: none for the center mask, 13.522 degrees for the
    /// outer one.
    pub open spec fn spec_tilt(self) -> Tilt {
        match self {
            Self::Center => Tilt { millidegrees: 0, sin: 0, cos: ONE },
            Self::Outer => Tilt {
                millidegrees: 13_522,
                sin: 233_818_709_884,
                cos: 972_280_212_134,
            },
        }
    }

    /// The point about which the mask is tilted, in nanometres from the vertex
    /// of the mirror.
    pub open spec fn spec_pivot(self) -> (int, int, int) {
        match self {
            Self::Center => (0, 0, 938_000_000 - 572_000_000),
            Self::Outer => (8_848_320_000, 0, 478_522_000),
        }
    }

    /// The distance, in nanometres, from the pivot to the mask origin, which
    /// lies along the mask normal.
    pub open spec fn spec_arm(self) -> int {
        match self {
            Self::Center => 0,
            Self::Outer => 951_000_000,
        }
    }

    /// Mask origin, in nanometres from the vertex of the mirror: the pivot
    /// moved by the arm along the mask normal `(-sin, 0, cos)`.
    pub open spec fn spec_vertex_origin(self) -> (int, int, int) {
        let pivot = self.spec_pivot();
        let tilt = self.spec_tilt();
        (
            pivot.0 - scaled(self.spec_arm(), tilt.sin as int),
            pivot.1,
            pivot.2 + scaled(self.spec_arm(), tilt.cos as int),
        )
    }

    /// Clear aperture diameter [nm]
    pub fn clear_diameter(&self) -> (d: i64)
        ensures
            d == self.spec_clear_diameter(),
            d > 0,
    {
        match self {
            Self::Center => 8_357_600_000,
            Self::Outer => 8_354_400_000,
        }
    }

    /// Clear aperture radius [nm]
    pub fn clear_radius(&self) -> (r: i64)
        ensures
            r == self.spec_clear_radius(),
            2 * r == self.spec_clear_diameter(),
            r > 0,
    {
        self.clear_diameter() / 2
    }

    /// Segment tilt angle
    pub fn tilt(&self) -> (t: Tilt)
        ensures
            t == self.spec_tilt(),
            t.is_rotation(),
            t.millidegrees == 0 <==> self is Center,
            self is Center ==> t.sin == 0 && t.cos == ONE,
    {
        let t = match self {
            Self::Center => Tilt { millidegrees: 0, sin: 0, cos: ONE },
            Self::Outer => Tilt {
                millidegrees: 13_522,
                sin: 233_818_709_884,
                cos: 972_280_212_134,
            },
        };
        proof {
            tilt_is_a_rotation(*self);
        }
        t
    }

    /// Mask origin coordinates [nm]
    ///
    /// The origin of the mask is given with respect to the vertex of M1 conic surface
    pub fn vertex_origin(&self) -> (o: [i64; 3])
        ensures
            coordinates(o) == self.spec_vertex_origin(),
            self is Center ==> coordinates(o) == (0int, 0int, 366_000_000int),
            self is Outer ==> coordinates(o) == (8_625_958_407int, 0int, 1_403_160_482int),
    {
        let tilt = self.tilt();
        match self {
            Self::Center => [0, 0, 938_000_000 - 572_000_000],
            Self::Outer => [
                8_848_320_000 - scale(951_000_000, tilt.sin),
                0,
                478_522_000 + scale(951_000_000, tilt.cos),
            ],
        }
    }

    /// The plane of the mask: it passes through the mask origin, and its normal
    /// is the optical axis turned by the tilt.
    pub fn mask_plane(&self) -> (plane: MaskPlane)
        ensures
            coordinates(plane.point) == self.spec_vertex_origin(),
            coordinates(plane.normal) == (
                -(self.spec_tilt().sin as int),
                0int,
                self.spec_tilt().cos as int,
            ),
            is_unit(plane.normal),
    {
        let tilt = self.tilt();
        let plane = MaskPlane { point: self.vertex_origin(), normal: [-tilt.sin, 0, tilt.cos] };
        assert(is_unit(plane.normal)) by (nonlinear_arith)
            requires
                tilt.is_rotation(),
                plane.normal[0] == -tilt.sin,
                plane.normal[1] == 0,
                plane.normal[2] == tilt.cos,
        ;
        plane
    }
}

/// The sine and the cosine of either tilt belong to one angle.
pub proof fn tilt_is_a_rotation(mask_specs: OpticalPathMaskSpecs)
    ensures
        mask_specs.spec_tilt().is_rotation(),
{
    let tilt = mask_specs.spec_tilt();
}

} // verus!
