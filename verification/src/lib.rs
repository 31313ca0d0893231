//! Clearance contour of an optical-path mask in front of one segment of a
//! segmented primary mirror, in exact fixed-point arithmetic.
pub mod bundle;
pub mod contour;
pub mod mask;
pub mod pipeline;
pub mod ray;
pub mod rounding;
pub mod sampling;
pub mod units;

pub use mask::OpticalPathMaskSpecs;
pub use ray::local_radius;
