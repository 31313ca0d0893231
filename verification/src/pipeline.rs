//! The order in which a bundle of rays is traced: to the mask, on to the
//! mirror, reflected, and back to the mask.
//!
//! The tracing itself is done by whoever owns the tracer.  The pipeline says
//! which step is due, takes the bundle back after each step, and reads the
//! inbound curve off the bundle when it first stands on the mask and the
//! outbound curve when it stands there again.  Every step is applied to the
//! whole bundle before the next one, and ray `i` stays ray `i` throughout.
use crate::contour::{assemble_contour, envelope, farther};
use crate::mask::OpticalPathMaskSpecs;
use crate::ray::{local_radius, mask_frame, ray_in_reach, Ray};
use crate::units::within_reach;
use vstd::prelude::*;

verus! {

/// What is to be done to every ray of the bundle next.
#[derive(Clone, Copy, Debug, PartialEq, Eq, Structural)]
pub enum Action {
    /// Move each ray to where it meets the plane of the mask.
    TraceToMask,
    /// Move each ray to where it meets the conic surface of the mirror.
    TraceToMirror,
    /// Turn each ray's direction into its reflection off the mirror.
    ReflectOffMirror,
    /// Nothing: both curves have been read.
    Finished,
}

/// How far the bundle has come.
#[derive(Clone, Copy, Debug, PartialEq, Eq, Structural)]
pub enum Stage {
    /// The bundle has been launched and not traced yet.
    Launched,
    /// The bundle stands on the mask; the inbound curve has been read.
    OnMask,
    /// The bundle stands on the mirror.
    OnMirror,
    /// The bundle stands on the mirror and heads back.
    Reflected,
    /// The bundle stands on the mask again; the outbound curve has been read.
    Returned,
}

/// Why the pipeline refused a bundle.
#[derive(Clone, Copy, Debug, PartialEq, Eq, Structural)]
pub enum TraceError {
    /// A ray of the bundle stands farther than `REACH` from the vertex of the
    /// mirror, so its local coordinates cannot be read.
    OutOfReach,
}

impl Stage {
    /// The step that is due at this stage.
    pub open spec fn spec_pending(self) -> Action {
        match self {
            Stage::Launched => Action::TraceToMask,
            Stage::OnMask => Action::TraceToMirror,
            Stage::OnMirror => Action::ReflectOffMirror,
            Stage::Reflected => Action::TraceToMask,
            Stage::Returned => Action::Finished,
        }
    }

    /// The stage that the due step leads to.
    pub open spec fn spec_next(self) -> Stage {
        match self {
            Stage::Launched => Stage::OnMask,
            Stage::OnMask => Stage::OnMirror,
            Stage::OnMirror => Stage::Reflected,
            Stage::Reflected => Stage::Returned,
            Stage::Returned => Stage::Returned,
        }
    }

    /// The due step puts the bundle on the mask, where a curve is read.
    pub open spec fn reads_curve(self) -> bool {
        self is Launched || self is Reflected
    }

    /// The step that is due at this stage.
    pub fn pending(&self) -> (action: Action)
        ensures
            action == self.spec_pending(),
    {
        match self {
            Stage::Launched => Action::TraceToMask,
            Stage::OnMask => Action::TraceToMirror,
            Stage::OnMirror => Action::ReflectOffMirror,
            Stage::Reflected => Action::TraceToMask,
            Stage::Returned => Action::Finished,
        }
    }

    /// The stage that the due step leads to.
    pub fn next(&self) -> (stage: Stage)
        ensures
            stage == self.spec_next(),
    {
        match self {
            Stage::Launched => Stage::OnMask,
            Stage::OnMask => Stage::OnMirror,
            Stage::OnMirror => Stage::Reflected,
            Stage::Reflected => Stage::Returned,
            Stage::Returned => Stage::Returned,
        }
    }
}

/// Every ray of the bundle stands within reach.
pub open spec fn bundle_within_reach(rays: Seq<Ray>) -> bool {
    forall|i: int| 0 <= i < rays.len() ==> within_reach((#[trigger] rays[i]).p)
}

/// `curve` is the bundle read in the local frame of the mask: point `i` is
/// where ray `i` stands.
pub open spec fn is_local_curve(
    curve: Seq<(i64, i64)>,
    rays: Seq<Ray>,
    mask_specs: OpticalPathMaskSpecs,
) -> bool {
    &&& curve.len() == rays.len()
    &&& forall|i: int|
        0 <= i < rays.len() ==> ((#[trigger] curve[i]).0 as int, curve[i].1 as int) == mask_frame(
            rays[i].p,
            mask_specs,
        )
}

/// Whether every ray of the bundle stands within reach.
pub fn bundle_in_reach(rays: &Vec<Ray>) -> (b: bool)
    ensures
        b == bundle_within_reach(rays@),
{
    let mut i: usize = 0;
    while i < rays.len()
        invariant
            i <= rays.len(),
            forall|k: int| 0 <= k < i ==> within_reach((#[trigger] rays[k]).p),
        decreases rays.len() - i,
    {
        if !ray_in_reach(&rays[i]) {
            return false;
        }
        i += 1;
    }
    true
}

/// Reads the bundle in the local frame of the mask, ray by ray.
pub fn local_curve(rays: &Vec<Ray>, mask_specs: &OpticalPathMaskSpecs) -> (curve: Vec<(i64, i64)>)
    requires
        bundle_within_reach(rays@),
    ensures
        is_local_curve(curve@, rays@, *mask_specs),
{
    let mut curve: Vec<(i64, i64)> = Vec::new();
    let mut i: usize = 0;
    while i < rays.len()
        invariant
            i <= rays.len(),
            bundle_within_reach(rays@),
            curve.len() == i,
            forall|k: int|
                0 <= k < i ==> ((#[trigger] curve[k]).0 as int, curve[k].1 as int) == mask_frame(
                    rays[k].p,
                    *mask_specs,
                ),
        decreases rays.len() - i,
    {
        curve.push(local_radius(&rays[i], mask_specs));
        i += 1;
    }
    curve
}

/// The state of one run of the tracing pipeline.
pub struct TracingPipeline {
    /// The mask whose contour is traced.
    pub mask_specs: OpticalPathMaskSpecs,
    /// How far the bundle has come.
    pub stage: Stage,
    /// The bundle as it first stood on the mask, in the local frame.
    pub inbound: Vec<(i64, i64)>,
    /// The bundle as it stood on the mask again, in the local frame.
    pub outbound: Vec<(i64, i64)>,
}

impl TracingPipeline {
    /// A run that has not begun: the bundle is launched, no curve is read.
    pub fn new(mask_specs: OpticalPathMaskSpecs) -> (run: TracingPipeline)
        ensures
            run.mask_specs == mask_specs,
            run.stage == Stage::Launched,
            run.inbound@.len() == 0,
            run.outbound@.len() == 0,
    {
        TracingPipeline {
            mask_specs,
            stage: Stage::Launched,
            inbound: Vec::new(),
            outbound: Vec::new(),
        }
    }

    /// The step that the caller is to apply to the whole bundle now.
    pub fn pending(&self) -> (action: Action)
        ensures
            action == self.stage.spec_pending(),
    {
        self.stage.pending()
    }

    /// Takes the bundle back after the pending step was applied to it, and
    /// returns the step that is due next.
    ///
    /// Where the step has put the bundle on the mask, the bundle is read in the
    /// local frame: first as the inbound curve, the second time as the outbound
    /// curve.  A bundle with a ray out of reach is refused there, and the run
    /// stays as it was.
    pub fn advance(&mut self, rays: &Vec<Ray>) -> (due: Result<Action, TraceError>)
        ensures
            final(self).mask_specs == old(self).mask_specs,
            due is Err <==> old(self).stage.reads_curve() && !bundle_within_reach(rays@),
            due is Err ==> due == Err::<Action, TraceError>(TraceError::OutOfReach) && *final(self)
                == *old(self),
            due is Ok ==> due == Ok::<Action, TraceError>(final(self).stage.spec_pending())
                && final(self).stage == old(self).stage.spec_next(),
            due is Ok && old(self).stage is Launched ==> is_local_curve(
                final(self).inbound@,
                rays@,
                old(self).mask_specs,
            ) && final(self).outbound@ == old(self).outbound@,
            due is Ok && old(self).stage is Reflected ==> is_local_curve(
                final(self).outbound@,
                rays@,
                old(self).mask_specs,
            ) && final(self).inbound@ == old(self).inbound@,
            due is Ok && !old(self).stage.reads_curve() ==> final(self).inbound@ == old(
                self,
            ).inbound@ && final(self).outbound@ == old(self).outbound@,
    {
        match self.stage {
            Stage::Launched => {
                if !bundle_in_reach(rays) {
                    return Err(TraceError::OutOfReach);
                }
                self.inbound = local_curve(rays, &self.mask_specs);
            },
            Stage::Reflected => {
                if !bundle_in_reach(rays) {
                    return Err(TraceError::OutOfReach);
                }
                self.outbound = local_curve(rays, &self.mask_specs);
            },
            _ => {},
        }
        self.stage = self.stage.next();
        Ok(self.stage.pending())
    }

    /// The clearance contour, once both curves have been read: the envelope of
    /// the inbound and the outbound curve.
    pub fn contour(&self) -> (contour: Option<Vec<(i64, i64)>>)
        ensures
            contour is Some <==> self.stage is Returned,
            contour matches Some(points) ==> points@ == envelope(self.inbound@, self.outbound@),
    {
        match self.stage {
            Stage::Returned => Some(assemble_contour(&self.inbound, &self.outbound)),
            _ => None,
        }
    }
}

/// Two curves read off bundles of one size give a contour of that size, and
/// point `i` of the contour is where ray `i` stood on the mask, on its way in
/// or on its way back, whichever is farther from the local origin.
pub proof fn contour_has_one_point_for_each_ray(
    inbound: Seq<(i64, i64)>,
    outbound: Seq<(i64, i64)>,
    on_the_way_in: Seq<Ray>,
    on_the_way_back: Seq<Ray>,
    mask_specs: OpticalPathMaskSpecs,
    i: int,
)
    requires
        is_local_curve(inbound, on_the_way_in, mask_specs),
        is_local_curve(outbound, on_the_way_back, mask_specs),
        on_the_way_in.len() == on_the_way_back.len(),
        0 <= i < on_the_way_in.len(),
    ensures
        envelope(inbound, outbound).len() == on_the_way_in.len(),
        envelope(inbound, outbound)[i] == farther(inbound[i], outbound[i]),
        (inbound[i].0 as int, inbound[i].1 as int) == mask_frame(on_the_way_in[i].p, mask_specs),
        (outbound[i].0 as int, outbound[i].1 as int) == mask_frame(
            on_the_way_back[i].p,
            mask_specs,
        ),
{
}

/// A run takes four steps, in this order: to the mask, to the mirror, the
/// reflection, back to the mask.  A curve is read after each trace to the mask
/// and at no other time, and after the fourth step nothing is due any more.
pub proof fn steps_come_in_order()
    ensures
        Stage::Launched.spec_pending() == Action::TraceToMask,
        Stage::Launched.spec_next() == Stage::OnMask,
        Stage::OnMask.spec_pending() == Action::TraceToMirror,
        Stage::OnMask.spec_next() == Stage::OnMirror,
        Stage::OnMirror.spec_pending() == Action::ReflectOffMirror,
        Stage::OnMirror.spec_next() == Stage::Reflected,
        Stage::Reflected.spec_pending() == Action::TraceToMask,
        Stage::Reflected.spec_next() == Stage::Returned,
        Stage::Returned.spec_pending() == Action::Finished,
        Stage::Returned.spec_next() == Stage::Returned,
        forall|stage: Stage| stage.reads_curve() <==> stage.spec_pending() == Action::TraceToMask,
{
}

} // verus!
