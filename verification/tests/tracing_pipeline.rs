use optical_path_mask::pipeline::{
    bundle_in_reach, local_curve, Action, Stage, TraceError, TracingPipeline,
};
use optical_path_mask::ray::Ray;
use optical_path_mask::units::{ONE, REACH};
use optical_path_mask::OpticalPathMaskSpecs;

fn at(p: [i64; 3]) -> Ray {
    Ray { p, u: [0, 0, -ONE] }
}

#[test]
fn stages_follow_one_another() {
    assert_eq!(Stage::Launched.next(), Stage::OnMask);
    assert_eq!(Stage::OnMask.next(), Stage::OnMirror);
    assert_eq!(Stage::OnMirror.next(), Stage::Reflected);
    assert_eq!(Stage::Reflected.next(), Stage::Returned);
    assert_eq!(Stage::Returned.next(), Stage::Returned);
}

#[test]
fn each_stage_has_its_pending_step() {
    assert_eq!(Stage::Launched.pending(), Action::TraceToMask);
    assert_eq!(Stage::OnMask.pending(), Action::TraceToMirror);
    assert_eq!(Stage::OnMirror.pending(), Action::ReflectOffMirror);
    assert_eq!(Stage::Reflected.pending(), Action::TraceToMask);
    assert_eq!(Stage::Returned.pending(), Action::Finished);
}

#[test]
fn a_new_run_waits_for_the_first_trace_to_the_mask() {
    let run = TracingPipeline::new(OpticalPathMaskSpecs::Outer);
    assert_eq!(run.mask_specs, OpticalPathMaskSpecs::Outer);
    assert_eq!(run.stage, Stage::Launched);
    assert_eq!(run.pending(), Action::TraceToMask);
    assert!(run.inbound.is_empty());
    assert!(run.outbound.is_empty());
    assert_eq!(run.contour(), None);
}

#[test]
fn a_run_asks_for_the_four_steps_in_order() {
    let mut run = TracingPipeline::new(OpticalPathMaskSpecs::Center);
    let rays = vec![at([1, 2, 3])];
    let mut asked = vec![run.pending()];
    for _ in 0..4 {
        asked.push(run.advance(&rays).unwrap());
    }
    assert_eq!(
        asked,
        vec![
            Action::TraceToMask,
            Action::TraceToMirror,
            Action::ReflectOffMirror,
            Action::TraceToMask,
            Action::Finished,
        ]
    );
    assert_eq!(run.stage, Stage::Returned);
    assert_eq!(run.advance(&rays), Ok(Action::Finished));
    assert_eq!(run.stage, Stage::Returned);
}

#[test]
fn curves_are_read_when_the_bundle_stands_on_the_mask() {
    let specs = OpticalPathMaskSpecs::Center;
    let mut run = TracingPipeline::new(specs);
    let on_mask = vec![at([10, 0, 366_000_000]), at([0, 20, 366_000_000])];
    let on_mirror = vec![at([11, 0, 0]), at([0, 21, 0])];
    let reflected = vec![at([12, 0, 0]), at([0, 22, 0])];
    let back = vec![at([7, 0, 366_000_000]), at([0, 30, 366_000_000])];

    assert_eq!(run.advance(&on_mask), Ok(Action::TraceToMirror));
    assert_eq!(run.inbound, vec![(10, 0), (0, 20)]);
    assert!(run.outbound.is_empty());
    assert_eq!(run.contour(), None);

    assert_eq!(run.advance(&on_mirror), Ok(Action::ReflectOffMirror));
    assert_eq!(run.inbound, vec![(10, 0), (0, 20)]);
    assert!(run.outbound.is_empty());

    assert_eq!(run.advance(&reflected), Ok(Action::TraceToMask));
    assert_eq!(run.inbound, vec![(10, 0), (0, 20)]);
    assert!(run.outbound.is_empty());
    assert_eq!(run.contour(), None);

    assert_eq!(run.advance(&back), Ok(Action::Finished));
    assert_eq!(run.inbound, vec![(10, 0), (0, 20)]);
    assert_eq!(run.outbound, vec![(7, 0), (0, 30)]);
    assert_eq!(run.contour(), Some(vec![(10, 0), (0, 30)]));

    assert_eq!(run.advance(&on_mirror), Ok(Action::Finished));
    assert_eq!(run.inbound, vec![(10, 0), (0, 20)]);
    assert_eq!(run.outbound, vec![(7, 0), (0, 30)]);
}

#[test]
fn a_bundle_out_of_reach_is_refused_where_a_curve_is_read() {
    let mut run = TracingPipeline::new(OpticalPathMaskSpecs::Outer);
    let far = vec![at([0, 0, 0]), at([REACH + 1, 0, 0])];
    let near = vec![at([0, 0, 0]), at([REACH, 0, 0])];

    assert_eq!(run.advance(&far), Err(TraceError::OutOfReach));
    assert_eq!(run.stage, Stage::Launched);
    assert!(run.inbound.is_empty());

    assert_eq!(run.advance(&near), Ok(Action::TraceToMirror));
    assert_eq!(run.inbound.len(), 2);
    let inbound = run.inbound.clone();

    assert_eq!(run.advance(&far), Ok(Action::ReflectOffMirror));
    assert_eq!(run.advance(&far), Ok(Action::TraceToMask));

    assert_eq!(run.advance(&far), Err(TraceError::OutOfReach));
    assert_eq!(run.stage, Stage::Reflected);
    assert_eq!(run.inbound, inbound);
    assert!(run.outbound.is_empty());
    assert_eq!(run.contour(), None);

    assert_eq!(run.advance(&near), Ok(Action::Finished));
    assert_eq!(run.outbound, inbound);
    assert_eq!(run.contour(), Some(inbound));
}

#[test]
fn local_curve_reads_every_ray_in_order() {
    let specs = OpticalPathMaskSpecs::Outer;
    let rays = vec![
        at([8_700_000_000, 123_456_789, 1_500_000_000]),
        at([-1_000_000_000, -5, 0]),
        at(specs.vertex_origin()),
    ];
    assert_eq!(
        local_curve(&rays, &specs),
        vec![(94_632_067, 123_456_789), (-9_687_214_056, -5), (0, 0)]
    );
    assert_eq!(local_curve(&Vec::new(), &specs), Vec::new());
}

#[test]
fn bundle_in_reach_needs_every_ray_in_reach() {
    assert!(bundle_in_reach(&Vec::new()));
    assert!(bundle_in_reach(&vec![at([REACH, -REACH, 0])]));
    assert!(!bundle_in_reach(&vec![at([0, 0, 0]), at([0, 0, -REACH - 1])]));
    assert!(!bundle_in_reach(&vec![at([i64::MAX, 0, 0]), at([0, 0, 0])]));
}
