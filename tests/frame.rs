use procedural_grass::frame::{frame_plan, FrameSequencer, FrameStep, StepOutcome};
use procedural_grass::surface::SurfaceSize;

fn run_frame(seq: &mut FrameSequencer, fail_at: Option<FrameStep>) -> Vec<FrameStep> {
    let mut recorded = Vec::new();
    let mut step = Some(seq.begin_frame());
    while let Some(s) = step {
        recorded.push(s);
        let outcome = if Some(s) == fail_at { StepOutcome::Failed } else { StepOutcome::Done };
        step = seq.complete(outcome);
    }
    recorded
}

#[test]
fn frame_plan_order() {
    assert_eq!(
        frame_plan(65536, 36),
        vec![
            FrameStep::UploadCamera,
            FrameStep::UploadWind { instance_count: 65536 },
            FrameStep::AcquireTarget,
            FrameStep::DispatchCompute { workgroups: 1024 },
            FrameStep::DrawGround { index_count: 6 },
            FrameStep::DrawGrass { index_count: 36, instance_count: 65536 },
            FrameStep::SubmitAndPresent,
        ]
    );
}

#[test]
fn recorded_compute_precedes_grass_draw() {
    let mut seq = FrameSequencer::new(1000, 36);
    for _ in 0..3 {
        let recorded = run_frame(&mut seq, None);
        let compute = recorded
            .iter()
            .position(|s| matches!(s, FrameStep::DispatchCompute { .. }))
            .unwrap();
        let draw = recorded
            .iter()
            .position(|s| matches!(s, FrameStep::DrawGrass { .. }))
            .unwrap();
        let submit = recorded.iter().position(|s| *s == FrameStep::SubmitAndPresent).unwrap();
        assert!(compute < draw);
        assert!(draw < submit);
        assert_eq!(submit, recorded.len() - 1);
        assert_eq!(recorded[compute], FrameStep::DispatchCompute { workgroups: 16 });
        assert!(!seq.frame_in_progress());
    }
}

#[test]
fn failed_acquire_skips_frame() {
    let mut seq = FrameSequencer::new(64, 36);
    let recorded = run_frame(&mut seq, Some(FrameStep::AcquireTarget));
    assert_eq!(
        recorded,
        vec![
            FrameStep::UploadCamera,
            FrameStep::UploadWind { instance_count: 64 },
            FrameStep::AcquireTarget,
        ]
    );
    assert!(!seq.frame_in_progress());
    assert_eq!(seq.complete(StepOutcome::Done), None);
    let next = run_frame(&mut seq, None);
    assert_eq!(next.len(), 7);
    assert_eq!(next[6], FrameStep::SubmitAndPresent);
}

#[test]
fn sequencer_between_frames_hands_out_nothing() {
    let mut seq = FrameSequencer::new(10, 6);
    assert!(!seq.frame_in_progress());
    assert_eq!(seq.complete(StepOutcome::Done), None);
    assert_eq!(seq.begin_frame(), FrameStep::UploadCamera);
    assert!(seq.frame_in_progress());
}

#[test]
fn surface_initial_size_is_at_least_one() {
    assert_eq!(SurfaceSize::initial(0, 720), SurfaceSize { width: 1, height: 720 });
    assert_eq!(SurfaceSize::initial(1280, 720), SurfaceSize { width: 1280, height: 720 });
}

#[test]
fn resize_ignores_empty_sizes() {
    let mut s = SurfaceSize::initial(1280, 720);
    assert!(!s.accept_resize(0, 600));
    assert!(!s.accept_resize(800, 0));
    assert_eq!(s, SurfaceSize { width: 1280, height: 720 });
    assert!(s.accept_resize(800, 600));
    assert_eq!(s, SurfaceSize { width: 800, height: 600 });
}
