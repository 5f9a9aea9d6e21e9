//! The per-frame command order. Both GPU passes go into one command
//! sequence that is submitted once, the compute pass first: the draw that
//! reads the instance buffer therefore sees the compute pass's writes.
use vstd::prelude::*;
use crate::config::WORKGROUP_SIZE;
use crate::dispatch::{workgroup_count, workgroups_spec};

verus! {

/// Index count of the ground quad.
pub const GROUND_INDEX_COUNT: u32 = 6;

/// One step of a frame, in the order the renderer performs them.
#[derive(Clone, Copy, Debug, PartialEq, Eq, Structural)]
pub enum FrameStep {
    /// Rebuild the view-projection matrix from the orbit state and upload it.
    UploadCamera,
    /// Upload the wind uniform: strength, elapsed time, instance count.
    UploadWind { instance_count: u32 },
    /// Acquire the image to draw into; the one step that may fail.
    AcquireTarget,
    /// Record the compute pass that rewrites the instance buffer.
    DispatchCompute { workgroups: u32 },
    /// Record the ground draw.
    DrawGround { index_count: u32 },
    /// Record the instanced grass draw, which reads the instance buffer.
    DrawGrass { index_count: u32, instance_count: u32 },
    /// Submit the command sequence as one unit and present the image.
    SubmitAndPresent,
}

/// What became of the step that was last handed out.
#[derive(Clone, Copy, Debug, PartialEq, Eq, Structural)]
pub enum StepOutcome {
    Done,
    Failed,
}

pub open spec fn frame_plan_spec(instance_count: u32, blade_index_count: u32) -> Seq<FrameStep> {
    seq![
        FrameStep::UploadCamera,
        FrameStep::UploadWind { instance_count },
        FrameStep::AcquireTarget,
        FrameStep::DispatchCompute {
            workgroups: workgroups_spec(instance_count as nat, WORKGROUP_SIZE as nat) as u32,
        },
        FrameStep::DrawGround { index_count: GROUND_INDEX_COUNT },
        FrameStep::DrawGrass { index_count: blade_index_count, instance_count },
        FrameStep::SubmitAndPresent,
    ]
}

/// The steps of one frame for `instance_count` blades whose mesh has
/// `blade_index_count` indices.
pub fn frame_plan(instance_count: u32, blade_index_count: u32) -> (r: Vec<FrameStep>)
    ensures
        r@ == frame_plan_spec(instance_count, blade_index_count),
{
    let workgroups = workgroup_count(instance_count, WORKGROUP_SIZE);
    let r = vec![
        FrameStep::UploadCamera,
        FrameStep::UploadWind { instance_count },
        FrameStep::AcquireTarget,
        FrameStep::DispatchCompute { workgroups },
        FrameStep::DrawGround { index_count: GROUND_INDEX_COUNT },
        FrameStep::DrawGrass { index_count: blade_index_count, instance_count },
        FrameStep::SubmitAndPresent,
    ];
    assert(r@ =~= frame_plan_spec(instance_count, blade_index_count));
    r
}

/// Hands out the steps of each frame in plan order and ends the frame early
/// when a step fails, so that a frame without a target image is skipped and
/// the next one starts afresh.
pub struct FrameSequencer {
    plan: Vec<FrameStep>,
    cursor: usize,
}

impl FrameSequencer {
    /// The steps of every frame.
    pub closed spec fn plan(&self) -> Seq<FrameStep> {
        self.plan@
    }

    /// Position of the step last handed out; the plan's length between
    /// frames.
    pub closed spec fn cursor(&self) -> nat {
        self.cursor as nat
    }

    pub open spec fn wf(&self) -> bool {
        self.cursor() <= self.plan().len() && self.plan().len() > 0
    }

    pub open spec fn in_frame(&self) -> bool {
        self.cursor() < self.plan().len()
    }

    /// A sequencer between frames.
    pub fn new(instance_count: u32, blade_index_count: u32) -> (r: Self)
        ensures
            r.wf(),
            r.plan() == frame_plan_spec(instance_count, blade_index_count),
            !r.in_frame(),
    {
        let plan = frame_plan(instance_count, blade_index_count);
        let cursor = plan.len();
        FrameSequencer { plan, cursor }
    }

    /// Whether a frame is under way.
    pub fn frame_in_progress(&self) -> (r: bool)
        requires
            self.wf(),
        ensures
            r == self.in_frame(),
    {
        self.cursor < self.plan.len()
    }

    /// Starts a frame and hands out its first step. A frame left unfinished
    /// is dropped.
    pub fn begin_frame(&mut self) -> (r: FrameStep)
        requires
            old(self).wf(),
        ensures
            final(self).wf(),
            final(self).plan() == old(self).plan(),
            final(self).cursor() == 0,
            r == old(self).plan()[0],
    {
        self.cursor = 0;
        self.plan[0]
    }

    /// Reports on the step last handed out and hands out the next one, if
    /// the frame goes on. A failure ends the frame there: none of the
    /// remaining steps, submission included, is handed out. Between frames
    /// nothing is handed out.
    pub fn complete(&mut self, outcome: StepOutcome) -> (r: Option<FrameStep>)
        requires
            old(self).wf(),
        ensures
            final(self).wf(),
            final(self).plan() == old(self).plan(),
            !old(self).in_frame() ==> *final(self) == *old(self) && r is None,
            old(self).in_frame() && outcome == StepOutcome::Failed ==> !final(self).in_frame()
                && r is None,
            old(self).in_frame() && outcome == StepOutcome::Done ==> {
                let next = old(self).cursor() + 1;
                if next < old(self).plan().len() {
                    final(self).cursor() == next && r == Some(old(self).plan()[next as int])
                } else {
                    !final(self).in_frame() && r is None
                }
            },
    {
        let len = self.plan.len();
        if self.cursor >= len {
            return None;
        }
        match outcome {
            StepOutcome::Failed => {
                self.cursor = len;
                None
            },
            StepOutcome::Done => {
                let next = self.cursor + 1;
                if next < len {
                    self.cursor = next;
                    Some(self.plan[next])
                } else {
                    self.cursor = len;
                    None
                }
            },
        }
    }
}

/// In every frame plan the compute dispatch comes strictly before the grass
/// draw that reads the instance buffer, and covers every instance that draw
/// reads; the wind upload before them carries the same instance count; and
/// the single submission is the last step, after both passes.
pub proof fn lemma_compute_precedes_draw(instance_count: u32, blade_index_count: u32)
    ensures
        ({
            let p = frame_plan_spec(instance_count, blade_index_count);
            &&& forall|j: int|
                0 <= j < p.len() && (#[trigger] p[j]) is DrawGrass ==> exists|i: int|
                    0 <= i < j && (#[trigger] p[i]) is DispatchCompute && p[j]->DrawGrass_instance_count
                        <= p[i]->workgroups * WORKGROUP_SIZE
            &&& forall|j: int|
                0 <= j < p.len() && (#[trigger] p[j]) is DrawGrass ==> exists|i: int|
                    0 <= i < j && (#[trigger] p[i]) is UploadWind && p[i]->UploadWind_instance_count
                        == p[j]->DrawGrass_instance_count
            &&& p.last() is SubmitAndPresent
            &&& forall|k: int| 0 <= k < p.len() - 1 ==> !((#[trigger] p[k]) is SubmitAndPresent)
        }),
{
    let p = frame_plan_spec(instance_count, blade_index_count);
    let c = instance_count as int;
    let g = WORKGROUP_SIZE as int;
    assert((c + g - 1) / g * g >= c) by (nonlinear_arith)
        requires
            g == 64,
            c >= 0,
    ;
    assert(workgroups_spec(instance_count as nat, WORKGROUP_SIZE as nat) <= u32::MAX);
    assert(p[3] is DispatchCompute);
    assert(p[1] is UploadWind);
}

} // verus!
