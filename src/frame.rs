use vstd::prelude::*;

use crate::pipeline::{Dispatch, EvaluationPipeline};

verus! {

/// The shared switch that every pass reads before doing any GPU work.
#[derive(Clone, Copy, Debug, PartialEq, Eq, Structural)]
pub struct SDFRenderEnabled {
    pub enabled: bool,
}

impl Default for SDFRenderEnabled {
    /// Rendering starts enabled.
    fn default() -> (r: SDFRenderEnabled)
        ensures
            r.enabled,
    {
        SDFRenderEnabled { enabled: true }
    }
}

impl SDFRenderEnabled {
    /// Turns rendering on or off.
    pub fn set_render_enabled(&mut self, enabled: bool)
        ensures
            final(self).enabled == enabled,
    {
        self.enabled = enabled;
    }

    /// Switches rendering to the other state.
    pub fn toggle(&mut self)
        ensures
            final(self).enabled == !old(self).enabled,
    {
        self.enabled = !self.enabled;
    }
}

/// What is available to the passes this frame. Anything missing makes the
/// passes that need it skip the frame; they try again on the next one.
#[derive(Clone, Copy, Debug, PartialEq, Eq, Structural)]
pub struct FrameResources {
    pub coarse_pipeline_ready: bool,
    pub main_pipeline_ready: bool,
    pub compute_pipeline_ready: bool,
    pub settings_bound: bool,
    pub depth_texture: bool,
    pub coarse_texture: bool,
    pub entity_buffer: bool,
    pub bvh_buffer: bool,
}

/// The passes of one frame, in the order they are encoded: the coarse
/// prepass, then the main ray march, then the evaluation compute work.
#[derive(Clone, Debug)]
pub struct FramePlan {
    pub coarse_pass: bool,
    pub main_pass: bool,
    pub compute: Option<Dispatch>,
}

/// The coarse prepass can run: its pipeline, the settings uniform, the
/// depth prepass, the entity buffer and the coarse target are all there.
pub open spec fn coarse_ready(r: FrameResources) -> bool {
    r.coarse_pipeline_ready && r.settings_bound && r.depth_texture && r.entity_buffer && r.coarse_texture
}

/// The main pass reads the coarse texture written this frame, so it runs
/// only together with the coarse prepass, and needs its own pipeline and
/// the BVH buffer besides.
pub open spec fn main_ready(r: FrameResources) -> bool {
    coarse_ready(r) && r.main_pipeline_ready && r.bvh_buffer
}

/// The compute pass reads the settings uniform and the scene buffers.
pub open spec fn compute_ready(r: FrameResources) -> bool {
    r.compute_pipeline_ready && r.settings_bound && r.entity_buffer && r.bvh_buffer
}

/// Number of GPU passes a plan submits.
pub open spec fn submissions(p: FramePlan) -> nat {
    (if p.coarse_pass { 1nat } else { 0nat }) + (if p.main_pass { 1nat } else { 0nat }) + (
    if p.compute is Some {
        1nat
    } else {
        0nat
    })
}

/// Plans the GPU work of one frame. With rendering disabled nothing at all
/// is submitted and the evaluation pipeline is left as it was; otherwise
/// each pass runs exactly when what it needs is there, and the compute work
/// is whatever the evaluation pipeline has for this frame.
pub fn plan_frame(
    gate: &SDFRenderEnabled,
    res: &FrameResources,
    evaluation: &mut EvaluationPipeline,
) -> (r: FramePlan)
    requires
        old(evaluation).wf(),
    ensures
        final(evaluation).wf(),
        !gate.enabled ==> submissions(r) == 0 && *final(evaluation) == *old(evaluation),
        r.coarse_pass == (gate.enabled && coarse_ready(*res)),
        r.main_pass == (gate.enabled && main_ready(*res)),
        !(gate.enabled && compute_ready(*res)) ==> r.compute is None && *final(evaluation) == *old(evaluation),
        (gate.enabled && compute_ready(*res)) ==> (r.compute is Some <==> (old(evaluation).in_flight is None
            && old(evaluation).queue@.len() > 0)),
{
    if !gate.enabled {
        return FramePlan { coarse_pass: false, main_pass: false, compute: None };
    }
    let coarse = res.coarse_pipeline_ready && res.settings_bound && res.depth_texture && res.entity_buffer
        && res.coarse_texture;
    let main = coarse && res.main_pipeline_ready && res.bvh_buffer;
    let compute = if res.compute_pipeline_ready && res.settings_bound && res.entity_buffer && res.bvh_buffer {
        evaluation.begin_dispatch()
    } else {
        None
    };
    FramePlan { coarse_pass: coarse, main_pass: main, compute }
}

} // verus!
