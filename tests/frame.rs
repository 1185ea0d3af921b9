use sdf_scene::{plan_frame, EvaluationPipeline, FrameResources, SDFRenderEnabled, SdfEvaluationRequest, Vec2Bits};

fn all_ready() -> FrameResources {
    FrameResources {
        coarse_pipeline_ready: true,
        main_pipeline_ready: true,
        compute_pipeline_ready: true,
        settings_bound: true,
        depth_texture: true,
        coarse_texture: true,
        entity_buffer: true,
        bvh_buffer: true,
    }
}

fn one_request(p: &mut EvaluationPipeline) {
    p.submit(SdfEvaluationRequest { points: vec![Vec2Bits { x: 0, y: 0 }], id: 1 });
}

fn submissions(plan: &sdf_scene::FramePlan) -> usize {
    plan.coarse_pass as usize + plan.main_pass as usize + plan.compute.is_some() as usize
}

#[test]
fn disabled_gate_submits_nothing() {
    let mut p = EvaluationPipeline::new();
    one_request(&mut p);
    let gate = SDFRenderEnabled { enabled: false };
    let plan = plan_frame(&gate, &all_ready(), &mut p);
    assert_eq!(submissions(&plan), 0);
    assert!(!plan.coarse_pass && !plan.main_pass && plan.compute.is_none());
    assert_eq!(p.pending_count(), 1);
    assert!(!p.has_outstanding_mapping());
}

#[test]
fn enabled_gate_with_everything_ready_runs_all_passes() {
    let mut p = EvaluationPipeline::new();
    one_request(&mut p);
    let gate = SDFRenderEnabled::default();
    assert!(gate.enabled);
    let plan = plan_frame(&gate, &all_ready(), &mut p);
    assert!(plan.coarse_pass && plan.main_pass);
    assert_eq!(plan.compute.unwrap().id, 1);
    assert!(p.has_outstanding_mapping());
}

#[test]
fn missing_depth_texture_skips_both_render_passes() {
    let mut p = EvaluationPipeline::new();
    let mut res = all_ready();
    res.depth_texture = false;
    let plan = plan_frame(&SDFRenderEnabled { enabled: true }, &res, &mut p);
    assert!(!plan.coarse_pass && !plan.main_pass);
}

#[test]
fn missing_bvh_buffer_keeps_only_the_coarse_pass() {
    let mut p = EvaluationPipeline::new();
    one_request(&mut p);
    let mut res = all_ready();
    res.bvh_buffer = false;
    let plan = plan_frame(&SDFRenderEnabled { enabled: true }, &res, &mut p);
    assert!(plan.coarse_pass);
    assert!(!plan.main_pass);
    assert!(plan.compute.is_none());
    assert_eq!(p.pending_count(), 1);
}

#[test]
fn main_pass_waits_for_the_coarse_pass() {
    let mut p = EvaluationPipeline::new();
    let mut res = all_ready();
    res.coarse_pipeline_ready = false;
    let plan = plan_frame(&SDFRenderEnabled { enabled: true }, &res, &mut p);
    assert!(!plan.coarse_pass && !plan.main_pass);
}

#[test]
fn uncompiled_compute_pipeline_keeps_requests_queued() {
    let mut p = EvaluationPipeline::new();
    one_request(&mut p);
    let mut res = all_ready();
    res.compute_pipeline_ready = false;
    let plan = plan_frame(&SDFRenderEnabled { enabled: true }, &res, &mut p);
    assert!(plan.compute.is_none());
    assert!(plan.coarse_pass && plan.main_pass);
    assert_eq!(p.pending_count(), 1);
    let plan = plan_frame(&SDFRenderEnabled { enabled: true }, &all_ready(), &mut p);
    assert!(plan.compute.is_some());
}

#[test]
fn gate_toggles() {
    let mut gate = SDFRenderEnabled::default();
    gate.toggle();
    assert!(!gate.enabled);
    gate.set_render_enabled(true);
    assert!(gate.enabled);
}
