use framecomp::context::{
    ambient_light, next_stage, FrameStage, PresentMode, RectPts, RenderContext, ViewportLayout,
};
use framecomp::graph::{build_frame_graph, PassKind, TargetId, TextureFormat};
use framecomp::ratio::Ratio;
use framecomp::registry::{LightRecord, MaterialId, MeshId, Registry, Rgba};

fn ratio(num: i64, den: i64) -> Ratio {
    Ratio::new(num, den)
}

fn rect(width: Ratio, height: Ratio) -> RectPts {
    RectPts { x: ratio(0, 1), y: ratio(0, 1), width, height }
}

fn light() -> LightRecord {
    LightRecord {
        direction_x: ratio(0, 1),
        direction_y: ratio(-1, 1),
        direction_z: ratio(0, 1),
        color: Rgba { r: ratio(1, 1), g: ratio(1, 1), b: ratio(1, 1), a: ratio(1, 1) },
        intensity: ratio(10, 1),
    }
}

fn layout_800_600() -> ViewportLayout {
    ViewportLayout {
        view_3d: rect(ratio(400, 1), ratio(300, 1)),
        node_graph: rect(ratio(800, 1), ratio(600, 1)),
    }
}

#[test]
fn resize_is_idempotent() {
    let mut ctx = RenderContext::new(640, 480, TextureFormat::Bgra8UnormSrgb);
    ctx.on_resize(1920, 1080);
    let surface_once = ctx.surface;
    let aspect_once = ctx.camera.aspect;
    ctx.on_resize(1920, 1080);
    assert_eq!(ctx.surface, surface_once);
    assert_eq!(ctx.camera.aspect, aspect_once);
    assert_eq!(ctx.surface.width, 1920);
    assert_eq!(ctx.surface.height, 1080);
    assert_eq!(ctx.surface.present_mode, PresentMode::Mailbox);
}

#[test]
fn registry_lifecycle_empties_objects_and_keeps_lights() {
    let mut ctx = RenderContext::new(800, 600, TextureFormat::Bgra8UnormSrgb);
    ctx.add_light(light());
    let h = ctx.add_mesh_as_object(MeshId { raw: 7 }, MaterialId { raw: 3 });
    assert_eq!(h.slot, 0);
    assert_eq!(ctx.registry.objects.len(), 1);
    ctx.clear_objects();
    assert_eq!(ctx.registry.objects.len(), 0);
    assert_eq!(ctx.registry.lights.len(), 1);
    // a handle from the old generation is dead: the generation moved on
    assert_ne!(h.generation, ctx.registry.generation);
    // a following frame draws no objects, while the light remains
    let plan = ctx.plan_frame(layout_800_600(), ratio(2, 1), ratio(1, 1));
    assert_eq!(plan.scene_object_count, 0);
    assert_eq!(plan.light_count, 1);
}

#[test]
fn plan_frame_couples_the_three_scales() {
    let mut ctx = RenderContext::new(800, 600, TextureFormat::Bgra8UnormSrgb);
    let plan = ctx.plan_frame(layout_800_600(), ratio(2, 1), ratio(2, 1));
    // 3D pass: viewport times scale factor, no zoom
    assert_eq!(plan.scene_width, 800);
    assert_eq!(plan.scene_height, 600);
    // nested panel: target ignores zoom, reported scale is its inverse
    assert_eq!(plan.params.target_width, 1600);
    assert_eq!(plan.params.target_height, 1200);
    assert!(plan.params.reported_scale.eqv_check(ratio(1, 2)));
    assert!(plan.params.clip_correction.eqv_check(ratio(2, 1)));
    // aspect recomputed from the 3D viewport: 400/300
    assert!(ctx.camera.aspect.eqv_check(ratio(4, 3)));
    // the graph's targets carry the computed resolutions
    assert_eq!(plan.graph.targets[0].width, 800);
    assert_eq!(plan.graph.targets[0].height, 600);
    assert_eq!(plan.graph.targets[1].width, 1600);
    assert_eq!(plan.graph.targets[1].height, 1200);
}

#[test]
fn frame_graph_has_four_passes_to_one_terminal() {
    let g = build_frame_graph(800, 600, 1600, 1200, TextureFormat::Other(23));
    assert_eq!(g.passes.len(), 4);
    assert_eq!(g.passes[0].kind, PassKind::Scene);
    assert_eq!(g.passes[1].kind, PassKind::Tonemap);
    assert_eq!(g.passes[2].kind, PassKind::NestedUi);
    assert_eq!(g.passes[3].kind, PassKind::Composite);
    // the only pass writing the surface is the last
    for i in 0..3 {
        assert_ne!(g.passes[i].writes, TargetId::Surface);
    }
    assert_eq!(g.passes[3].writes, TargetId::Surface);
    // nothing reads the surface
    for p in &g.passes {
        assert!(!p.reads.contains(&TargetId::Surface));
    }
    // the compositor consumes both intermediate outputs
    assert_eq!(g.passes[3].reads, vec![TargetId::SceneColor, TargetId::NestedUi]);
    // declared targets: the scene colour in the surface format, the
    // nested panel in its fixed format
    assert_eq!(g.targets[0].id, TargetId::SceneColor);
    assert_eq!(g.targets[0].format, TextureFormat::Other(23));
    assert_eq!(g.targets[1].id, TargetId::NestedUi);
    assert_eq!(g.targets[1].format, TextureFormat::Bgra8UnormSrgb);
    assert_eq!(g.targets[0].samples, 1);
    assert_eq!(g.targets[1].samples, 1);
}

#[test]
fn frame_stages_run_in_order_and_abort_whole() {
    assert_eq!(next_stage(FrameStage::AcquireReady, false), None);
    assert_eq!(next_stage(FrameStage::AcquireReady, true), Some(FrameStage::BuildGraph));
    assert_eq!(next_stage(FrameStage::BuildGraph, true), Some(FrameStage::ExecuteGraph));
    assert_eq!(next_stage(FrameStage::ExecuteGraph, true), Some(FrameStage::Present));
    assert_eq!(next_stage(FrameStage::Present, true), None);
}

#[test]
fn ambient_light_is_quarter_white() {
    let c = ambient_light();
    assert!(c.r.eqv_check(ratio(1, 4)));
    assert!(c.g.eqv_check(ratio(1, 4)));
    assert!(c.b.eqv_check(ratio(1, 4)));
    assert!(c.a.eqv_check(ratio(1, 4)));
}

#[test]
fn registry_issues_sequential_handles() {
    let mut reg = Registry::new();
    let a = reg.add_mesh_as_object(MeshId { raw: 1 }, MaterialId { raw: 1 });
    let b = reg.add_mesh_as_object(MeshId { raw: 2 }, MaterialId { raw: 1 });
    assert_eq!(a.slot, 0);
    assert_eq!(b.slot, 1);
    assert_eq!(a.generation, b.generation);
    let l = reg.add_light(light());
    assert_eq!(l.slot, 0);
    assert_eq!(reg.objects.len(), 2);
    assert_eq!(reg.lights.len(), 1);
}
