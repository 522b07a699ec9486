//! The render orchestrator.
//!
//! `RenderContext` owns the per-window rendering state this crate models:
//! the resource registry, the camera, and the configuration of the output
//! surface. Each frame it computes, from the viewport layout and the
//! current zoom, everything the frame needs — camera aspect, target
//! resolutions, scale compensation, and the frame graph — as one plan.
//! Acquiring the surface, uploading resources and executing the graph are
//! device work done at the boundary around the library; a frame either
//! runs to presentation or is abandoned whole when acquisition fails, to
//! be retried next tick.

use crate::camera::{project_fits, Affine, Camera, ScreenPoint, Vec3r};
use crate::graph::{build_frame_graph, FrameGraph, TextureFormat};
use crate::ratio::{fits_i128, Ratio};
use crate::registry::{LightHandle, LightRecord, MaterialId, MeshId, ObjectHandle, ObjectRecord,
    Registry, Rgba};
use crate::scale::{compensate, compensate_fits, spec_compensate, spec_target_len, ScaleParams};
use vstd::prelude::*;

verus! {

/// How the presented surface hands out frames. Presentation in this
/// design is fixed to latest-frame-wins, non-blocking, to keep input
/// latency low.
#[derive(Clone, Copy, PartialEq, Eq, Structural, Debug)]
pub enum PresentMode {
    Immediate,
    Mailbox,
    Fifo,
}

/// Configuration of the output surface.
#[derive(Clone, Copy, PartialEq, Eq, Structural, Debug)]
pub struct SurfaceConfig {
    pub width: u32,
    pub height: u32,
    pub format: TextureFormat,
    pub present_mode: PresentMode,
}

/// The surface configuration after a resize to `width` by `height`: the
/// new physical size, the same pixel format, presentation unchanged.
pub open spec fn spec_resized_surface(format: TextureFormat, width: u32, height: u32) -> SurfaceConfig {
    SurfaceConfig { width, height, format, present_mode: PresentMode::Mailbox }
}

/// The camera aspect ratio recomputed on a resize: the 3D viewport spans
/// half the surface width in the default layout, so the surface is twice
/// as wide as it is tall relative to the viewport.
pub open spec fn spec_resized_aspect(width: u32, height: u32) -> Ratio {
    Ratio { num: ((2 * width) as i128), den: height as i128 }
}

/// A rectangle in logical UI points.
#[derive(Clone, Copy, PartialEq, Eq, Structural, Debug)]
pub struct RectPts {
    pub x: Ratio,
    pub y: Ratio,
    pub width: Ratio,
    pub height: Ratio,
}

/// Where the two embedded viewports sit this frame, in UI points; read
/// fresh each frame, never cached.
#[derive(Clone, Copy, PartialEq, Eq, Structural, Debug)]
pub struct ViewportLayout {
    pub view_3d: RectPts,
    pub node_graph: RectPts,
}

/// Everything one frame needs, computed before any device work: the
/// resolutions, the scale compensation, the graph, and how many objects
/// and lights the scene pass draws. The reported scale must reach the
/// nested UI layer before it tessellates its primitives for the frame; a
/// later correction cannot mend geometry already produced for the old
/// scale.
#[derive(Clone, PartialEq, Eq, Debug)]
pub struct FramePlan {
    pub scene_width: u32,
    pub scene_height: u32,
    pub params: ScaleParams,
    pub graph: FrameGraph,
    pub scene_object_count: usize,
    pub light_count: usize,
}

/// The stages one frame passes through, in order; device work happens
/// between them.
#[derive(Clone, Copy, PartialEq, Eq, Structural, Debug)]
pub enum FrameStage {
    /// Wait until pending resource uploads are ready and the surface is acquired.
    AcquireReady,
    /// Pure graph construction.
    BuildGraph,
    /// Submit the graph and the frame's command buffers to the queue.
    ExecuteGraph,
    /// Presentation, implicit in the surface target's lifetime.
    Present,
}

/// Advances the per-frame state machine. `None` ends the frame: after
/// presenting, or — when surface acquisition failed — abandoning the whole
/// frame with nothing submitted, to retry next tick. There is no partial
/// recovery in between.
pub fn next_stage(stage: FrameStage, surface_acquired: bool) -> (r: Option<FrameStage>)
    ensures
        stage == FrameStage::AcquireReady && !surface_acquired ==> r is None,
        stage == FrameStage::AcquireReady && surface_acquired ==> r == Some(FrameStage::BuildGraph),
        stage == FrameStage::BuildGraph ==> r == Some(FrameStage::ExecuteGraph),
        stage == FrameStage::ExecuteGraph ==> r == Some(FrameStage::Present),
        stage == FrameStage::Present ==> r is None,
{
    match stage {
        FrameStage::AcquireReady => if surface_acquired {
            Some(FrameStage::BuildGraph)
        } else {
            None
        },
        FrameStage::BuildGraph => Some(FrameStage::ExecuteGraph),
        FrameStage::ExecuteGraph => Some(FrameStage::Present),
        FrameStage::Present => None,
    }
}

/// Ambient light fed to the scene pass: a quarter of full white.
pub open spec fn spec_ambient_light() -> Rgba {
    Rgba {
        r: Ratio { num: 1, den: 4 },
        g: Ratio { num: 1, den: 4 },
        b: Ratio { num: 1, den: 4 },
        a: Ratio { num: 1, den: 4 },
    }
}

/// The ambient light of the scene pass.
pub fn ambient_light() -> (c: Rgba)
    ensures
        c == spec_ambient_light(),
{
    Rgba {
        r: Ratio { num: 1, den: 4 },
        g: Ratio { num: 1, den: 4 },
        b: Ratio { num: 1, den: 4 },
        a: Ratio { num: 1, den: 4 },
    }
}

/// The arithmetic of `plan_frame` stays within the widest signed integer
/// for this layout and scale.
pub open spec fn plan_fits(layout: ViewportLayout, ppp: Ratio) -> bool {
    &&& compensate_fits(layout.node_graph.width, layout.node_graph.height, ppp)
    &&& compensate_fits(layout.view_3d.width, layout.view_3d.height, ppp)
    &&& fits_i128(layout.view_3d.width.num * layout.view_3d.height.den)
    &&& fits_i128(layout.view_3d.width.den * layout.view_3d.height.num)
}

/// The render orchestrator's state.
pub struct RenderContext {
    pub registry: Registry,
    pub camera: Camera,
    pub surface: SurfaceConfig,
}

impl RenderContext {
    pub open spec fn wf(self) -> bool {
        self.camera.wf()
    }

    /// State for a window of `width` by `height` physical pixels whose
    /// surface prefers `format`. Device, surface and routine creation is
    /// boundary work; the orchestrator starts from an identity view, the
    /// window's aspect ratio, an empty registry, and non-blocking
    /// presentation.
    pub fn new(width: u32, height: u32, format: TextureFormat) -> (r: RenderContext)
        requires
            width >= 1,
            height >= 1,
        ensures
            r.wf(),
            r.registry.objects@ == Seq::<ObjectRecord>::empty(),
            r.registry.lights@ == Seq::<LightRecord>::empty(),
            r.registry.generation == 0,
            r.camera.view == Affine::spec_identity(),
            r.camera.aspect == (Ratio { num: width as i128, den: height as i128 }),
            r.surface == (SurfaceConfig {
                width,
                height,
                format,
                present_mode: PresentMode::Mailbox,
            }),
    {
        RenderContext {
            registry: Registry::new(),
            camera: Camera {
                view: Affine::identity(),
                aspect: Ratio { num: width as i128, den: height as i128 },
            },
            surface: SurfaceConfig { width, height, format, present_mode: PresentMode::Mailbox },
        }
    }

    /// Drops all tracked object handles; lights stay. See
    /// `Registry::clear_objects`.
    pub fn clear_objects(&mut self)
        requires
            old(self).registry.generation < u64::MAX,
        ensures
            final(self).registry.objects@ == Seq::<ObjectRecord>::empty(),
            final(self).registry.lights@ == old(self).registry.lights@,
            final(self).registry.generation == old(self).registry.generation + 1,
            forall|h: ObjectHandle| !final(self).registry.object_live(h),
            final(self).camera == old(self).camera,
            final(self).surface == old(self).surface,
    {
        self.registry.clear_objects();
    }

    /// Records an uploaded mesh as an object with the default material and
    /// identity transform. See `Registry::add_mesh_as_object`.
    pub fn add_mesh_as_object(&mut self, mesh: MeshId, material: MaterialId) -> (h: ObjectHandle)
        ensures
            final(self).registry.objects@ == old(self).registry.objects@.push(
                ObjectRecord { mesh, material, transform: Affine::spec_identity() },
            ),
            final(self).registry.lights@ == old(self).registry.lights@,
            final(self).registry.generation == old(self).registry.generation,
            h.slot == old(self).registry.objects@.len(),
            h.generation == old(self).registry.generation,
            final(self).registry.object_live(h),
            final(self).camera == old(self).camera,
            final(self).surface == old(self).surface,
    {
        self.registry.add_mesh_as_object(mesh, material)
    }

    /// Records a pre-built object. See `Registry::add_object`.
    pub fn add_object(&mut self, object: ObjectRecord) -> (h: ObjectHandle)
        ensures
            final(self).registry.objects@ == old(self).registry.objects@.push(object),
            final(self).registry.lights@ == old(self).registry.lights@,
            final(self).registry.generation == old(self).registry.generation,
            h.slot == old(self).registry.objects@.len(),
            h.generation == old(self).registry.generation,
            final(self).registry.object_live(h),
            final(self).camera == old(self).camera,
            final(self).surface == old(self).surface,
    {
        self.registry.add_object(object)
    }

    /// Appends a directional light. See `Registry::add_light`.
    pub fn add_light(&mut self, light: LightRecord) -> (h: LightHandle)
        ensures
            final(self).registry.lights@ == old(self).registry.lights@.push(light),
            final(self).registry.objects@ == old(self).registry.objects@,
            final(self).registry.generation == old(self).registry.generation,
            h.slot == old(self).registry.lights@.len(),
            final(self).camera == old(self).camera,
            final(self).surface == old(self).surface,
    {
        self.registry.add_light(light)
    }

    /// Replaces the active view transform; the projection's field of view
    /// and near plane are constants of the design.
    pub fn set_camera(&mut self, view: Affine)
        requires
            view.wf(),
        ensures
            final(self).camera.view == view,
            final(self).camera.aspect == old(self).camera.aspect,
            final(self).registry == old(self).registry,
            final(self).surface == old(self).surface,
    {
        self.camera.view = view;
    }

    /// Projects a world point to pixel coordinates in a screen of the
    /// given size. Pure and read-only. See `Camera::project_point`.
    pub fn project_point(&self, point: &Vec3r, width: u32, height: u32) -> (r: ScreenPoint)
        requires
            self.wf(),
            point.wf(),
            project_fits(self.camera, *point, width as int, height as int),
        ensures
            r.wf(),
            crate::camera::norm_z(self.camera.view, *point) == 0 ==> r == (ScreenPoint {
                x: width as i128,
                y: height as i128,
                den: 2,
            }),
            crate::camera::norm_z(self.camera.view, *point) != 0 ==> {
                &&& r.x == crate::camera::spec_screen_x_num(
                    self.camera.aspect,
                    crate::camera::norm_x(self.camera.view, *point),
                    crate::camera::norm_z(self.camera.view, *point),
                    width as int,
                )
                &&& r.y == crate::camera::spec_screen_y_num(
                    self.camera.aspect,
                    crate::camera::norm_y(self.camera.view, *point),
                    crate::camera::norm_z(self.camera.view, *point),
                    height as int,
                )
                &&& r.den == crate::camera::spec_screen_den(
                    self.camera.aspect,
                    crate::camera::norm_z(self.camera.view, *point),
                )
            },
    {
        self.camera.project_point(point, width, height)
    }

    /// Computes one frame's plan: the camera aspect from the 3D viewport,
    /// the 3D pass resolution from that viewport and the scale factor (the
    /// zoom never reaches the 3D pass), the nested panel's compensation,
    /// and the frame graph. No device work happens here. Callers clamp
    /// first: the scale factor and zoom level are strictly positive, the
    /// viewport extents positive.
    pub fn plan_frame(&mut self, layout: ViewportLayout, ppp: Ratio, zoom: Ratio) -> (plan:
        FramePlan)
        requires
            old(self).wf(),
            layout.view_3d.width.wf(),
            layout.view_3d.width.is_pos(),
            layout.view_3d.height.wf(),
            layout.view_3d.height.is_pos(),
            layout.node_graph.width.wf(),
            layout.node_graph.width.num >= 0,
            layout.node_graph.height.wf(),
            layout.node_graph.height.num >= 0,
            ppp.wf(),
            ppp.is_pos(),
            zoom.wf(),
            zoom.is_pos(),
            plan_fits(layout, ppp),
            spec_target_len(layout.view_3d.width, ppp) <= 0xffff_ffff,
            spec_target_len(layout.view_3d.height, ppp) <= 0xffff_ffff,
            spec_target_len(layout.node_graph.width, ppp) <= 0xffff_ffff,
            spec_target_len(layout.node_graph.height, ppp) <= 0xffff_ffff,
        ensures
            final(self).wf(),
            // The aspect ratio is recomputed each frame from the 3D viewport.
            final(self).camera.aspect == (Ratio {
                num: (layout.view_3d.width.num * layout.view_3d.height.den) as i128,
                den: (layout.view_3d.width.den * layout.view_3d.height.num) as i128,
            }),
            final(self).camera.view == old(self).camera.view,
            final(self).registry == old(self).registry,
            final(self).surface == old(self).surface,
            plan.params == spec_compensate(
                layout.node_graph.width,
                layout.node_graph.height,
                ppp,
                zoom,
            ),
            plan.scene_width == spec_target_len(layout.view_3d.width, ppp),
            plan.scene_height == spec_target_len(layout.view_3d.height, ppp),
            plan.graph.wf(),
            plan.graph.targets@.len() == 2,
            plan.graph.targets@[0].width == plan.scene_width,
            plan.graph.targets@[0].height == plan.scene_height,
            plan.graph.targets@[0].format == old(self).surface.format,
            plan.graph.targets@[1].width == plan.params.target_width,
            plan.graph.targets@[1].height == plan.params.target_height,
            plan.scene_object_count == old(self).registry.objects@.len(),
            plan.light_count == old(self).registry.lights@.len(),
    {
        let aspect_num = layout.view_3d.width.num * layout.view_3d.height.den;
        let aspect_den = layout.view_3d.width.den * layout.view_3d.height.num;
        proof {
            assert(aspect_num > 0 && aspect_den > 0) by (nonlinear_arith)
                requires
                    aspect_num == layout.view_3d.width.num * layout.view_3d.height.den,
                    aspect_den == layout.view_3d.width.den * layout.view_3d.height.num,
                    layout.view_3d.width.num > 0,
                    layout.view_3d.width.den > 0,
                    layout.view_3d.height.num > 0,
                    layout.view_3d.height.den > 0;
        }
        self.camera.aspect = Ratio { num: aspect_num, den: aspect_den };
        let scene_prod_w = layout.view_3d.width.times(ppp);
        let scene_prod_h = layout.view_3d.height.times(ppp);
        proof {
            assert(scene_prod_w.num >= 0 && scene_prod_h.num >= 0) by (nonlinear_arith)
                requires
                    scene_prod_w.num == layout.view_3d.width.num * ppp.num,
                    scene_prod_h.num == layout.view_3d.height.num * ppp.num,
                    layout.view_3d.width.num > 0,
                    layout.view_3d.height.num > 0,
                    ppp.num > 0;
        }
        let scene_width = scene_prod_w.round_to_u32();
        let scene_height = scene_prod_h.round_to_u32();
        let params = compensate(layout.node_graph.width, layout.node_graph.height, ppp, zoom);
        let graph = build_frame_graph(
            scene_width,
            scene_height,
            params.target_width,
            params.target_height,
            self.surface.format,
        );
        FramePlan {
            scene_width,
            scene_height,
            params,
            graph,
            scene_object_count: self.registry.objects.len(),
            light_count: self.registry.lights.len(),
        }
    }

    /// Applies a resize synchronously, before the next frame's graph is
    /// built: the surface is reconfigured with the new physical size and
    /// the same format and presentation, and the camera aspect ratio is
    /// recomputed. Resizes are not queued; a frame always uses the latest
    /// known size.
    pub fn on_resize(&mut self, width: u32, height: u32)
        requires
            old(self).wf(),
            width >= 1,
            height >= 1,
        ensures
            final(self).wf(),
            final(self).surface == spec_resized_surface(old(self).surface.format, width, height),
            final(self).camera.aspect == spec_resized_aspect(width, height),
            final(self).camera.view == old(self).camera.view,
            final(self).registry == old(self).registry,
    {
        self.surface = SurfaceConfig {
            width,
            height,
            format: self.surface.format,
            present_mode: PresentMode::Mailbox,
        };
        self.camera.aspect = Ratio { num: 2 * (width as i128), den: height as i128 };
    }
}

/// Law: a resize is idempotent. A resize keeps the surface's pixel format,
/// so resizing again to the same size reproduces the same surface
/// configuration; and the aspect ratio is a function of the new size
/// alone, so the repeated call recomputes the identical value.
pub proof fn lemma_on_resize_idempotent(format: TextureFormat, width: u32, height: u32)
    ensures
        spec_resized_surface(spec_resized_surface(format, width, height).format, width, height)
            == spec_resized_surface(format, width, height),
{
}

} // verus!
