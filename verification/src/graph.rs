//! The frame graph builder.
//!
//! Each frame a fresh directed graph of render passes is declared: the 3D
//! scene pass, a tonemap pass over its output, the nested-UI pass into its
//! own off-screen target, and the compositing pass that draws the
//! top-level UI into the presented surface, embedding the other two
//! outputs. The graph is a value: building it submits nothing. Every pass
//! reads only targets written by earlier passes — the build order is a
//! topological order, so the graph is acyclic — and the presented surface
//! is its only terminal: the last pass alone writes it, nothing reads it,
//! and every intermediate target is consumed by a later pass.

use vstd::prelude::*;

verus! {

/// A render target the passes read and write.
#[derive(Clone, Copy, PartialEq, Eq, Structural, Debug)]
pub enum TargetId {
    /// Intermediate colour target of the 3D scene, then tonemapped in place.
    SceneColor,
    /// Off-screen target the nested UI panel is rendered to.
    NestedUi,
    /// The swap-chain surface that is presented.
    Surface,
}

/// Pixel format of a target.
#[derive(Clone, Copy, PartialEq, Eq, Structural, Debug)]
pub enum TextureFormat {
    Bgra8UnormSrgb,
    Other(u32),
}

/// Descriptor of an off-screen target declared by the graph.
#[derive(Clone, Copy, PartialEq, Eq, Structural, Debug)]
pub struct TargetDesc {
    pub id: TargetId,
    pub width: u32,
    pub height: u32,
    pub format: TextureFormat,
    /// Multisample count; one sample throughout this design.
    pub samples: u32,
}

/// The work a pass performs.
#[derive(Clone, Copy, PartialEq, Eq, Structural, Debug)]
pub enum PassKind {
    /// Renders the 3D scene.
    Scene,
    /// Tonemaps the scene output.
    Tonemap,
    /// Renders the nested UI panel off-screen.
    NestedUi,
    /// Draws the top-level UI into the surface, embedding the other outputs.
    Composite,
}

/// One pass: what it does, the targets it reads, the target it writes.
#[derive(Clone, PartialEq, Eq, Debug)]
pub struct Pass {
    pub kind: PassKind,
    pub reads: Vec<TargetId>,
    pub writes: TargetId,
}

/// Every target a pass reads was written by an earlier pass, so the pass
/// order is a topological order of the dependency graph: it is acyclic.
pub open spec fn reads_follow_writes(passes: Seq<Pass>) -> bool {
    forall|i: int, k: int|
        0 <= i < passes.len() && 0 <= k < passes[i].reads@.len() ==> exists|j: int|
            0 <= j < i && (#[trigger] passes[j].writes) == #[trigger] passes[i].reads@[k]
}

/// Whether some pass of `passes` after position `i` reads target `t`.
pub open spec fn read_later(passes: Seq<Pass>, i: int, t: TargetId) -> bool {
    exists|j: int, k: int|
        i < j < passes.len() && 0 <= k < passes[j].reads@.len() && (#[trigger] passes[j].reads@[k])
            == t
}

/// The presented surface is the graph's only terminal node: the last pass
/// alone writes it, no pass reads it, and every other pass's output is
/// consumed by a later pass.
pub open spec fn single_terminal(passes: Seq<Pass>) -> bool {
    &&& passes.len() > 0
    &&& passes[passes.len() - 1].writes == TargetId::Surface
    &&& forall|i: int|
        0 <= i < passes.len() - 1 ==> (#[trigger] passes[i].writes) != TargetId::Surface
    &&& forall|i: int| 0 <= i < passes.len() - 1 ==> read_later(passes, i, #[trigger] passes[i].writes)
    &&& forall|i: int, k: int|
        0 <= i < passes.len() && 0 <= k < passes[i].reads@.len() ==> (#[trigger] passes[i].reads@[k])
            != TargetId::Surface
}

/// A per-frame graph: the off-screen targets it declares and its passes.
/// It is built fresh each frame and discarded after submission; no state
/// crosses frames.
#[derive(Clone, PartialEq, Eq, Debug)]
pub struct FrameGraph {
    pub targets: Vec<TargetDesc>,
    pub passes: Vec<Pass>,
}

impl FrameGraph {
    /// A well-formed graph is acyclic with the surface as its only
    /// terminal node.
    pub open spec fn wf(self) -> bool {
        reads_follow_writes(self.passes@) && single_terminal(self.passes@)
    }
}

/// Declares the frame's graph: scene pass and tonemap pass through the
/// scene colour target sized for the 3D viewport, the nested-UI pass into
/// its own target sized by the scale compensator, and the compositing
/// pass into the surface. Building performs no submission.
pub fn build_frame_graph(
    scene_width: u32,
    scene_height: u32,
    nested_width: u32,
    nested_height: u32,
    surface_format: TextureFormat,
) -> (g: FrameGraph)
    ensures
        g.wf(),
        g.targets@.len() == 2,
        g.targets@[0] == (TargetDesc {
            id: TargetId::SceneColor,
            width: scene_width,
            height: scene_height,
            format: surface_format,
            samples: 1,
        }),
        g.targets@[1] == (TargetDesc {
            id: TargetId::NestedUi,
            width: nested_width,
            height: nested_height,
            format: TextureFormat::Bgra8UnormSrgb,
            samples: 1,
        }),
        g.passes@.len() == 4,
        g.passes@[0].kind == PassKind::Scene,
        g.passes@[1].kind == PassKind::Tonemap,
        g.passes@[2].kind == PassKind::NestedUi,
        g.passes@[3].kind == PassKind::Composite,
        g.passes@[3].writes == TargetId::Surface,
        g.passes@[3].reads@ == seq![TargetId::SceneColor, TargetId::NestedUi],
{
    let mut targets: Vec<TargetDesc> = Vec::new();
    targets.push(
        TargetDesc {
            id: TargetId::SceneColor,
            width: scene_width,
            height: scene_height,
            format: surface_format,
            samples: 1,
        },
    );
    targets.push(
        TargetDesc {
            id: TargetId::NestedUi,
            width: nested_width,
            height: nested_height,
            format: TextureFormat::Bgra8UnormSrgb,
            samples: 1,
        },
    );
    let mut passes: Vec<Pass> = Vec::new();
    passes.push(Pass { kind: PassKind::Scene, reads: Vec::new(), writes: TargetId::SceneColor });
    let mut tonemap_reads: Vec<TargetId> = Vec::new();
    tonemap_reads.push(TargetId::SceneColor);
    passes.push(Pass { kind: PassKind::Tonemap, reads: tonemap_reads, writes: TargetId::SceneColor });
    passes.push(Pass { kind: PassKind::NestedUi, reads: Vec::new(), writes: TargetId::NestedUi });
    let mut composite_reads: Vec<TargetId> = Vec::new();
    composite_reads.push(TargetId::SceneColor);
    composite_reads.push(TargetId::NestedUi);
    passes.push(
        Pass { kind: PassKind::Composite, reads: composite_reads, writes: TargetId::Surface },
    );
    let g = FrameGraph { targets, passes };
    proof {
        let ps = g.passes@;
        assert(ps[3].reads@ == seq![TargetId::SceneColor, TargetId::NestedUi]);
        assert(reads_follow_writes(ps)) by {
            assert forall|i: int, k: int|
                0 <= i < ps.len() && 0 <= k < ps[i].reads@.len() implies exists|j: int|
                0 <= j < i && (#[trigger] ps[j].writes) == #[trigger] ps[i].reads@[k] by {
                if i == 1 {
                    assert(ps[0].writes == ps[1].reads@[k]);
                } else if i == 3 {
                    if k == 0 {
                        assert(ps[1].writes == ps[3].reads@[0]);
                    } else {
                        assert(ps[2].writes == ps[3].reads@[1]);
                    }
                }
            }
        }
        assert(single_terminal(ps)) by {
            assert forall|i: int| 0 <= i < ps.len() - 1 implies read_later(
                ps,
                i,
                #[trigger] ps[i].writes,
            ) by {
                if i == 0 {
                    assert(ps[1].reads@[0] == ps[0].writes);
                } else if i == 1 {
                    assert(ps[3].reads@[0] == ps[1].writes);
                } else {
                    assert(ps[3].reads@[1] == ps[2].writes);
                }
            }
        }
    }
    g
}

} // verus!
