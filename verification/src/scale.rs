//! The scale compensator.
//!
//! A nested UI panel is rendered to an off-screen texture and composited,
//! scaled by a user zoom factor, into the final surface. Three coupled
//! values are recomputed each frame from the panel size in points, the
//! platform scale factor (pixels per point) and the zoom level:
//!
//! 1. the off-screen target resolution, `round(panel_size * pixels_per_point)`,
//!    deliberately independent of the zoom so layout stays stable;
//! 2. the UI scale reported to the nested layer, exactly `1 / zoom_level`,
//!    so rendered detail grows as the compositor magnifies the texture;
//! 3. the clip-rectangle correction, exactly `zoom_level`, applied at draw
//!    time to realign clip bounds with the true output region.
//!
//! The reported scale must reach the nested layer before it tessellates its
//! primitives for the frame; a later correction cannot mend geometry that
//! was already produced for the old scale.

use crate::ratio::{fits_i128, Ratio};
use vstd::prelude::*;

verus! {

/// Per-frame outputs of the scale compensator.
#[derive(Clone, Copy, PartialEq, Eq, Structural, Debug)]
pub struct ScaleParams {
    /// Width in pixels of the nested panel's off-screen target.
    pub target_width: u32,
    /// Height in pixels of the nested panel's off-screen target.
    pub target_height: u32,
    /// UI scale handed to the nested layer before it tessellates.
    pub reported_scale: Ratio,
    /// Factor applied to the nested layer's clip rectangles at draw time.
    pub clip_correction: Ratio,
}

/// One side of the off-screen target: the panel extent in points times the
/// pixels-per-point factor, rounded to the nearest pixel.
pub open spec fn spec_target_len(panel: Ratio, ppp: Ratio) -> int {
    crate::ratio::spec_round_pair(panel.num * ppp.num, panel.den * ppp.den)
}

/// What the compensator returns, as a function of its inputs alone. The
/// zoom level reaches only the reported scale and the clip correction; the
/// target resolution is a function of panel size and pixels-per-point.
pub open spec fn spec_compensate(
    panel_width: Ratio,
    panel_height: Ratio,
    ppp: Ratio,
    zoom: Ratio,
) -> ScaleParams {
    ScaleParams {
        target_width: spec_target_len(panel_width, ppp) as u32,
        target_height: spec_target_len(panel_height, ppp) as u32,
        reported_scale: Ratio { num: zoom.den, den: zoom.num },
        clip_correction: zoom,
    }
}

/// The arithmetic of `compensate` stays within the machine's widest
/// signed integer for these inputs.
pub open spec fn compensate_fits(panel_width: Ratio, panel_height: Ratio, ppp: Ratio) -> bool {
    &&& fits_i128(panel_width.num * ppp.num)
    &&& fits_i128(panel_width.den * ppp.den)
    &&& fits_i128(panel_height.num * ppp.num)
    &&& fits_i128(panel_height.den * ppp.den)
    &&& fits_i128(2 * (panel_width.num * ppp.num) + panel_width.den * ppp.den)
    &&& fits_i128(2 * (panel_width.den * ppp.den))
    &&& fits_i128(2 * (panel_height.num * ppp.num) + panel_height.den * ppp.den)
    &&& fits_i128(2 * (panel_height.den * ppp.den))
}

/// Computes the per-frame scale compensation. Callers clamp their inputs
/// first: a zoom level or scale factor that is not strictly positive never
/// reaches this function.
pub fn compensate(panel_width: Ratio, panel_height: Ratio, ppp: Ratio, zoom: Ratio) -> (p:
    ScaleParams)
    requires
        panel_width.wf(),
        panel_width.num >= 0,
        panel_height.wf(),
        panel_height.num >= 0,
        ppp.wf(),
        ppp.is_pos(),
        zoom.wf(),
        zoom.is_pos(),
        compensate_fits(panel_width, panel_height, ppp),
        spec_target_len(panel_width, ppp) <= 0xffff_ffff,
        spec_target_len(panel_height, ppp) <= 0xffff_ffff,
    ensures
        p == spec_compensate(panel_width, panel_height, ppp, zoom),
        p.reported_scale.wf(),
        p.reported_scale.is_pos(),
        // The reported scale is exactly the reciprocal of the zoom level.
        p.reported_scale.num * zoom.num == p.reported_scale.den * zoom.den,
        p.clip_correction == zoom,
        p.target_width == spec_target_len(panel_width, ppp),
        p.target_height == spec_target_len(panel_height, ppp),
{
    let w_prod = panel_width.times(ppp);
    let h_prod = panel_height.times(ppp);
    proof {
        assert(w_prod.num >= 0) by (nonlinear_arith)
            requires
                w_prod.num == panel_width.num * ppp.num,
                panel_width.num >= 0,
                ppp.num > 0;
        assert(h_prod.num >= 0) by (nonlinear_arith)
            requires
                h_prod.num == panel_height.num * ppp.num,
                panel_height.num >= 0,
                ppp.num > 0;
    }
    let target_width = w_prod.round_to_u32();
    let target_height = h_prod.round_to_u32();
    let reported_scale = zoom.recip();
    ScaleParams { target_width, target_height, reported_scale, clip_correction: zoom }
}

/// Law: the off-screen target resolution does not depend on the zoom level.
pub proof fn lemma_target_resolution_ignores_zoom(
    panel_width: Ratio,
    panel_height: Ratio,
    ppp: Ratio,
    zoom_a: Ratio,
    zoom_b: Ratio,
)
    ensures
        spec_compensate(panel_width, panel_height, ppp, zoom_a).target_width
            == spec_compensate(panel_width, panel_height, ppp, zoom_b).target_width,
        spec_compensate(panel_width, panel_height, ppp, zoom_a).target_height
            == spec_compensate(panel_width, panel_height, ppp, zoom_b).target_height,
{
}

/// Law: the scale reported to the nested layer is exactly the reciprocal of
/// the zoom level: their product is one.
pub proof fn lemma_reported_scale_inverts_zoom(
    panel_width: Ratio,
    panel_height: Ratio,
    ppp: Ratio,
    zoom: Ratio,
)
    requires
        zoom.wf(),
        zoom.is_pos(),
    ensures
        spec_compensate(panel_width, panel_height, ppp, zoom).reported_scale.num * zoom.num
            == spec_compensate(panel_width, panel_height, ppp, zoom).reported_scale.den * zoom.den,
        spec_compensate(panel_width, panel_height, ppp, zoom).reported_scale.wf(),
        spec_compensate(panel_width, panel_height, ppp, zoom).reported_scale.is_pos(),
{
    let s = spec_compensate(panel_width, panel_height, ppp, zoom).reported_scale;
    assert(s.num * zoom.num == s.den * zoom.den) by (nonlinear_arith)
        requires
            s.num == zoom.den,
            s.den == zoom.num;
}

/// Law: with the panel size and pixels-per-point held fixed, raising the
/// zoom level strictly lowers the reported scale and strictly raises the
/// clip-rectangle correction.
pub proof fn lemma_zoom_monotonic(
    panel_width: Ratio,
    panel_height: Ratio,
    ppp: Ratio,
    zoom_lo: Ratio,
    zoom_hi: Ratio,
)
    requires
        zoom_lo.wf(),
        zoom_lo.is_pos(),
        zoom_hi.wf(),
        zoom_hi.is_pos(),
        zoom_lo.lt(zoom_hi),
    ensures
        spec_compensate(panel_width, panel_height, ppp, zoom_hi).reported_scale.lt(
            spec_compensate(panel_width, panel_height, ppp, zoom_lo).reported_scale,
        ),
        spec_compensate(panel_width, panel_height, ppp, zoom_lo).clip_correction.lt(
            spec_compensate(panel_width, panel_height, ppp, zoom_hi).clip_correction,
        ),
{
    let s_lo = spec_compensate(panel_width, panel_height, ppp, zoom_lo).reported_scale;
    let s_hi = spec_compensate(panel_width, panel_height, ppp, zoom_hi).reported_scale;
    assert(s_hi.num * s_lo.den < s_lo.num * s_hi.den) by (nonlinear_arith)
        requires
            s_hi.num == zoom_hi.den,
            s_hi.den == zoom_hi.num,
            s_lo.num == zoom_lo.den,
            s_lo.den == zoom_lo.num,
            zoom_lo.num * zoom_hi.den < zoom_hi.num * zoom_lo.den;
}

} // verus!
