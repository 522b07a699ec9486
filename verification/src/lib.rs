//! Frame-composition core for an interactive 3D authoring tool.
//!
//! The crate models the render orchestration and scale-compensation
//! subsystem: the state that owns renderer-issued resource handles, the
//! camera query, the per-frame graph of render passes, and the exact
//! arithmetic that keeps a zoomable nested UI panel pixel-sharp. All
//! quantities are exact rationals; the GPU binding that turns plans into
//! device work lives outside the library.

pub mod camera;
pub mod context;
pub mod graph;
pub mod inspector;
pub mod ratio;
pub mod registry;
pub mod scale;
