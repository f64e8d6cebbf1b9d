//! Platform-abstraction and rendering-backend core of a retained-mode UI
//! toolkit.
//!
//! The crate models how a toolkit obtains a window surface, binds to a host
//! windowing system, and rasterizes UI content through interchangeable
//! renderer backends:
//!
//! - [`geometry`]: integer rectangles and clip intersection;
//! - [`draw`]: the per-primitive drawing protocol with its stack of
//!   clip/transform/opacity frames;
//! - [`software`]: the software backend, writing RGB8 pixels into a
//!   caller-supplied buffer;
//! - [`gpu`]: the GPU-canvas backend bound to a raw window handle;
//! - [`native`]: the native-2D reference backend and its frame scoping;
//! - [`renderer`]: the renderer capability interface over the backends,
//!   with the text-measurement queries;
//! - [`handle`]: raw window/display handle variants;
//! - [`bridge`]: the foreign adapter bridge, through which a host language
//!   supplies a window adapter as an opaque context plus callbacks;
//! - [`registry`]: the process-wide platform registry, set once;
//! - [`adapter`]: the window adapter owning one renderer;
//! - [`input`]: the browser-embedded input helper that synthesizes key and
//!   composition events.
//!
//! Host-facing work (the actual windowing-system, GPU and DOM calls) is left
//! to an embedder: every function here is a synchronous decision from plain
//! values to plain values, so the whole protocol is stated in contracts and
//! verified.

use vstd::prelude::*;

pub mod adapter;
pub mod bridge;
pub mod draw;
pub mod geometry;
pub mod gpu;
pub mod handle;
pub mod input;
pub mod native;
pub mod registry;
pub mod renderer;
pub mod software;

verus! {

/// A physical size, in whole device pixels.
#[derive(Clone, Copy, PartialEq, Eq, Structural, Debug)]
pub struct PhysicalSize {
    pub width: u32,
    pub height: u32,
}

/// A host API rejected an operation.  Always returned to the caller, never
/// swallowed.
#[derive(Clone, Copy, PartialEq, Eq, Structural, Debug)]
pub enum PlatformError {
    /// The host refused to create or rebuild the rendering surface.
    SurfaceCreation,
    /// The host rejected a request to make the surface visible.
    ShowRejected,
    /// The host rejected a request to hide the surface.
    HideRejected,
    /// The host rejected a surface resize.
    ResizeRejected,
    /// The host rejected presenting a frame.
    RenderRejected,
}

} // verus!
