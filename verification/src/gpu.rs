//! The GPU-canvas backend: a renderer bound to a raw window/display handle
//! pair, owning the handle for the life of its surface.
//!
//! Every host-facing operation may be rejected by the host API; the outcome
//! of the host call comes in as an argument and the error is propagated to
//! the caller, never swallowed.  Rendering at a size the surface was not
//! configured for is a contract violation left to the caller to avoid: call
//! `resize` first.

use vstd::prelude::*;

use crate::handle::RawHandlePair;
use crate::{PhysicalSize, PlatformError};

verus! {

/// A GPU-canvas renderer bound to one host surface.
pub struct GpuRenderer {
    /// The raw handle pair the surface is bound to; owned until released.
    pub handle: RawHandlePair,
    /// The physical size the surface is configured for.
    pub size: PhysicalSize,
    /// Whether the host surface is currently shown.
    pub shown: bool,
}

impl GpuRenderer {
    /// Binds a renderer to the handle pair at an initial physical size,
    /// taking ownership of the handle for the surface's life.
    pub fn new(handle: RawHandlePair, size: PhysicalSize) -> (r: Self)
        ensures
            r.handle == handle,
            r.size == size,
            !r.shown,
    {
        GpuRenderer { handle, size, shown: false }
    }

    /// Asks the host to show the surface; a rejection leaves it hidden.
    pub fn show(&mut self, host_ok: bool) -> (res: Result<(), PlatformError>)
        ensures
            final(self).handle == old(self).handle,
            final(self).size == old(self).size,
            host_ok ==> res == Ok::<(), PlatformError>(()) && final(self).shown,
            !host_ok ==> res == Err::<(), PlatformError>(PlatformError::ShowRejected) && *final(self) == *old(self),
    {
        if host_ok {
            self.shown = true;
            Ok(())
        } else {
            Err(PlatformError::ShowRejected)
        }
    }

    /// Asks the host to hide the surface; a rejection leaves it shown.
    pub fn hide_surface(&mut self, host_ok: bool) -> (res: Result<(), PlatformError>)
        ensures
            final(self).handle == old(self).handle,
            final(self).size == old(self).size,
            host_ok ==> res == Ok::<(), PlatformError>(()) && !final(self).shown,
            !host_ok ==> res == Err::<(), PlatformError>(PlatformError::HideRejected) && *final(self) == *old(self),
    {
        if host_ok {
            self.shown = false;
            Ok(())
        } else {
            Err(PlatformError::HideRejected)
        }
    }

    /// Reconfigures the surface for a new physical size; a rejection leaves
    /// the old configuration standing.
    pub fn resize(&mut self, size: PhysicalSize, host_ok: bool) -> (res: Result<(), PlatformError>)
        ensures
            final(self).handle == old(self).handle,
            final(self).shown == old(self).shown,
            host_ok ==> res == Ok::<(), PlatformError>(()) && final(self).size == size,
            !host_ok ==> res == Err::<(), PlatformError>(PlatformError::ResizeRejected) && *final(self) == *old(self),
    {
        if host_ok {
            self.size = size;
            Ok(())
        } else {
            Err(PlatformError::ResizeRejected)
        }
    }

    /// Presents one frame at the given physical size.  The size must match
    /// the configured surface size — resizing without reconfiguration is a
    /// contract violation, excluded here.  A host rejection (a lost surface,
    /// a failed present) is returned to the caller.
    pub fn render(&self, size: PhysicalSize, host_ok: bool) -> (res: Result<(), PlatformError>)
        requires
            size == self.size,
        ensures
            host_ok ==> res == Ok::<(), PlatformError>(()),
            !host_ok ==> res == Err::<(), PlatformError>(PlatformError::RenderRejected),
    {
        if host_ok {
            Ok(())
        } else {
            Err(PlatformError::RenderRejected)
        }
    }

    /// Releases the renderer, handing the raw handle pair back to the
    /// embedder for explicit release.
    pub fn release(self) -> (h: RawHandlePair)
        ensures
            h == self.handle,
    {
        self.handle
    }
}

} // verus!
