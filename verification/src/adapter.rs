//! The window adapter: one on-screen (or off-screen) surface, owning its
//! toolkit window state and exactly one renderer for as long as it lives.
//!
//! Every other holder — backend, bridge, input helper — keeps only a weak
//! reference to the adapter on the embedder's side; the adapter never holds
//! one back, so the ownership runs one way.  Host show/hide outcomes come in
//! as arguments and their rejections are returned, never swallowed.  Redraw
//! requests coalesce: any number of requests before the next repaint leaves
//! one pending flag, cleared when the embedder takes it.

use vstd::prelude::*;

use crate::renderer::Renderer;
use crate::PlatformError;

verus! {

/// The toolkit window state an adapter owns.
#[derive(Clone, Copy, PartialEq, Eq, Structural, Debug)]
pub struct WindowState {
    /// Whether the host surface is visible.
    pub visible: bool,
    /// Whether a repaint has been requested and not yet taken.
    pub redraw_pending: bool,
    /// Whether the animation engine reports running animations.
    pub active_animations: bool,
}

impl WindowState {
    /// A fresh window: hidden, nothing pending, nothing animating.
    pub fn new() -> (w: Self)
        ensures
            !w.visible,
            !w.redraw_pending,
            !w.active_animations,
    {
        WindowState { visible: false, redraw_pending: false, active_animations: false }
    }

    /// Whether the animation engine reports running animations.
    pub fn has_active_animations(&self) -> (r: bool)
        ensures
            r == self.active_animations,
    {
        self.active_animations
    }

    /// Records what the animation engine reports.
    pub fn set_active_animations(&mut self, running: bool)
        ensures
            final(self).active_animations == running,
            final(self).visible == old(self).visible,
            final(self).redraw_pending == old(self).redraw_pending,
    {
        self.active_animations = running;
    }
}

/// One surface: the owned window state and the owned renderer.
pub struct WindowAdapter {
    pub window: WindowState,
    pub renderer: Renderer,
}

impl WindowAdapter {
    /// An adapter over a fresh window, owning the given renderer.
    pub fn new(renderer: Renderer) -> (a: Self)
        ensures
            !a.window.visible,
            !a.window.redraw_pending,
            !a.window.active_animations,
            a.renderer == renderer,
    {
        WindowAdapter { window: WindowState::new(), renderer }
    }

    /// The owned toolkit window state; always succeeds, changes nothing.
    pub fn window(&self) -> (w: &WindowState)
        ensures
            *w == self.window,
    {
        &self.window
    }

    /// The bound renderer, stable for the adapter's lifetime.
    pub fn renderer(&self) -> (r: &Renderer)
        ensures
            r == &self.renderer,
    {
        &self.renderer
    }

    /// Asks the host to show the surface; a rejection is returned and leaves
    /// the window as it was.
    pub fn show(&mut self, host_ok: bool) -> (res: Result<(), PlatformError>)
        ensures
            host_ok ==> res == Ok::<(), PlatformError>(()) && final(self).window == (WindowState {
                visible: true,
                ..old(self).window
            }),
            !host_ok ==> res == Err::<(), PlatformError>(PlatformError::ShowRejected) && final(self).window == old(self).window,
            final(self).renderer == old(self).renderer,
    {
        if host_ok {
            self.window.visible = true;
            Ok(())
        } else {
            Err(PlatformError::ShowRejected)
        }
    }

    /// Asks the host to hide the surface; a rejection is returned and leaves
    /// the window as it was.
    pub fn hide_surface(&mut self, host_ok: bool) -> (res: Result<(), PlatformError>)
        ensures
            host_ok ==> res == Ok::<(), PlatformError>(()) && final(self).window == (WindowState {
                visible: false,
                ..old(self).window
            }),
            !host_ok ==> res == Err::<(), PlatformError>(PlatformError::HideRejected) && final(self).window == old(self).window,
            final(self).renderer == old(self).renderer,
    {
        if host_ok {
            self.window.visible = false;
            Ok(())
        } else {
            Err(PlatformError::HideRejected)
        }
    }

    /// Schedules a future repaint.  Does not block, safe to call from an
    /// event callback, and coalesces: however often it is called before the
    /// repaint, one request is pending.
    pub fn request_redraw(&mut self)
        ensures
            final(self).window == (WindowState { redraw_pending: true, ..old(self).window }),
            final(self).renderer == old(self).renderer,
    {
        self.window.redraw_pending = true;
    }

    /// Takes the pending repaint request, if any: reports whether one was
    /// pending and clears it, so coalesced requests repaint once.
    pub fn take_pending_redraw(&mut self) -> (was_pending: bool)
        ensures
            was_pending == old(self).window.redraw_pending,
            final(self).window == (WindowState { redraw_pending: false, ..old(self).window }),
            final(self).renderer == old(self).renderer,
    {
        let was = self.window.redraw_pending;
        self.window.redraw_pending = false;
        was
    }
}

} // verus!
