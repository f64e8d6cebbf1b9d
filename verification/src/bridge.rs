//! The foreign adapter bridge: a host language supplies a window adapter or
//! a platform as an opaque context plus a fixed set of callbacks, instead of
//! implementing the native interface.
//!
//! The bridge decides *which* callback the embedder must invoke and *when*;
//! the embedder performs the actual call through its function pointers.  The
//! record of requested invocations is kept in order, so the lifecycle
//! discipline is part of the contract: while an adapter is alive its record
//! holds no release, and destroying it appends the release exactly once —
//! destruction consumes the adapter, so nothing can follow.
//!
//! The renderer handle is a pair of opaque pointer words, type-erasing a
//! renderer reference.  The bridge performs no validity checking: the pair
//! must stay valid for the adapter's whole lifetime, and a dangling handle
//! is undefined behavior on the embedder's side, not a reported error.  The
//! bridge never copies the opaque context and hands it to every callback.

use vstd::prelude::*;

verus! {

/// The callbacks a window adapter's embedder provides.
#[derive(Clone, Copy, PartialEq, Eq, Structural, Debug)]
pub enum AdapterCallback {
    /// Free the host resources behind the context; invoked exactly once, at
    /// destruction.
    Release,
    /// Hand back the type-erased renderer reference.
    GetRendererRef,
    /// Make the host surface visible.
    Show,
    /// Make the host surface invisible.
    Hide,
    /// Schedule a repaint through the host event loop.
    RequestRedraw,
}

/// The callbacks a platform's embedder provides.
#[derive(Clone, Copy, PartialEq, Eq, Structural, Debug)]
pub enum PlatformCallback {
    /// Free the host resources behind the context; invoked exactly once, at
    /// destruction.
    Release,
    /// Produce one new window adapter; never reuses an instance.
    WindowFactory,
}

/// A type-erased renderer reference: two opaque pointer words, reconstructed
/// on the caller's behalf.  Must stay valid for the adapter's lifetime.
#[derive(Clone, Copy, PartialEq, Eq, Structural, Debug)]
pub struct RendererRef {
    pub data: u64,
    pub vtable: u64,
}

/// How many releases a callback record holds.
pub open spec fn release_count(calls: Seq<AdapterCallback>) -> int
    decreases calls.len(),
{
    if calls.len() == 0 {
        0
    } else {
        release_count(calls.drop_last()) + if calls.last() == AdapterCallback::Release {
            1int
        } else {
            0int
        }
    }
}

/// How many releases a platform's callback record holds.
pub open spec fn platform_release_count(calls: Seq<PlatformCallback>) -> int
    decreases calls.len(),
{
    if calls.len() == 0 {
        0
    } else {
        platform_release_count(calls.drop_last()) + if calls.last() == PlatformCallback::Release {
            1int
        } else {
            0int
        }
    }
}

/// A window adapter specified by an opaque host context and callbacks.
pub struct ForeignWindowAdapter {
    /// The opaque context word the embedder supplied; owned, never copied.
    pub context: u64,
    /// The type-erased renderer reference, fetched once at construction and
    /// stable for the adapter's lifetime.
    pub renderer_ref: RendererRef,
    /// The callback invocations the bridge has requested, in order.
    pub calls: Vec<AdapterCallback>,
}

impl ForeignWindowAdapter {
    /// While the adapter is alive, no release has been requested.
    pub open spec fn wf(self) -> bool {
        release_count(self.calls@) == 0
    }

    /// Bridges a host-supplied adapter around the embedder's context and the
    /// renderer reference its accessor callback hands back.
    pub fn new(context: u64, renderer_ref: RendererRef) -> (a: Self)
        ensures
            a.wf(),
            a.context == context,
            a.renderer_ref == renderer_ref,
            a.calls@ == Seq::<AdapterCallback>::empty(),
    {
        ForeignWindowAdapter { context, renderer_ref, calls: Vec::new() }
    }

    /// Requests the embedder's renderer accessor and hands back the
    /// type-erased reference, the same one for the adapter's whole lifetime.
    pub fn renderer(&mut self) -> (r: RendererRef)
        requires
            old(self).wf(),
        ensures
            final(self).wf(),
            r == old(self).renderer_ref,
            final(self).calls@ == old(self).calls@.push(AdapterCallback::GetRendererRef),
            final(self).context == old(self).context,
            final(self).renderer_ref == old(self).renderer_ref,
    {
        self.calls.push(AdapterCallback::GetRendererRef);
        proof {
            assert(self.calls@.drop_last() =~= old(self).calls@);
        }
        self.renderer_ref
    }

    /// Requests the embedder's show callback.
    pub fn show(&mut self)
        requires
            old(self).wf(),
        ensures
            final(self).wf(),
            final(self).calls@ == old(self).calls@.push(AdapterCallback::Show),
            final(self).context == old(self).context,
            final(self).renderer_ref == old(self).renderer_ref,
    {
        self.calls.push(AdapterCallback::Show);
        proof {
            assert(self.calls@.drop_last() =~= old(self).calls@);
        }
    }

    /// Requests the embedder's hide callback.
    pub fn hide_surface(&mut self)
        requires
            old(self).wf(),
        ensures
            final(self).wf(),
            final(self).calls@ == old(self).calls@.push(AdapterCallback::Hide),
            final(self).context == old(self).context,
            final(self).renderer_ref == old(self).renderer_ref,
    {
        self.calls.push(AdapterCallback::Hide);
        proof {
            assert(self.calls@.drop_last() =~= old(self).calls@);
        }
    }

    /// Requests the embedder's redraw callback.  Safe to request from within
    /// an event callback; requests before the actual redraw may coalesce on
    /// the host side.
    pub fn request_redraw(&mut self)
        requires
            old(self).wf(),
        ensures
            final(self).wf(),
            final(self).calls@ == old(self).calls@.push(AdapterCallback::RequestRedraw),
            final(self).context == old(self).context,
            final(self).renderer_ref == old(self).renderer_ref,
    {
        self.calls.push(AdapterCallback::RequestRedraw);
        proof {
            assert(self.calls@.drop_last() =~= old(self).calls@);
        }
    }

    /// Destroys the adapter: requests the release callback, exactly once.
    /// Consuming the adapter makes any later request impossible.
    pub fn destroy(self) -> (calls: Vec<AdapterCallback>)
        requires
            self.wf(),
        ensures
            calls@ == self.calls@.push(AdapterCallback::Release),
            release_count(calls@) == 1,
            calls@.last() == AdapterCallback::Release,
    {
        let mut calls = self.calls;
        calls.push(AdapterCallback::Release);
        proof {
            assert(calls@.drop_last() =~= self.calls@);
        }
        calls
    }
}

/// A platform specified by an opaque host context and callbacks.
pub struct ForeignPlatform {
    /// The opaque context word the embedder supplied; owned, never copied.
    pub context: u64,
    /// How many window adapters the factory has produced.
    pub windows_created: u64,
    /// The callback invocations the bridge has requested, in order.
    pub calls: Vec<PlatformCallback>,
}

impl ForeignPlatform {
    /// While the platform is alive, no release has been requested.
    pub open spec fn wf(self) -> bool {
        platform_release_count(self.calls@) == 0
    }

    /// Bridges a host-supplied platform.
    pub fn new(context: u64) -> (p: Self)
        ensures
            p.wf(),
            p.context == context,
            p.windows_created == 0,
            p.calls@ == Seq::<PlatformCallback>::empty(),
    {
        ForeignPlatform { context, windows_created: 0, calls: Vec::new() }
    }

    /// Requests one new window adapter from the embedder's factory.  Each
    /// call produces a distinct adapter, numbered by its serial: instances
    /// are never reused.
    pub fn create_window_adapter(&mut self) -> (serial: u64)
        requires
            old(self).wf(),
            old(self).windows_created < u64::MAX,
        ensures
            final(self).wf(),
            serial == old(self).windows_created,
            final(self).windows_created == old(self).windows_created + 1,
            final(self).calls@ == old(self).calls@.push(PlatformCallback::WindowFactory),
            final(self).context == old(self).context,
    {
        let serial = self.windows_created;
        self.windows_created = self.windows_created + 1;
        self.calls.push(PlatformCallback::WindowFactory);
        proof {
            assert(self.calls@.drop_last() =~= old(self).calls@);
        }
        serial
    }

    /// Destroys the platform: requests the release callback, exactly once.
    pub fn destroy(self) -> (calls: Vec<PlatformCallback>)
        requires
            self.wf(),
        ensures
            calls@ == self.calls@.push(PlatformCallback::Release),
            platform_release_count(calls@) == 1,
            calls@.last() == PlatformCallback::Release,
    {
        let mut calls = self.calls;
        calls.push(PlatformCallback::Release);
        proof {
            assert(calls@.drop_last() =~= self.calls@);
        }
        calls
    }
}

} // verus!
