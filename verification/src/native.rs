//! The native-2D backend: a minimal reference backend over a host 2D API,
//! supported only on Win32 window handles.
//!
//! Its frame is scoped by an acquire/finalize pair: the host drawing context
//! is acquired, the drawing callback runs, and the frame is always
//! finalized — also when the callback reported an error — with a
//! finalization failure reported, not ignored ([`frame_outcome`]).  The
//! drawing itself walks the scene's item list through the drawing protocol
//! and yields the commands the host API must fill ([`render_scene`]).

use vstd::prelude::*;

use crate::draw::{
    command_wf, drawn_rect, initial_state, Brush, DrawCommand, ItemRenderer, RenderError,
    RenderState,
};
use crate::geometry::{rect_in_scene, rect_is_empty, Rect};
use crate::handle::RawHandlePair;
use crate::{PhysicalSize, PlatformError};

verus! {

/// One drawable item of the scene, its rectangle already offset to scene
/// coordinates by the toolkit core.
#[derive(Clone, Copy, PartialEq, Eq, Structural, Debug)]
pub struct SceneItem {
    pub rect: Rect,
    pub brush: Brush,
}

/// The reference backend can draw an item if its brush is a solid color, or
/// if nothing of it survives clipping anyway.
pub open spec fn item_renderable(st: RenderState, it: SceneItem) -> bool {
    it.brush is SolidColor || rect_is_empty(drawn_rect(st, it.rect))
}

/// The commands a walk of the scene emits under frame `st`: one per item
/// that survives clipping and carries a solid color.
pub open spec fn scene_commands(st: RenderState, items: Seq<SceneItem>) -> Seq<DrawCommand>
    decreases items.len(),
{
    if items.len() == 0 {
        Seq::<DrawCommand>::empty()
    } else {
        let rest = scene_commands(st, items.drop_last());
        let it = items.last();
        if rect_is_empty(drawn_rect(st, it.rect)) {
            rest
        } else {
            match it.brush {
                Brush::SolidColor(c) => rest.push(
                    DrawCommand { rect: drawn_rect(st, it.rect), color: c, opacity: st.opacity },
                ),
                _ => rest,
            }
        }
    }
}

/// Walks the scene's items, in order, through a fresh drawing protocol over
/// the surface.  Succeeds exactly when every item is renderable, yielding
/// the commands of [`scene_commands`]; the first unsupported brush that
/// would actually be drawn is reported instead.
pub fn render_scene(surface: Rect, items: &Vec<SceneItem>) -> (res: Result<
    Vec<DrawCommand>,
    RenderError,
>)
    requires
        rect_in_scene(surface),
        forall|i: int| 0 <= i < items@.len() ==> rect_in_scene(#[trigger] items@[i].rect),
    ensures
        (forall|i: int|
            0 <= i < items@.len() ==> item_renderable(
                initial_state(surface),
                #[trigger] items@[i],
            )) ==> (res matches Ok(cmds) && cmds@ == scene_commands(initial_state(surface), items@)
            && forall|k: int| 0 <= k < cmds@.len() ==> command_wf(#[trigger] cmds@[k])),
        !(forall|i: int|
            0 <= i < items@.len() ==> item_renderable(
                initial_state(surface),
                #[trigger] items@[i],
            )) ==> res == Err::<Vec<DrawCommand>, RenderError>(RenderError::UnsupportedPrimitive),
{
    let ghost st = initial_state(surface);
    let mut ir = ItemRenderer::new(surface);
    let n = items.len();
    let mut k: usize = 0;
    while k < n
        invariant
            n == items@.len(),
            0 <= k <= n,
            rect_in_scene(surface),
            forall|i: int| 0 <= i < items@.len() ==> rect_in_scene(#[trigger] items@[i].rect),
            st == initial_state(surface),
            ir.wf(),
            ir.cur == st,
            ir.stack@ == Seq::<RenderState>::empty(),
            ir.commands@ == scene_commands(st, items@.take(k as int)),
            forall|i: int| 0 <= i < k ==> item_renderable(st, #[trigger] items@[i]),
        decreases n - k,
    {
        let it = items[k];
        let step_result = ir.draw_rectangle(it.rect, it.brush);
        proof {
            assert(items@.take(k as int + 1).drop_last() =~= items@.take(k as int));
            assert(items@.take(k as int + 1).last() == items@[k as int]);
        }
        match step_result {
            Ok(()) => {},
            Err(e) => {
                proof {
                    assert(!item_renderable(st, items@[k as int]));
                }
                return Err(e);
            },
        }
        k = k + 1;
    }
    proof {
        assert(items@.take(n as int) =~= items@);
    }
    Ok(ir.commands)
}

/// The outcome of one frame scoped by acquire/finalize: the frame is always
/// finalized, whatever the drawing callback reported; a finalization
/// failure is reported to the caller and outranks the callback's own
/// result, which is handed through otherwise.
pub fn frame_outcome(draw_result: Result<(), RenderError>, finalize_ok: bool) -> (res: Result<
    Result<(), RenderError>,
    PlatformError,
>)
    ensures
        finalize_ok ==> res == Ok::<Result<(), RenderError>, PlatformError>(draw_result),
        !finalize_ok ==> res == Err::<Result<(), RenderError>, PlatformError>(
            PlatformError::RenderRejected,
        ),
{
    if finalize_ok {
        Ok(draw_result)
    } else {
        Err(PlatformError::RenderRejected)
    }
}

/// The native-2D renderer: its host render target's configuration.
pub struct NativeRenderer {
    /// The physical size the render target is configured for.
    pub size: PhysicalSize,
    /// Dots per inch of the target, in per-mille of the 96-dpi baseline.
    pub dpi_permille: u32,
}

impl NativeRenderer {
    /// Builds the backend's host factories and render target over a Win32
    /// window handle.  Any other handle variant is a programming-contract
    /// violation of the embedding, excluded here; a host refusal to create
    /// the factories or the target is reported as a platform error.
    pub fn new(handle: &RawHandlePair, factory_ok: bool, target_ok: bool) -> (res: Result<
        NativeRenderer,
        PlatformError,
    >)
        requires
            handle.window is Win32,
        ensures
            factory_ok && target_ok ==> (res matches Ok(r) && r.size == (PhysicalSize { width: 0, height: 0 }) && r.dpi_permille == 1000),
            !(factory_ok && target_ok) ==> res == Err::<NativeRenderer, PlatformError>(
                PlatformError::SurfaceCreation,
            ),
    {
        if factory_ok && target_ok {
            Ok(NativeRenderer { size: PhysicalSize { width: 0, height: 0 }, dpi_permille: 1000 })
        } else {
            Err(PlatformError::SurfaceCreation)
        }
    }

    /// Reconfigures the render target's size and scale; a host rejection
    /// leaves the old configuration standing.
    pub fn set_size(&mut self, size: PhysicalSize, dpi_permille: u32, host_ok: bool) -> (res:
        Result<(), PlatformError>)
        ensures
            host_ok ==> res == Ok::<(), PlatformError>(()) && final(self).size == size && final(self).dpi_permille == dpi_permille,
            !host_ok ==> res == Err::<(), PlatformError>(PlatformError::ResizeRejected) && *final(self) == *old(self),
    {
        if host_ok {
            self.size = size;
            self.dpi_permille = dpi_permille;
            Ok(())
        } else {
            Err(PlatformError::ResizeRejected)
        }
    }
}

} // verus!
