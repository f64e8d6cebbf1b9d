//! The renderer capability interface: one of the interchangeable backends,
//! plus the pure text-measurement queries layout and text editing ask of a
//! renderer.
//!
//! The reference backends measure text with a monospace metric: every
//! character advances by half the font size plus one, and a line is as tall
//! as the font size.  The queries are pure: they mutate nothing.

use vstd::prelude::*;
use vstd::string::StrSliceExecFns;

use crate::draw::{initial_state, RenderError};
use crate::geometry::{rect_in_scene, Rect};
use crate::gpu::GpuRenderer;
use crate::native::{item_renderable, render_scene, scene_commands, NativeRenderer, SceneItem};
use crate::software::{
    base_pixel, buf_pixel, pad_index, pixel_after, SoftwareRenderer, SURFACE_LIMIT,
};

verus! {

/// Texts longer than this are not measured, so widths fit in `u64`.
pub const TEXT_LEN_LIMIT: usize = 0x1000_0000;

/// Font sizes beyond this are not measured, so widths fit in `u64`.
pub const FONT_SIZE_LIMIT: u32 = 0x1000_0000;

/// The monospace metric's advance per character: half the font size, plus
/// one so it never vanishes.
pub open spec fn char_advance(font_size: u32) -> int {
    font_size / 2 + 1
}

/// The drawing capability bound to one window adapter: one of the
/// interchangeable backends.
pub enum Renderer {
    Software(SoftwareRenderer),
    Gpu(GpuRenderer),
    Native(NativeRenderer),
}

impl Renderer {
    /// Measures a text under the monospace metric: one line, as tall as the
    /// font, as wide as its characters advance, cut to `max_width` if one is
    /// given.
    pub fn text_size(&self, font_size: u32, text: &str, max_width: Option<u64>) -> (size: (
        u64,
        u64,
    ))
        requires
            text@.len() <= TEXT_LEN_LIMIT,
            font_size <= FONT_SIZE_LIMIT,
        ensures
            size.1 == font_size,
            size.0 == (match max_width {
                Some(m) => if text@.len() * char_advance(font_size) <= m {
                    text@.len() * char_advance(font_size)
                } else {
                    m as int
                },
                None => text@.len() * char_advance(font_size),
            }),
    {
        let len = text.unicode_len();
        let adv: u64 = (font_size / 2 + 1) as u64;
        proof {
            assert((len as int) * (adv as int) <= 0x1000_0000 * 0x800_0001) by (nonlinear_arith)
                requires
                    0 <= len <= 0x1000_0000,
                    0 <= adv <= 0x800_0001,
            ;
        }
        let raw: u64 = (len as u64) * adv;
        let w = match max_width {
            Some(m) => if raw <= m {
                raw
            } else {
                m
            },
            None => raw,
        };
        (w, font_size as u64)
    }

    /// The character offset a horizontal position falls at under the
    /// monospace metric, clamped to the text's end.
    pub fn text_input_byte_offset_for_position(&self, font_size: u32, x: u64, text: &str) -> (
        offset: usize)
        requires
            text@.len() <= TEXT_LEN_LIMIT,
            font_size <= FONT_SIZE_LIMIT,
        ensures
            offset == if x as int / char_advance(font_size) <= text@.len() {
                x as int / char_advance(font_size)
            } else {
                text@.len() as int
            },
    {
        let len = text.unicode_len();
        let adv: u64 = (font_size / 2 + 1) as u64;
        let q = x / adv;
        if q >= len as u64 {
            len
        } else {
            q as usize
        }
    }

    /// The cursor rectangle before the character at `offset` under the
    /// monospace metric: one pixel wide, one line tall.
    pub fn text_input_cursor_rect_for_byte_offset(
        &self,
        font_size: u32,
        offset: usize,
        text: &str,
    ) -> (r: Rect)
        requires
            offset <= text@.len(),
            text@.len() <= TEXT_LEN_LIMIT,
            font_size <= FONT_SIZE_LIMIT,
        ensures
            r.x == offset * char_advance(font_size),
            r.y == 0,
            r.w == 1,
            r.h == font_size,
    {
        let adv: u64 = (font_size / 2 + 1) as u64;
        proof {
            assert((offset as int) * (adv as int) <= 0x1000_0000 * 0x800_0001) by (nonlinear_arith)
                requires
                    0 <= offset <= 0x1000_0000,
                    0 <= adv <= 0x800_0001,
            ;
        }
        let x: u64 = (offset as u64) * adv;
        Rect { x: x as i64, y: 0, w: 1, h: font_size as i64 }
    }

    /// The font size used where none is requested.
    pub fn default_font_size(&self) -> (s: u32)
        ensures
            s == 12,
    {
        12
    }
}

/// One whole software frame: the scene's items walked through the drawing
/// protocol over the surface, and the surviving commands rasterized into the
/// caller's buffer.  Succeeds exactly when every item is renderable; the
/// first unsupported brush that would actually be drawn is reported instead,
/// with the buffer untouched.
pub fn render_software_frame(
    renderer: &SoftwareRenderer,
    surface: Rect,
    items: &Vec<SceneItem>,
    buffer: &mut Vec<u8>,
    pixel_stride: usize,
    width: usize,
    height: usize,
) -> (res: Result<(), RenderError>)
    requires
        rect_in_scene(surface),
        forall|i: int| 0 <= i < items@.len() ==> rect_in_scene(#[trigger] items@[i].rect),
        width <= pixel_stride <= SURFACE_LIMIT,
        height <= SURFACE_LIMIT,
        pixel_stride * height * 3 <= old(buffer)@.len(),
    ensures
        final(buffer)@.len() == old(buffer)@.len(),
        (forall|i: int|
            0 <= i < items@.len() ==> item_renderable(initial_state(surface), #[trigger] items@[i]))
            ==> res == Ok::<(), RenderError>(()) && (forall|p: int, q: int|
            0 <= p < width && 0 <= q < height ==> buf_pixel(
                final(buffer)@,
                pixel_stride as int,
                p,
                q,
            ) == pixel_after(
                scene_commands(initial_state(surface), items@),
                p,
                q,
                base_pixel(
                    renderer.repaint_buffer_type,
                    buf_pixel(old(buffer)@, pixel_stride as int, p, q),
                ),
            )) && (forall|q: int, j: int|
            0 <= q < height && width * 3 <= j < pixel_stride * 3 ==> final(buffer)@[pad_index(
                pixel_stride as int,
                q,
                j,
            )] == old(buffer)@[pad_index(pixel_stride as int, q, j)]),
        !(forall|i: int|
            0 <= i < items@.len() ==> item_renderable(initial_state(surface), #[trigger] items@[i]))
            ==> res == Err::<(), RenderError>(RenderError::UnsupportedPrimitive) && final(buffer)@
            == old(buffer)@,
{
    match render_scene(surface, items) {
        Ok(commands) => {
            renderer.render(&commands, buffer, pixel_stride, width, height);
            Ok(())
        },
        Err(e) => Err(e),
    }
}

/// The text queries invert each other: the position of the cursor rectangle
/// for an offset falls back onto that offset.
pub proof fn lemma_cursor_position_round_trip(font_size: u32, offset: int, len: int)
    requires
        0 <= offset <= len,
        len <= TEXT_LEN_LIMIT,
        font_size <= FONT_SIZE_LIMIT,
    ensures
        (offset * char_advance(font_size)) / char_advance(font_size) == offset,
{
    let adv = char_advance(font_size);
    assert((offset * adv) / adv == offset) by (nonlinear_arith)
        requires
            adv >= 1,
            offset >= 0,
    ;
}

} // verus!
