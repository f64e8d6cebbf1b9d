//! The software backend: rasterizes recorded draw commands into a
//! caller-supplied buffer of RGB8 triples at a given row stride.
//!
//! The backend does not allocate: the embedder hands in the buffer, whose
//! length must cover `pixel_stride * height` pixels of three bytes each.
//! The repaint-buffer policy says what the backend may assume about the
//! buffer's prior contents: a fresh buffer is cleared first, a reused or
//! host-swapped buffer keeps its prior pixels as the base of this frame.
//! Pixels outside the `width x height` surface — row padding up to the
//! stride, and anything past the last row — are never written.

use vstd::prelude::*;

use crate::draw::{command_wf, DrawCommand};
use crate::geometry::rect_contains;

verus! {

/// Surfaces handled by the software backend stay within this many pixels in
/// each direction, so every byte index fits comfortably in `usize`.
pub const SURFACE_LIMIT: usize = 0x7fff;

/// What the backend may assume about the buffer it is asked to fill.
#[derive(Clone, Copy, PartialEq, Eq, Structural, Debug)]
pub enum RepaintBufferType {
    /// The buffer is freshly allocated: clear it before drawing.
    NewBuffer,
    /// The buffer still holds the previous frame drawn into it.
    ReusedBuffer,
    /// The host double-buffers and swaps, so the buffer holds the frame
    /// before the previous one.
    SwappedBuffers,
}

/// The software renderer: stateless but for its repaint-buffer policy.
pub struct SoftwareRenderer {
    pub repaint_buffer_type: RepaintBufferType,
}

/// The alpha actually composited for a command: its color's alpha scaled by
/// the per-mille opacity of the frame it was drawn under.
pub open spec fn effective_alpha(c: DrawCommand) -> int {
    (c.color.a * c.opacity) / 1000
}

/// Source-over compositing of one channel, with alpha `ea` out of 255.
pub open spec fn blend_channel(src: u8, dst: u8, ea: int) -> u8 {
    ((src * ea + dst * (255 - ea)) / 255) as u8
}

/// A command's color composited over a destination pixel.
pub open spec fn shade(c: DrawCommand, dst: (u8, u8, u8)) -> (u8, u8, u8) {
    let ea = effective_alpha(c);
    (blend_channel(c.color.r, dst.0, ea), blend_channel(c.color.g, dst.1, ea), blend_channel(
        c.color.b,
        dst.2,
        ea,
    ))
}

/// What one command leaves at a pixel: shaded if the command's rectangle
/// covers it, untouched otherwise.
pub open spec fn apply_command(c: DrawCommand, px: int, py: int, dst: (u8, u8, u8)) -> (
    u8,
    u8,
    u8,
) {
    if rect_contains(c.rect, px, py) {
        shade(c, dst)
    } else {
        dst
    }
}

/// What a sequence of commands, applied in order, leaves at a pixel that
/// started as `base`.
pub open spec fn pixel_after(cmds: Seq<DrawCommand>, px: int, py: int, base: (u8, u8, u8)) -> (
    u8,
    u8,
    u8,
)
    decreases cmds.len(),
{
    if cmds.len() == 0 {
        base
    } else {
        apply_command(cmds.last(), px, py, pixel_after(cmds.drop_last(), px, py, base))
    }
}

/// The pixel a frame starts from under the given policy: black for a fresh
/// buffer, the prior contents otherwise.
pub open spec fn base_pixel(policy: RepaintBufferType, prior: (u8, u8, u8)) -> (u8, u8, u8) {
    match policy {
        RepaintBufferType::NewBuffer => (0u8, 0u8, 0u8),
        _ => prior,
    }
}

/// The byte index of offset `j` within row `q` of a buffer with the given
/// pixel stride; offsets at `width * 3` and beyond are the row's padding.
pub open spec fn pad_index(stride: int, q: int, j: int) -> int {
    q * (stride * 3) + j
}

/// The RGB triple stored for pixel `(px, py)` in a buffer with the given
/// pixel stride.
pub open spec fn buf_pixel(bytes: Seq<u8>, stride: int, px: int, py: int) -> (u8, u8, u8) {
    (bytes[(py * stride + px) * 3], bytes[(py * stride + px) * 3 + 1], bytes[(py * stride + px) * 3
        + 2])
}

/// Applying one more command steps the per-pixel fold.
pub proof fn lemma_pixel_after_step(
    cmds: Seq<DrawCommand>,
    k: int,
    px: int,
    py: int,
    base: (u8, u8, u8),
)
    requires
        0 <= k < cmds.len(),
    ensures
        pixel_after(cmds.take(k + 1), px, py, base) == apply_command(
            cmds[k],
            px,
            py,
            pixel_after(cmds.take(k), px, py, base),
        ),
{
    assert(cmds.take(k + 1).drop_last() =~= cmds.take(k));
    assert(cmds.take(k + 1).last() == cmds[k]);
}

/// A fully opaque command covering a pixel decides it alone: whatever was
/// painted before, the pixel ends as the command's color.
pub proof fn lemma_opaque_covering_command(
    cmds: Seq<DrawCommand>,
    px: int,
    py: int,
    base: (u8, u8, u8),
)
    requires
        cmds.len() > 0,
        rect_contains(cmds.last().rect, px, py),
        cmds.last().color.a == 255,
        cmds.last().opacity == 1000,
    ensures
        pixel_after(cmds, px, py, base) == (
            cmds.last().color.r,
            cmds.last().color.g,
            cmds.last().color.b,
        ),
{
    let c = cmds.last();
    assert(effective_alpha(c) == 255);
    let dst = pixel_after(cmds.drop_last(), px, py, base);
    assert forall|src: u8, d: u8| blend_channel(src, d, 255) == src by {
        assert((src * 255 + d * (255 - 255)) / 255 == src) by (nonlinear_arith);
    }
}

/// Rows are laid out one after the other: a row's bytes sit between the row
/// starts of its neighbours.
proof fn lemma_row_order(stride: int, r1: int, r2: int)
    requires
        0 <= r1 < r2,
        0 <= stride,
    ensures
        r1 * (stride * 3) + stride * 3 <= r2 * (stride * 3),
{
    assert((r1 + 1) * (stride * 3) == r1 * (stride * 3) + stride * 3) by (nonlinear_arith);
    assert((r1 + 1) * (stride * 3) <= r2 * (stride * 3)) by (nonlinear_arith)
        requires
            r1 + 1 <= r2,
            0 <= stride,
    ;
}

/// A pixel's first byte is its row's start plus three bytes per column.
proof fn lemma_pixel_byte(stride: int, px: int, py: int)
    ensures
        (py * stride + px) * 3 == py * (stride * 3) + px * 3,
{
    assert((py * stride + px) * 3 == py * (stride * 3) + px * 3) by (nonlinear_arith);
}

/// Row-major pixel indices stay inside the surface's byte range, and fit
/// well within `usize`.
proof fn lemma_pixel_index(stride: int, width: int, height: int, px: int, py: int)
    requires
        0 <= px < width <= stride,
        0 <= py < height,
        stride <= 0x7fff,
        height <= 0x7fff,
    ensures
        0 <= (py * stride + px) * 3,
        (py * stride + px) * 3 + 2 < stride * height * 3,
        (py * stride + px) < 0x4000_0000,
{
    assert(0 <= py * stride && py * stride <= (height - 1) * stride) by (nonlinear_arith)
        requires
            0 <= py <= height - 1,
            0 <= stride,
    ;
    assert((height - 1) * stride == height * stride - stride) by (nonlinear_arith);
    assert(py * stride + px < height * stride);
    assert(stride * height * 3 == (height * stride) * 3) by (nonlinear_arith);
    assert(height * stride <= 0x7fff * 0x7fff) by (nonlinear_arith)
        requires
            0 <= height <= 0x7fff,
            0 <= stride <= 0x7fff,
    ;
}

/// Distinct pixels of one surface have distinct row-major indices.
proof fn lemma_pixel_distinct(stride: int, width: int, px1: int, py1: int, px2: int, py2: int)
    requires
        0 <= px1 < width <= stride,
        0 <= px2 < width,
        0 <= py1,
        0 <= py2,
        !(px1 == px2 && py1 == py2),
    ensures
        py1 * stride + px1 != py2 * stride + px2,
{
    if py1 == py2 {
    } else if py1 < py2 {
        assert((py1 + 1) * stride == py1 * stride + stride) by (nonlinear_arith);
        assert((py1 + 1) * stride <= py2 * stride) by (nonlinear_arith)
            requires
                py1 + 1 <= py2,
                0 <= stride,
        ;
    } else {
        assert((py2 + 1) * stride == py2 * stride + stride) by (nonlinear_arith);
        assert((py2 + 1) * stride <= py1 * stride) by (nonlinear_arith)
            requires
                py2 + 1 <= py1,
                0 <= stride,
        ;
    }
}

/// A surface pixel's bytes never land in a row's padding area.
proof fn lemma_pixel_not_padding(
    stride: int,
    width: int,
    px: int,
    py: int,
    q: int,
    j: int,
    c: int,
)
    requires
        0 <= px < width <= stride,
        0 <= py,
        0 <= q,
        width * 3 <= j < stride * 3,
        0 <= c < 3,
    ensures
        (py * stride + px) * 3 + c != pad_index(stride, q, j),
{
    lemma_pixel_byte(stride, px, py);
    assert(0 <= px * 3 && px * 3 + c < width * 3) by (nonlinear_arith)
        requires
            0 <= px <= width - 1,
            0 <= c < 3,
    ;
    if q == py {
    } else if py < q {
        lemma_row_order(stride, py, q);
    } else {
        lemma_row_order(stride, q, py);
    }
}

/// Padding bytes lie inside the surface's byte range.
proof fn lemma_pad_in_range(stride: int, height: int, q: int, j: int)
    requires
        0 <= q < height,
        0 <= j < stride * 3,
    ensures
        0 <= pad_index(stride, q, j) < stride * height * 3,
{
    assert(0 <= q * (stride * 3) && q * (stride * 3) <= (height - 1) * (stride * 3))
        by (nonlinear_arith)
        requires
            0 <= q <= height - 1,
            0 <= stride,
    ;
    assert((height - 1) * (stride * 3) == height * (stride * 3) - stride * 3) by (nonlinear_arith);
    assert(height * (stride * 3) == stride * height * 3) by (nonlinear_arith);
}

/// Stores one RGB triple at byte offset `idx`, touching nothing else.
fn store_pixel(buffer: &mut Vec<u8>, idx: usize, p: (u8, u8, u8))
    requires
        idx + 2 < old(buffer)@.len(),
    ensures
        final(buffer)@.len() == old(buffer)@.len(),
        final(buffer)@[idx as int] == p.0,
        final(buffer)@[idx as int + 1] == p.1,
        final(buffer)@[idx as int + 2] == p.2,
        forall|j: int|
            0 <= j < old(buffer)@.len() && j != idx && j != idx + 1 && j != idx + 2 ==> final(buffer)@[j] == old(buffer)@[j],
{
    let n = buffer.len();
    assert(idx + 2 < n);
    buffer[idx] = p.0;
    buffer[idx + 1] = p.1;
    buffer[idx + 2] = p.2;
}

/// Source-over compositing of one channel, with alpha `ea` out of 255.
fn blend_channel_exec(src: u8, dst: u8, ea: u32) -> (r: u8)
    requires
        ea <= 255,
    ensures
        r == blend_channel(src, dst, ea as int),
{
    proof {
        let s = src as int;
        let d = dst as int;
        let e = ea as int;
        assert(s * e <= 255 * 255 && d * (255 - e) <= 255 * 255) by (nonlinear_arith)
            requires
                0 <= s <= 255,
                0 <= d <= 255,
                0 <= e <= 255,
        ;
    }
    (((src as u32) * ea + (dst as u32) * (255 - ea)) / 255) as u8
}

impl SoftwareRenderer {
    /// A software renderer with the given repaint-buffer policy.
    pub fn new(repaint_buffer_type: RepaintBufferType) -> (r: Self)
        ensures
            r.repaint_buffer_type == repaint_buffer_type,
    {
        SoftwareRenderer { repaint_buffer_type }
    }

    /// The policy, numbered as the foreign construction protocol passes it:
    /// 0 for a fresh buffer, 1 for a reused one, 2 for host-swapped buffers.
    /// Any other number is a programming-contract violation, excluded here.
    pub fn from_buffer_age(buffer_age: u32) -> (r: Self)
        requires
            buffer_age <= 2,
        ensures
            buffer_age == 0 ==> r.repaint_buffer_type == RepaintBufferType::NewBuffer,
            buffer_age == 1 ==> r.repaint_buffer_type == RepaintBufferType::ReusedBuffer,
            buffer_age == 2 ==> r.repaint_buffer_type == RepaintBufferType::SwappedBuffers,
    {
        let repaint_buffer_type = if buffer_age == 0 {
            RepaintBufferType::NewBuffer
        } else if buffer_age == 1 {
            RepaintBufferType::ReusedBuffer
        } else {
            RepaintBufferType::SwappedBuffers
        };
        SoftwareRenderer { repaint_buffer_type }
    }

    /// Rasterizes the commands, in order, into the caller's buffer: after the
    /// call every surface pixel holds the per-pixel fold of the commands over
    /// the policy's base, and no byte outside the surface has changed.
    pub fn render(
        &self,
        commands: &Vec<DrawCommand>,
        buffer: &mut Vec<u8>,
        pixel_stride: usize,
        width: usize,
        height: usize,
    )
        requires
            width <= pixel_stride <= SURFACE_LIMIT,
            height <= SURFACE_LIMIT,
            pixel_stride * height * 3 <= old(buffer)@.len(),
            forall|k: int| 0 <= k < commands@.len() ==> command_wf(#[trigger] commands@[k]),
        ensures
            final(buffer)@.len() == old(buffer)@.len(),
            forall|p: int, q: int|
                0 <= p < width && 0 <= q < height ==> buf_pixel(
                    final(buffer)@,
                    pixel_stride as int,
                    p,
                    q,
                ) == pixel_after(
                    commands@,
                    p,
                    q,
                    base_pixel(
                        self.repaint_buffer_type,
                        buf_pixel(old(buffer)@, pixel_stride as int, p, q),
                    ),
                ),
            forall|q: int, j: int|
                0 <= q < height && width * 3 <= j < pixel_stride * 3 ==> final(buffer)@[pad_index(pixel_stride as int, q, j)] == old(buffer)@[pad_index(pixel_stride as int, q, j)],
            forall|j: int|
                pixel_stride * height * 3 <= j < old(buffer)@.len() ==> final(buffer)@[j] == old(buffer)@[j],
    {
        let ghost orig = buffer@;
        let ghost s = pixel_stride as int;
        match self.repaint_buffer_type {
            RepaintBufferType::NewBuffer => {
                clear_surface(buffer, pixel_stride, width, height);
            },
            _ => {},
        }
        proof {
            assert forall|p: int, q: int| 0 <= p < width && 0 <= q < height implies buf_pixel(
                buffer@,
                s,
                p,
                q,
            ) == pixel_after(
                commands@.take(0),
                p,
                q,
                base_pixel(self.repaint_buffer_type, buf_pixel(orig, s, p, q)),
            ) by {
                assert(commands@.take(0).len() == 0);
            }
        }
        let n = commands.len();
        let mut k: usize = 0;
        while k < n
            invariant
                n == commands@.len(),
                0 <= k <= n,
                width <= pixel_stride <= SURFACE_LIMIT,
                height <= SURFACE_LIMIT,
                s == pixel_stride as int,
                pixel_stride * height * 3 <= orig.len(),
                forall|i: int| 0 <= i < commands@.len() ==> command_wf(#[trigger] commands@[i]),
                buffer@.len() == orig.len(),
                forall|p: int, q: int|
                    0 <= p < width && 0 <= q < height ==> buf_pixel(buffer@, s, p, q)
                        == pixel_after(
                        commands@.take(k as int),
                        p,
                        q,
                        base_pixel(self.repaint_buffer_type, buf_pixel(orig, s, p, q)),
                    ),
                forall|q: int, j: int|
                    0 <= q < height && width * 3 <= j < pixel_stride * 3 ==> buffer@[pad_index(pixel_stride as int, q, j)] == orig[pad_index(pixel_stride as int, q, j)],
                forall|j: int|
                    pixel_stride * height * 3 <= j < orig.len() ==> buffer@[j] == orig[j],
            decreases n - k,
        {
            let cmd = commands[k];
            apply_one(buffer, &cmd, pixel_stride, width, height);
            proof {
                assert forall|p: int, q: int| 0 <= p < width && 0 <= q < height implies buf_pixel(
                    buffer@,
                    s,
                    p,
                    q,
                ) == pixel_after(
                    commands@.take(k as int + 1),
                    p,
                    q,
                    base_pixel(self.repaint_buffer_type, buf_pixel(orig, s, p, q)),
                ) by {
                    lemma_pixel_after_step(
                        commands@,
                        k as int,
                        p,
                        q,
                        base_pixel(self.repaint_buffer_type, buf_pixel(orig, s, p, q)),
                    );
                }
            }
            k = k + 1;
        }
        proof {
            assert(commands@.take(n as int) =~= commands@);
        }
    }
}

/// Clears every surface pixel to black, touching nothing else.
fn clear_surface(buffer: &mut Vec<u8>, pixel_stride: usize, width: usize, height: usize)
    requires
        width <= pixel_stride <= SURFACE_LIMIT,
        height <= SURFACE_LIMIT,
        pixel_stride * height * 3 <= old(buffer)@.len(),
    ensures
        final(buffer)@.len() == old(buffer)@.len(),
        forall|p: int, q: int|
            0 <= p < width && 0 <= q < height ==> buf_pixel(
                final(buffer)@,
                pixel_stride as int,
                p,
                q,
            ) == (0u8, 0u8, 0u8),
        forall|q: int, j: int|
            0 <= q < height && width * 3 <= j < pixel_stride * 3 ==> final(buffer)@[pad_index(pixel_stride as int, q, j)] == old(buffer)@[pad_index(pixel_stride as int, q, j)],
        forall|j: int|
            pixel_stride * height * 3 <= j < old(buffer)@.len() ==> final(buffer)@[j] == old(buffer)@[j],
{
    let ghost orig = buffer@;
    let ghost s = pixel_stride as int;
    let mut py: usize = 0;
    while py < height
        invariant
            0 <= py <= height,
            width <= pixel_stride <= SURFACE_LIMIT,
            height <= SURFACE_LIMIT,
            s == pixel_stride as int,
            pixel_stride * height * 3 <= orig.len(),
            buffer@.len() == orig.len(),
            forall|p: int, q: int|
                0 <= p < width && 0 <= q < height ==> buf_pixel(buffer@, s, p, q) == (if q < py {
                    (0u8, 0u8, 0u8)
                } else {
                    buf_pixel(orig, s, p, q)
                }),
            forall|q: int, j: int|
                0 <= q < height && width * 3 <= j < pixel_stride * 3 ==> buffer@[pad_index(pixel_stride as int, q, j)] == orig[pad_index(pixel_stride as int, q, j)],
            forall|j: int| pixel_stride * height * 3 <= j < orig.len() ==> buffer@[j] == orig[j],
        decreases height - py,
    {
        let mut px: usize = 0;
        while px < width
            invariant
                0 <= px <= width,
                0 <= py < height,
                width <= pixel_stride <= SURFACE_LIMIT,
                height <= SURFACE_LIMIT,
                s == pixel_stride as int,
                pixel_stride * height * 3 <= orig.len(),
                buffer@.len() == orig.len(),
                forall|p: int, q: int|
                    0 <= p < width && 0 <= q < height ==> buf_pixel(buffer@, s, p, q) == (if q < py
                        || (q == py && p < px) {
                        (0u8, 0u8, 0u8)
                    } else {
                        buf_pixel(orig, s, p, q)
                    }),
                forall|q: int, j: int|
                    0 <= q < height && width * 3 <= j < pixel_stride * 3 ==> buffer@[pad_index(pixel_stride as int, q, j)] == orig[pad_index(pixel_stride as int, q, j)],
                forall|j: int|
                    pixel_stride * height * 3 <= j < orig.len() ==> buffer@[j] == orig[j],
            decreases width - px,
        {
            proof {
                lemma_pixel_index(s, width as int, height as int, px as int, py as int);
            }
            let ghost before = buffer@;
            let idx = (py * pixel_stride + px) * 3;
            store_pixel(buffer, idx, (0u8, 0u8, 0u8));
            proof {
                let ghost ni = (py as int) * s + px as int;
                assert forall|p: int, q: int| 0 <= p < width && 0 <= q < height implies buf_pixel(
                    buffer@,
                    s,
                    p,
                    q,
                ) == (if q < py || (q == py && p < px + 1) {
                    (0u8, 0u8, 0u8)
                } else {
                    buf_pixel(orig, s, p, q)
                }) by {
                    if p == px && q == py {
                        assert(idx as int == (q * s + p) * 3);
                        assert(buf_pixel(buffer@, s, p, q) == (0u8, 0u8, 0u8));
                    } else {
                        lemma_pixel_index(s, width as int, height as int, p, q);
                        lemma_pixel_distinct(s, width as int, px as int, py as int, p, q);
                        assert(buffer@[(q * s + p) * 3] == before[(q * s + p) * 3]);
                        assert(buffer@[(q * s + p) * 3 + 1] == before[(q * s + p) * 3 + 1]);
                        assert(buffer@[(q * s + p) * 3 + 2] == before[(q * s + p) * 3 + 2]);
                        assert(buf_pixel(buffer@, s, p, q) == buf_pixel(before, s, p, q));
                    }
                }
                assert forall|q: int, j: int|
                    0 <= q < height && width * 3 <= j < pixel_stride * 3 implies buffer@[pad_index(pixel_stride as int, q, j)] == orig[pad_index(pixel_stride as int, q, j)] by {
                    lemma_pad_in_range(s, height as int, q, j);
                    lemma_pixel_not_padding(s, width as int, px as int, py as int, q, j, 0);
                    lemma_pixel_not_padding(s, width as int, px as int, py as int, q, j, 1);
                    lemma_pixel_not_padding(s, width as int, px as int, py as int, q, j, 2);
                    assert(buffer@[pad_index(s, q, j)] == before[pad_index(s, q, j)]);
                }
            }
            px = px + 1;
        }
        py = py + 1;
    }
}

/// Composites one command over the surface, touching nothing else.
fn apply_one(buffer: &mut Vec<u8>, cmd: &DrawCommand, pixel_stride: usize, width: usize, height: usize)
    requires
        command_wf(*cmd),
        width <= pixel_stride <= SURFACE_LIMIT,
        height <= SURFACE_LIMIT,
        pixel_stride * height * 3 <= old(buffer)@.len(),
    ensures
        final(buffer)@.len() == old(buffer)@.len(),
        forall|p: int, q: int|
            0 <= p < width && 0 <= q < height ==> buf_pixel(
                final(buffer)@,
                pixel_stride as int,
                p,
                q,
            ) == apply_command(*cmd, p, q, buf_pixel(old(buffer)@, pixel_stride as int, p, q)),
        forall|q: int, j: int|
            0 <= q < height && width * 3 <= j < pixel_stride * 3 ==> final(buffer)@[pad_index(pixel_stride as int, q, j)] == old(buffer)@[pad_index(pixel_stride as int, q, j)],
        forall|j: int|
            pixel_stride * height * 3 <= j < old(buffer)@.len() ==> final(buffer)@[j] == old(buffer)@[j],
{
    let ghost orig = buffer@;
    let ghost s = pixel_stride as int;
    let x0: usize = if cmd.rect.x <= 0 {
        0
    } else if cmd.rect.x >= width as i64 {
        width
    } else {
        cmd.rect.x as usize
    };
    let xe: i64 = cmd.rect.x + cmd.rect.w;
    let x1: usize = if xe <= 0 {
        0
    } else if xe >= width as i64 {
        width
    } else {
        xe as usize
    };
    let y0: usize = if cmd.rect.y <= 0 {
        0
    } else if cmd.rect.y >= height as i64 {
        height
    } else {
        cmd.rect.y as usize
    };
    let ye: i64 = cmd.rect.y + cmd.rect.h;
    let y1: usize = if ye <= 0 {
        0
    } else if ye >= height as i64 {
        height
    } else {
        ye as usize
    };
    let x0 = if x0 <= x1 {
        x0
    } else {
        x1
    };
    let y0 = if y0 <= y1 {
        y0
    } else {
        y1
    };
    proof {
        assert forall|p: int, q: int| 0 <= p < width && 0 <= q < height implies rect_contains(
            cmd.rect,
            p,
            q,
        ) == (x0 <= p < x1 && y0 <= q < y1) by {}
    }
    proof {
        let a = cmd.color.a as int;
        let o = cmd.opacity as int;
        assert(a * o <= 255 * 1000) by (nonlinear_arith)
            requires
                0 <= a <= 255,
                0 <= o <= 1000,
        ;
        assert((a * o) / 1000 <= 255);
    }
    let ea: u32 = ((cmd.color.a as u32) * cmd.opacity) / 1000;
    let mut py: usize = y0;
    while py < y1
        invariant
            y0 <= py <= y1,
            0 <= x0 <= x1 <= width,
            0 <= y0 <= y1 <= height,
            width <= pixel_stride <= SURFACE_LIMIT,
            height <= SURFACE_LIMIT,
            s == pixel_stride as int,
            pixel_stride * height * 3 <= orig.len(),
            buffer@.len() == orig.len(),
            command_wf(*cmd),
            ea as int == effective_alpha(*cmd),
            ea <= 255,
            forall|p: int, q: int|
                0 <= p < width && 0 <= q < height ==> rect_contains(cmd.rect, p, q) == (x0 <= p
                    < x1 && y0 <= q < y1),
            forall|p: int, q: int|
                0 <= p < width && 0 <= q < height ==> buf_pixel(buffer@, s, p, q) == (if x0 <= p
                    < x1 && y0 <= q < py {
                    shade(*cmd, buf_pixel(orig, s, p, q))
                } else {
                    buf_pixel(orig, s, p, q)
                }),
            forall|q: int, j: int|
                0 <= q < height && width * 3 <= j < pixel_stride * 3 ==> buffer@[pad_index(pixel_stride as int, q, j)] == orig[pad_index(pixel_stride as int, q, j)],
            forall|j: int| pixel_stride * height * 3 <= j < orig.len() ==> buffer@[j] == orig[j],
        decreases y1 - py,
    {
        let mut px: usize = x0;
        while px < x1
            invariant
                x0 <= px <= x1,
                y0 <= py < y1,
                0 <= x0 <= x1 <= width,
                0 <= y0 <= y1 <= height,
                width <= pixel_stride <= SURFACE_LIMIT,
                height <= SURFACE_LIMIT,
                s == pixel_stride as int,
                pixel_stride * height * 3 <= orig.len(),
                buffer@.len() == orig.len(),
                command_wf(*cmd),
                ea as int == effective_alpha(*cmd),
                ea <= 255,
                forall|p: int, q: int|
                    0 <= p < width && 0 <= q < height ==> rect_contains(cmd.rect, p, q) == (x0 <= p
                        < x1 && y0 <= q < y1),
                forall|p: int, q: int|
                    0 <= p < width && 0 <= q < height ==> buf_pixel(buffer@, s, p, q) == (if (x0
                        <= p < x1 && y0 <= q < py) || (q == py && x0 <= p < px) {
                        shade(*cmd, buf_pixel(orig, s, p, q))
                    } else {
                        buf_pixel(orig, s, p, q)
                    }),
                forall|q: int, j: int|
                    0 <= q < height && width * 3 <= j < pixel_stride * 3 ==> buffer@[pad_index(pixel_stride as int, q, j)] == orig[pad_index(pixel_stride as int, q, j)],
                forall|j: int|
                    pixel_stride * height * 3 <= j < orig.len() ==> buffer@[j] == orig[j],
            decreases x1 - px,
        {
            proof {
                lemma_pixel_index(s, width as int, height as int, px as int, py as int);
            }
            let ghost before = buffer@;
            let idx = (py * pixel_stride + px) * 3;
            let d0 = buffer[idx];
            let d1 = buffer[idx + 1];
            let d2 = buffer[idx + 2];
            let b0 = blend_channel_exec(cmd.color.r, d0, ea);
            let b1 = blend_channel_exec(cmd.color.g, d1, ea);
            let b2 = blend_channel_exec(cmd.color.b, d2, ea);
            store_pixel(buffer, idx, (b0, b1, b2));
            proof {
                assert forall|p: int, q: int| 0 <= p < width && 0 <= q < height implies buf_pixel(
                    buffer@,
                    s,
                    p,
                    q,
                ) == (if (x0 <= p < x1 && y0 <= q < py) || (q == py && x0 <= p < px + 1) {
                    shade(*cmd, buf_pixel(orig, s, p, q))
                } else {
                    buf_pixel(orig, s, p, q)
                }) by {
                    if p == px && q == py {
                        assert(idx as int == (q * s + p) * 3);
                        assert(buf_pixel(before, s, p, q) == (d0, d1, d2));
                        assert(buf_pixel(before, s, p, q) == buf_pixel(orig, s, p, q));
                        assert(buf_pixel(buffer@, s, p, q) == (b0, b1, b2));
                    } else {
                        lemma_pixel_index(s, width as int, height as int, p, q);
                        lemma_pixel_distinct(s, width as int, px as int, py as int, p, q);
                        assert(buffer@[(q * s + p) * 3] == before[(q * s + p) * 3]);
                        assert(buffer@[(q * s + p) * 3 + 1] == before[(q * s + p) * 3 + 1]);
                        assert(buffer@[(q * s + p) * 3 + 2] == before[(q * s + p) * 3 + 2]);
                        assert(buf_pixel(buffer@, s, p, q) == buf_pixel(before, s, p, q));
                    }
                }
                assert forall|q: int, j: int|
                    0 <= q < height && width * 3 <= j < pixel_stride * 3 implies buffer@[pad_index(pixel_stride as int, q, j)] == orig[pad_index(pixel_stride as int, q, j)] by {
                    lemma_pad_in_range(s, height as int, q, j);
                    lemma_pixel_not_padding(s, width as int, px as int, py as int, q, j, 0);
                    lemma_pixel_not_padding(s, width as int, px as int, py as int, q, j, 1);
                    lemma_pixel_not_padding(s, width as int, px as int, py as int, q, j, 2);
                    assert(buffer@[pad_index(s, q, j)] == before[pad_index(s, q, j)]);
                }
            }
            px = px + 1;
        }
        py = py + 1;
    }
    proof {
        assert forall|p: int, q: int| 0 <= p < width && 0 <= q < height implies buf_pixel(
            buffer@,
            s,
            p,
            q,
        ) == apply_command(*cmd, p, q, buf_pixel(orig, s, p, q)) by {}
    }
}

} // verus!
