//! The per-primitive drawing protocol and its clip/transform/opacity stack.
//!
//! An [`ItemRenderer`] records the drawing state a backend consumes:
//! `save_state` pushes the current {clip, transform, opacity} frame,
//! `restore_state` pops it, `combine_clip` intersects the clip with a scene
//! rectangle and reports whether anything is left, and `translate`, `rotate`
//! and `apply_opacity` compose into the current frame.  Drawing a primitive
//! under the current state appends a [`DrawCommand`] in device coordinates,
//! already clipped; a primitive whose clipped extent is empty appends
//! nothing.  Popping with an empty stack is a programming-contract violation
//! and is excluded by precondition.
//!
//! The spec-level machine ([`step`], [`run`]) gives the protocol's semantics
//! over sequences of state operations; [`lemma_balanced_save_restore`] and
//! [`lemma_save_restore_bracket`] state the stack discipline's laws.

use vstd::prelude::*;

use crate::geometry::{
    intersect, is_empty, rect_contains, rect_in_scene, rect_is_empty, rect_wf, rects_disjoint,
    lemma_intersect, lemma_translate_wf, spec_intersect, spec_translate, Rect, SCENE_LIMIT,
};

verus! {

/// Fully opaque, in the per-mille opacity scale the protocol uses.
pub const OPAQUE: u32 = 1000;

/// An RGBA color; `a == 255` is fully opaque.
#[derive(Clone, Copy, PartialEq, Eq, Structural, Debug)]
pub struct Color {
    pub r: u8,
    pub g: u8,
    pub b: u8,
    pub a: u8,
}

/// The brush a primitive is filled with.  Gradient brushes are part of the
/// protocol but the reference backend leaves them unsupported.
#[derive(Clone, Copy, PartialEq, Eq, Structural, Debug)]
pub enum Brush {
    SolidColor(Color),
    LinearGradient(Color, Color),
    RadialGradient(Color, Color),
}

/// Why a drawing call did no work.  Distinct from a platform error: an
/// unsupported primitive is acceptable in a reference backend and must be
/// eliminated in a production one.
#[derive(Clone, Copy, PartialEq, Eq, Structural, Debug)]
pub enum RenderError {
    UnsupportedPrimitive,
}

/// One {clip, transform, opacity} frame.  The clip is kept in device
/// coordinates; the transform is an integer translation plus an accumulated
/// rotation in whole degrees; opacity is per-mille.
#[derive(Clone, Copy, PartialEq, Eq, Structural, Debug)]
pub struct RenderState {
    pub clip: Rect,
    pub dx: i64,
    pub dy: i64,
    pub rotation_degrees: u32,
    pub opacity: u32,
}

/// A primitive the backend must fill: a device-coordinate rectangle, already
/// clipped, with the frame's opacity at the time it was drawn.
#[derive(Clone, Copy, PartialEq, Eq, Structural, Debug)]
pub struct DrawCommand {
    pub rect: Rect,
    pub color: Color,
    pub opacity: u32,
}

/// A frame the protocol can hold.
pub open spec fn state_wf(s: RenderState) -> bool {
    &&& rect_wf(s.clip)
    &&& -SCENE_LIMIT <= s.dx <= SCENE_LIMIT
    &&& -SCENE_LIMIT <= s.dy <= SCENE_LIMIT
    &&& s.rotation_degrees < 360
    &&& s.opacity <= OPAQUE
}

/// A command the protocol can emit.
pub open spec fn command_wf(c: DrawCommand) -> bool {
    &&& rect_wf(c.rect)
    &&& c.opacity <= OPAQUE
}

/// Where a scene rectangle lands on the surface under frame `st`: translated
/// to device coordinates and cut down to the frame's clip.
pub open spec fn drawn_rect(st: RenderState, r: Rect) -> Rect {
    spec_intersect(spec_translate(r, st.dx, st.dy), st.clip)
}

/// The protocol's starting frame over a surface: the clip covers the
/// surface, the transform is the identity, opacity is full.
pub open spec fn initial_state(surface: Rect) -> RenderState {
    RenderState { clip: surface, dx: 0, dy: 0, rotation_degrees: 0, opacity: OPAQUE }
}

/// One state operation of the drawing protocol.
#[derive(Clone, Copy, PartialEq, Eq, Structural, Debug)]
pub enum StateOp {
    Save,
    Restore,
    Translate { dx: i64, dy: i64 },
    Rotate { degrees: u32 },
    ApplyOpacity { permille: u32 },
    CombineClip { rect: Rect },
}

/// Rotation composition, kept in `[0, 360)` for summands in that range.
pub open spec fn add_degrees(a: u32, b: u32) -> u32 {
    if a + b < 360 {
        (a + b) as u32
    } else if a + b < 720 {
        (a + b - 360) as u32
    } else {
        0
    }
}

/// How many frames an operation adds to the stack.
pub open spec fn op_net(op: StateOp) -> int {
    match op {
        StateOp::Save => 1,
        StateOp::Restore => -1,
        _ => 0,
    }
}

/// How many frames a sequence of operations adds to the stack.
pub open spec fn seq_net(ops: Seq<StateOp>) -> int
    decreases ops.len(),
{
    if ops.len() == 0 {
        0
    } else {
        seq_net(ops.drop_last()) + op_net(ops.last())
    }
}

/// The effect of one state operation on the current frame and the stack.
/// A restore on an empty stack is left undefined as the identity; the
/// executable protocol excludes it by precondition.
pub open spec fn step(cur: RenderState, stack: Seq<RenderState>, op: StateOp) -> (
    RenderState,
    Seq<RenderState>,
) {
    match op {
        StateOp::Save => (cur, stack.push(cur)),
        StateOp::Restore => if stack.len() > 0 {
            (stack.last(), stack.drop_last())
        } else {
            (cur, stack)
        },
        StateOp::Translate { dx, dy } => (
            RenderState {
                clip: cur.clip,
                dx: (cur.dx + dx) as i64,
                dy: (cur.dy + dy) as i64,
                rotation_degrees: cur.rotation_degrees,
                opacity: cur.opacity,
            },
            stack,
        ),
        StateOp::Rotate { degrees } => (
            RenderState {
                clip: cur.clip,
                dx: cur.dx,
                dy: cur.dy,
                rotation_degrees: add_degrees(cur.rotation_degrees, degrees),
                opacity: cur.opacity,
            },
            stack,
        ),
        StateOp::ApplyOpacity { permille } => (
            RenderState {
                clip: cur.clip,
                dx: cur.dx,
                dy: cur.dy,
                rotation_degrees: cur.rotation_degrees,
                opacity: ((cur.opacity * permille) / 1000) as u32,
            },
            stack,
        ),
        StateOp::CombineClip { rect } => (
            RenderState {
                clip: spec_intersect(spec_translate(rect, cur.dx, cur.dy), cur.clip),
                dx: cur.dx,
                dy: cur.dy,
                rotation_degrees: cur.rotation_degrees,
                opacity: cur.opacity,
            },
            stack,
        ),
    }
}

/// The effect of a sequence of state operations, applied left to right.
pub open spec fn run(cur: RenderState, stack: Seq<RenderState>, ops: Seq<StateOp>) -> (
    RenderState,
    Seq<RenderState>,
)
    decreases ops.len(),
{
    if ops.len() == 0 {
        (cur, stack)
    } else {
        let prev = run(cur, stack, ops.drop_last());
        step(prev.0, prev.1, ops.last())
    }
}

/// Running a concatenation runs the two halves in turn.
pub proof fn lemma_run_append(
    cur: RenderState,
    stack: Seq<RenderState>,
    a: Seq<StateOp>,
    b: Seq<StateOp>,
)
    ensures
        run(cur, stack, a + b) == run(run(cur, stack, a).0, run(cur, stack, a).1, b),
    decreases b.len(),
{
    if b.len() == 0 {
        assert(a + b =~= a);
    } else {
        lemma_run_append(cur, stack, a, b.drop_last());
        assert((a + b).drop_last() =~= a + b.drop_last());
        assert((a + b).last() == b.last());
    }
}

/// A run whose every prefix pops fewer frames than `stack.len() - b` leaves
/// the bottom `b` frames of the stack untouched, and changes the stack's
/// length by the sequence's net effect.
pub proof fn lemma_run_keeps_bottom(
    cur: RenderState,
    stack: Seq<RenderState>,
    b: int,
    ops: Seq<StateOp>,
)
    requires
        0 <= b <= stack.len(),
        forall|i: int| 0 <= i <= ops.len() ==> seq_net(#[trigger] ops.take(i)) + stack.len() - b
            >= 0,
    ensures
        run(cur, stack, ops).1.len() == stack.len() + seq_net(ops),
        run(cur, stack, ops).1.take(b) == stack.take(b),
    decreases ops.len(),
{
    if ops.len() == 0 {
    } else {
        let head = ops.drop_last();
        assert(ops.take(ops.len() as int) =~= ops);
        assert forall|i: int| 0 <= i <= head.len() implies seq_net(#[trigger] head.take(i))
            + stack.len() - b >= 0 by {
            assert(head.take(i) =~= ops.take(i));
        }
        lemma_run_keeps_bottom(cur, stack, b, head);
        let p = run(cur, stack, head);
        assert(head =~= ops.take(ops.len() - 1));
        match ops.last() {
            StateOp::Save => {
                assert(p.1.push(p.0).take(b) =~= p.1.take(b));
            },
            StateOp::Restore => {
                assert(seq_net(ops) + stack.len() - b >= 0);
                assert(p.1.len() == stack.len() + seq_net(ops) + 1);
                assert(p.1.len() > b);
                assert(p.1.drop_last().take(b) =~= p.1.take(b));
            },
            _ => {},
        }
    }
}

/// Every operation of `ops` is a save or a restore.
pub open spec fn only_save_restore(ops: Seq<StateOp>) -> bool {
    forall|i: int| 0 <= i < ops.len() ==> (ops[i] == StateOp::Save || ops[i] == StateOp::Restore)
}

proof fn lemma_sr_identity(cur: RenderState, stack: Seq<RenderState>, k: nat, ops: Seq<StateOp>)
    requires
        only_save_restore(ops),
        forall|i: int| 0 <= i <= ops.len() ==> seq_net(#[trigger] ops.take(i)) + k >= 0,
    ensures
        run(cur, stack + Seq::new(k, |i: int| cur), ops) == (
            cur,
            stack + Seq::new((k + seq_net(ops)) as nat, |i: int| cur),
        ),
    decreases ops.len(),
{
    assert(ops.take(ops.len() as int) =~= ops);
    if ops.len() == 0 {
        assert(stack + Seq::new((k + 0) as nat, |i: int| cur) =~= stack + Seq::new(
            k,
            |i: int| cur,
        ));
    } else {
        let head = ops.drop_last();
        assert forall|i: int| 0 <= i <= head.len() implies seq_net(#[trigger] head.take(i)) + k
            >= 0 by {
            assert(head.take(i) =~= ops.take(i));
        }
        assert(head =~= ops.take(ops.len() - 1));
        lemma_sr_identity(cur, stack, k, head);
        let m = (k + seq_net(head)) as nat;
        let p = run(cur, stack + Seq::new(k, |i: int| cur), head);
        assert(p == (cur, stack + Seq::new(m, |i: int| cur)));
        assert(ops[ops.len() - 1] == StateOp::Save || ops[ops.len() - 1] == StateOp::Restore);
        if ops.last() == StateOp::Save {
            assert((stack + Seq::new(m, |i: int| cur)).push(cur) =~= stack + Seq::new(
                (m + 1) as nat,
                |i: int| cur,
            ));
        } else {
            assert(seq_net(ops) + k >= 0);
            assert(m >= 1);
            let s = stack + Seq::new(m, |i: int| cur);
            assert(s.last() == cur);
            assert(s.drop_last() =~= stack + Seq::new((m - 1) as nat, |i: int| cur));
        }
    }
}

/// The stack discipline's balance law: a sequence of saves and restores in
/// which every prefix has at least as many saves as restores, and whose
/// totals are equal, leaves the current frame and the stack exactly as they
/// were.
pub proof fn lemma_balanced_save_restore(
    cur: RenderState,
    stack: Seq<RenderState>,
    ops: Seq<StateOp>,
)
    requires
        only_save_restore(ops),
        forall|i: int| 0 <= i <= ops.len() ==> seq_net(#[trigger] ops.take(i)) >= 0,
        seq_net(ops) == 0,
    ensures
        run(cur, stack, ops) == (cur, stack),
{
    lemma_sr_identity(cur, stack, 0, ops);
    assert(stack + Seq::new(0, |i: int| cur) =~= stack);
}

/// The nesting law behind `save_state`/`restore_state`: a save, then any
/// operations that never pop past the saved frame and leave the stack at its
/// depth, then a restore, together restore the frame and the stack exactly.
pub proof fn lemma_save_restore_bracket(
    cur: RenderState,
    stack: Seq<RenderState>,
    inner: Seq<StateOp>,
)
    requires
        forall|i: int| 0 <= i <= inner.len() ==> seq_net(#[trigger] inner.take(i)) >= 0,
        seq_net(inner) == 0,
    ensures
        run(cur, stack, seq![StateOp::Save] + inner + seq![StateOp::Restore]) == (cur, stack),
{
    let s1 = stack.push(cur);
    let first: Seq<StateOp> = seq![StateOp::Save];
    let last: Seq<StateOp> = seq![StateOp::Restore];
    assert(first.last() == StateOp::Save);
    assert(first.drop_last() =~= Seq::<StateOp>::empty());
    assert(run(cur, stack, Seq::<StateOp>::empty()) == (cur, stack));
    assert(run(cur, stack, first) == step(cur, stack, StateOp::Save));
    lemma_run_append(cur, stack, first, inner);
    assert(run(cur, stack, first + inner) == run(cur, s1, inner));
    lemma_run_keeps_bottom(cur, s1, stack.len() as int + 1, inner);
    let p = run(cur, s1, inner);
    assert(p.1.len() == s1.len());
    assert(p.1.take(stack.len() as int + 1) =~= p.1);
    assert(s1.take(stack.len() as int + 1) =~= s1);
    assert(p.1 == s1);
    lemma_run_append(cur, stack, first + inner, last);
    assert(last.last() == StateOp::Restore);
    assert(last.drop_last() =~= Seq::<StateOp>::empty());
    assert(run(p.0, s1, Seq::<StateOp>::empty()) == (p.0, s1));
    assert(run(p.0, s1, last) == step(p.0, s1, StateOp::Restore));
    assert(s1.last() == cur);
    assert(s1.drop_last() =~= stack);
    assert(run(p.0, s1, last) == (cur, stack));
}

/// The drawing protocol's state: the current frame, the saved frames, and
/// the commands emitted so far.
pub struct ItemRenderer {
    pub cur: RenderState,
    pub stack: Vec<RenderState>,
    pub commands: Vec<DrawCommand>,
}

impl ItemRenderer {
    /// Every held frame and emitted command is well formed.
    pub open spec fn wf(self) -> bool {
        &&& state_wf(self.cur)
        &&& forall|i: int| 0 <= i < self.stack@.len() ==> state_wf(#[trigger] self.stack@[i])
        &&& forall|i: int| 0 <= i < self.commands@.len() ==> command_wf(#[trigger] self.commands@[i])
    }

    /// A fresh protocol over the given surface: identity transform, full
    /// opacity, the clip covering the surface, nothing saved, nothing drawn.
    pub fn new(surface: Rect) -> (r: Self)
        requires
            rect_in_scene(surface),
        ensures
            r.wf(),
            r.cur == initial_state(surface),
            r.stack@ == Seq::<RenderState>::empty(),
            r.commands@ == Seq::<DrawCommand>::empty(),
    {
        ItemRenderer {
            cur: RenderState {
                clip: surface,
                dx: 0,
                dy: 0,
                rotation_degrees: 0,
                opacity: OPAQUE,
            },
            stack: Vec::new(),
            commands: Vec::new(),
        }
    }

    /// Pushes the current frame.
    pub fn save_state(&mut self)
        requires
            old(self).wf(),
        ensures
            final(self).wf(),
            (final(self).cur, final(self).stack@) == step(
                old(self).cur,
                old(self).stack@,
                StateOp::Save,
            ),
            final(self).commands@ == old(self).commands@,
    {
        let saved = self.cur;
        self.stack.push(saved);
    }

    /// Pops the most recently saved frame.  Popping with an empty stack is a
    /// programming-contract violation, excluded here by precondition.
    pub fn restore_state(&mut self)
        requires
            old(self).wf(),
            old(self).stack@.len() > 0,
        ensures
            final(self).wf(),
            (final(self).cur, final(self).stack@) == step(
                old(self).cur,
                old(self).stack@,
                StateOp::Restore,
            ),
            final(self).commands@ == old(self).commands@,
    {
        let top = self.stack.pop().unwrap();
        self.cur = top;
        proof {
            assert(self.stack@ =~= old(self).stack@.drop_last());
        }
    }

    /// Composes a translation into the current transform.
    pub fn translate(&mut self, dx: i64, dy: i64)
        requires
            old(self).wf(),
            -SCENE_LIMIT <= old(self).cur.dx + dx <= SCENE_LIMIT,
            -SCENE_LIMIT <= old(self).cur.dy + dy <= SCENE_LIMIT,
        ensures
            final(self).wf(),
            (final(self).cur, final(self).stack@) == step(
                old(self).cur,
                old(self).stack@,
                StateOp::Translate { dx, dy },
            ),
            final(self).commands@ == old(self).commands@,
    {
        self.cur.dx = self.cur.dx + dx;
        self.cur.dy = self.cur.dy + dy;
    }

    /// Composes a rotation, in whole degrees, into the current transform.
    pub fn rotate(&mut self, degrees: u32)
        requires
            old(self).wf(),
            degrees < 360,
        ensures
            final(self).wf(),
            (final(self).cur, final(self).stack@) == step(
                old(self).cur,
                old(self).stack@,
                StateOp::Rotate { degrees },
            ),
            final(self).commands@ == old(self).commands@,
    {
        let sum = self.cur.rotation_degrees + degrees;
        self.cur.rotation_degrees = if sum < 360 {
            sum
        } else {
            sum - 360
        };
    }

    /// Multiplies the given per-mille opacity into the current frame.
    pub fn apply_opacity(&mut self, permille: u32)
        requires
            old(self).wf(),
            permille <= OPAQUE,
        ensures
            final(self).wf(),
            (final(self).cur, final(self).stack@) == step(
                old(self).cur,
                old(self).stack@,
                StateOp::ApplyOpacity { permille },
            ),
            final(self).commands@ == old(self).commands@,
    {
        proof {
            let op = self.cur.opacity;
            assert(op * permille <= 1000 * 1000) by (nonlinear_arith)
                requires
                    op <= 1000,
                    permille <= 1000,
            ;
        }
        self.cur.opacity = (self.cur.opacity * permille) / 1000;
    }

    /// Intersects the current clip with a scene rectangle (translated to
    /// device coordinates) and reports whether anything is left to draw; a
    /// `false` answer lets the caller skip the clipped subtree.  The rounding
    /// radius and border width shape the clip's corners in a production
    /// backend; the rectangular extent alone decides emptiness here.
    pub fn combine_clip(&mut self, rect: Rect, _radius: i64, _border_width: i64) -> (nonempty:
        bool)
        requires
            old(self).wf(),
            rect_in_scene(rect),
        ensures
            final(self).wf(),
            (final(self).cur, final(self).stack@) == step(
                old(self).cur,
                old(self).stack@,
                StateOp::CombineClip { rect },
            ),
            final(self).commands@ == old(self).commands@,
            nonempty == !rect_is_empty(final(self).cur.clip),
    {
        proof {
            lemma_translate_wf(rect, self.cur.dx, self.cur.dy);
            lemma_intersect(spec_translate(rect, self.cur.dx, self.cur.dy), self.cur.clip);
        }
        let device = Rect { x: rect.x + self.cur.dx, y: rect.y + self.cur.dy, w: rect.w, h: rect.h };
        let clipped = intersect(&device, &self.cur.clip);
        self.cur.clip = clipped;
        !is_empty(&clipped)
    }

    /// The current clip, in device coordinates.
    pub fn get_current_clip(&self) -> (r: Rect)
        ensures
            r == self.cur.clip,
    {
        self.cur.clip
    }

    /// Fills a scene rectangle with a brush under the current state.  The
    /// rectangle lands on the surface translated and clipped; when nothing of
    /// it is left the call is a no-op.  A solid color is recorded as one
    /// command; gradient brushes are unsupported in this reference backend.
    pub fn draw_rectangle(&mut self, rect: Rect, brush: Brush) -> (res: Result<(), RenderError>)
        requires
            old(self).wf(),
            rect_in_scene(rect),
        ensures
            final(self).wf(),
            final(self).cur == old(self).cur,
            final(self).stack@ == old(self).stack@,
            rect_is_empty(drawn_rect(old(self).cur, rect)) ==> res == Ok::<(), RenderError>(())
                && final(self).commands@ == old(self).commands@,
            !rect_is_empty(drawn_rect(old(self).cur, rect)) ==> match brush {
                Brush::SolidColor(c) => res == Ok::<(), RenderError>(()) && final(self).commands@
                    == old(self).commands@.push(
                    DrawCommand {
                        rect: drawn_rect(old(self).cur, rect),
                        color: c,
                        opacity: old(self).cur.opacity,
                    },
                ),
                _ => res == Err::<(), RenderError>(RenderError::UnsupportedPrimitive)
                    && final(self).commands@ == old(self).commands@,
            },
    {
        proof {
            lemma_translate_wf(rect, self.cur.dx, self.cur.dy);
            lemma_intersect(spec_translate(rect, self.cur.dx, self.cur.dy), self.cur.clip);
        }
        let device = Rect { x: rect.x + self.cur.dx, y: rect.y + self.cur.dy, w: rect.w, h: rect.h };
        let clipped = intersect(&device, &self.cur.clip);
        if is_empty(&clipped) {
            return Ok(());
        }
        match brush {
            Brush::SolidColor(c) => {
                let cmd = DrawCommand { rect: clipped, color: c, opacity: self.cur.opacity };
                self.commands.push(cmd);
                Ok(())
            },
            _ => Err(RenderError::UnsupportedPrimitive),
        }
    }

    /// A border rectangle; unsupported in this reference backend.
    pub fn draw_border_rectangle(&mut self, _rect: Rect, _border: Brush) -> (res: Result<
        (),
        RenderError,
    >)
        requires
            old(self).wf(),
        ensures
            *final(self) == *old(self),
            res == Err::<(), RenderError>(RenderError::UnsupportedPrimitive),
    {
        Err(RenderError::UnsupportedPrimitive)
    }

    /// An image; unsupported in this reference backend.
    pub fn draw_image(&mut self, _rect: Rect) -> (res: Result<(), RenderError>)
        requires
            old(self).wf(),
        ensures
            *final(self) == *old(self),
            res == Err::<(), RenderError>(RenderError::UnsupportedPrimitive),
    {
        Err(RenderError::UnsupportedPrimitive)
    }

    /// A clipped image; unsupported in this reference backend.
    pub fn draw_clipped_image(&mut self, _rect: Rect, _source_clip: Rect) -> (res: Result<
        (),
        RenderError,
    >)
        requires
            old(self).wf(),
        ensures
            *final(self) == *old(self),
            res == Err::<(), RenderError>(RenderError::UnsupportedPrimitive),
    {
        Err(RenderError::UnsupportedPrimitive)
    }

    /// A text run; unsupported in this reference backend.
    pub fn draw_text(&mut self, _rect: Rect, _color: Color) -> (res: Result<(), RenderError>)
        requires
            old(self).wf(),
        ensures
            *final(self) == *old(self),
            res == Err::<(), RenderError>(RenderError::UnsupportedPrimitive),
    {
        Err(RenderError::UnsupportedPrimitive)
    }

    /// An editable text item; unsupported in this reference backend.
    pub fn draw_text_input(&mut self, _rect: Rect) -> (res: Result<(), RenderError>)
        requires
            old(self).wf(),
        ensures
            *final(self) == *old(self),
            res == Err::<(), RenderError>(RenderError::UnsupportedPrimitive),
    {
        Err(RenderError::UnsupportedPrimitive)
    }

    /// A path; unsupported in this reference backend.
    pub fn draw_path(&mut self, _rect: Rect, _brush: Brush) -> (res: Result<(), RenderError>)
        requires
            old(self).wf(),
        ensures
            *final(self) == *old(self),
            res == Err::<(), RenderError>(RenderError::UnsupportedPrimitive),
    {
        Err(RenderError::UnsupportedPrimitive)
    }

    /// A box shadow; unsupported in this reference backend.
    pub fn draw_box_shadow(&mut self, _rect: Rect, _color: Color) -> (res: Result<(), RenderError>)
        requires
            old(self).wf(),
        ensures
            *final(self) == *old(self),
            res == Err::<(), RenderError>(RenderError::UnsupportedPrimitive),
    {
        Err(RenderError::UnsupportedPrimitive)
    }

    /// A debug string; unsupported in this reference backend.
    pub fn draw_string(&mut self, _text: &str, _color: Color) -> (res: Result<(), RenderError>)
        requires
            old(self).wf(),
        ensures
            *final(self) == *old(self),
            res == Err::<(), RenderError>(RenderError::UnsupportedPrimitive),
    {
        Err(RenderError::UnsupportedPrimitive)
    }
}

/// Under an empty clip, every rectangle lands empty, so drawing it appends
/// no command: primitives under a clipped-out state are no-ops.
pub proof fn lemma_empty_clip_draws_nothing(st: RenderState, r: Rect)
    requires
        state_wf(st),
        rect_in_scene(r),
        rect_is_empty(st.clip),
    ensures
        rect_is_empty(drawn_rect(st, r)),
{
    lemma_translate_wf(r, st.dx, st.dy);
    lemma_intersect(spec_translate(r, st.dx, st.dy), st.clip);
    let t = spec_translate(r, st.dx, st.dy);
    assert forall|px: int, py: int| !(rect_contains(t, px, py) && rect_contains(
        st.clip,
        px,
        py,
    )) by {}
}

/// Combining the clip with a scene rectangle disjoint from it empties the
/// clip, and the call answers that nothing is left.
pub proof fn lemma_disjoint_clip_is_empty(st: RenderState, r: Rect)
    requires
        state_wf(st),
        rect_in_scene(r),
        rects_disjoint(spec_translate(r, st.dx, st.dy), st.clip),
    ensures
        rect_is_empty(step(st, Seq::<RenderState>::empty(), StateOp::CombineClip { rect: r }).0.clip),
{
    lemma_translate_wf(r, st.dx, st.dy);
    lemma_intersect(spec_translate(r, st.dx, st.dy), st.clip);
}

} // verus!
