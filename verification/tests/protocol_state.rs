use uibackend::draw::{Brush, Color, DrawCommand, ItemRenderer, RenderError, RenderState};
use uibackend::geometry::{intersect, is_empty, Rect};

fn surface() -> Rect {
    Rect { x: 0, y: 0, w: 100, h: 100 }
}

fn red() -> Color {
    Color { r: 255, g: 0, b: 0, a: 255 }
}

#[test]
fn intersect_overlapping() {
    let a = Rect { x: 0, y: 0, w: 10, h: 10 };
    let b = Rect { x: 5, y: 5, w: 10, h: 10 };
    assert_eq!(intersect(&a, &b), Rect { x: 5, y: 5, w: 5, h: 5 });
}

#[test]
fn intersect_disjoint_is_empty() {
    let a = Rect { x: 0, y: 0, w: 10, h: 10 };
    let b = Rect { x: 30, y: 0, w: 10, h: 10 };
    assert!(is_empty(&intersect(&a, &b)));
}

#[test]
fn intersect_contained() {
    let a = Rect { x: 0, y: 0, w: 100, h: 100 };
    let b = Rect { x: 20, y: 30, w: 10, h: 5 };
    assert_eq!(intersect(&a, &b), b);
}

#[test]
fn save_restore_balanced_restores_state() {
    let mut ir = ItemRenderer::new(surface());
    ir.translate(5, 7);
    ir.rotate(90);
    ir.apply_opacity(500);
    let before: RenderState = ir.cur;
    ir.save_state();
    ir.translate(11, -3);
    ir.rotate(45);
    ir.apply_opacity(200);
    ir.combine_clip(Rect { x: 0, y: 0, w: 10, h: 10 }, 0, 0);
    ir.save_state();
    ir.translate(1, 1);
    ir.restore_state();
    ir.restore_state();
    assert_eq!(ir.cur, before);
    assert!(ir.stack.is_empty());
}

#[test]
fn save_restore_only_sequence_is_identity() {
    let mut ir = ItemRenderer::new(surface());
    ir.translate(2, 3);
    let before = ir.cur;
    ir.save_state();
    ir.save_state();
    ir.restore_state();
    ir.save_state();
    ir.restore_state();
    ir.restore_state();
    assert_eq!(ir.cur, before);
    assert!(ir.stack.is_empty());
}

#[test]
fn combine_clip_disjoint_reports_empty_and_draws_become_noops() {
    let mut ir = ItemRenderer::new(surface());
    let nonempty = ir.combine_clip(Rect { x: 200, y: 200, w: 10, h: 10 }, 0, 0);
    assert!(!nonempty);
    let res = ir.draw_rectangle(Rect { x: 0, y: 0, w: 50, h: 50 }, Brush::SolidColor(red()));
    assert_eq!(res, Ok(()));
    assert!(ir.commands.is_empty());
}

#[test]
fn combine_clip_overlapping_reports_nonempty() {
    let mut ir = ItemRenderer::new(surface());
    let nonempty = ir.combine_clip(Rect { x: 90, y: 90, w: 50, h: 50 }, 0, 0);
    assert!(nonempty);
    assert_eq!(ir.cur.clip, Rect { x: 90, y: 90, w: 10, h: 10 });
}

#[test]
fn combine_clip_applies_translation() {
    let mut ir = ItemRenderer::new(surface());
    ir.translate(10, 20);
    assert!(ir.combine_clip(Rect { x: 0, y: 0, w: 30, h: 30 }, 0, 0));
    assert_eq!(ir.cur.clip, Rect { x: 10, y: 20, w: 30, h: 30 });
}

#[test]
fn draw_rectangle_records_clipped_command() {
    let mut ir = ItemRenderer::new(surface());
    ir.translate(10, 0);
    ir.apply_opacity(400);
    let res = ir.draw_rectangle(Rect { x: 80, y: 90, w: 30, h: 30 }, Brush::SolidColor(red()));
    assert_eq!(res, Ok(()));
    assert_eq!(
        ir.commands,
        vec![DrawCommand { rect: Rect { x: 90, y: 90, w: 10, h: 10 }, color: red(), opacity: 400 }]
    );
}

#[test]
fn gradient_brush_is_unsupported() {
    let mut ir = ItemRenderer::new(surface());
    let res = ir.draw_rectangle(
        Rect { x: 0, y: 0, w: 10, h: 10 },
        Brush::LinearGradient(red(), Color { r: 0, g: 0, b: 255, a: 255 }),
    );
    assert_eq!(res, Err(RenderError::UnsupportedPrimitive));
    assert!(ir.commands.is_empty());
}

#[test]
fn placeholder_primitives_are_unsupported() {
    let mut ir = ItemRenderer::new(surface());
    let r = Rect { x: 0, y: 0, w: 10, h: 10 };
    assert_eq!(ir.draw_border_rectangle(r, Brush::SolidColor(red())), Err(RenderError::UnsupportedPrimitive));
    assert_eq!(ir.draw_image(r), Err(RenderError::UnsupportedPrimitive));
    assert_eq!(ir.draw_clipped_image(r, r), Err(RenderError::UnsupportedPrimitive));
    assert_eq!(ir.draw_text(r, red()), Err(RenderError::UnsupportedPrimitive));
    assert_eq!(ir.draw_text_input(r), Err(RenderError::UnsupportedPrimitive));
    assert_eq!(ir.draw_path(r, Brush::SolidColor(red())), Err(RenderError::UnsupportedPrimitive));
    assert_eq!(ir.draw_box_shadow(r, red()), Err(RenderError::UnsupportedPrimitive));
    assert_eq!(ir.draw_string("hello", red()), Err(RenderError::UnsupportedPrimitive));
    assert!(ir.commands.is_empty());
}

#[test]
fn opacity_composes_multiplicatively() {
    let mut ir = ItemRenderer::new(surface());
    ir.apply_opacity(500);
    ir.apply_opacity(500);
    assert_eq!(ir.cur.opacity, 250);
}

#[test]
fn rotation_wraps_at_full_turn() {
    let mut ir = ItemRenderer::new(surface());
    ir.rotate(270);
    ir.rotate(180);
    assert_eq!(ir.cur.rotation_degrees, 90);
}

#[test]
fn get_current_clip_reports_clip() {
    let mut ir = ItemRenderer::new(surface());
    assert_eq!(ir.get_current_clip(), surface());
    ir.combine_clip(Rect { x: 1, y: 2, w: 3, h: 4 }, 0, 0);
    assert_eq!(ir.get_current_clip(), Rect { x: 1, y: 2, w: 3, h: 4 });
}
