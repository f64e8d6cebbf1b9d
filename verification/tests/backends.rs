use uibackend::adapter::WindowAdapter;
use uibackend::draw::{Brush, Color, DrawCommand, RenderError};
use uibackend::geometry::Rect;
use uibackend::gpu::GpuRenderer;
use uibackend::handle::{DisplayHandleVariant, RawHandlePair, WindowHandleVariant};
use uibackend::native::{frame_outcome, render_scene, NativeRenderer, SceneItem};
use uibackend::renderer::{render_software_frame, Renderer};
use uibackend::software::{RepaintBufferType, SoftwareRenderer};
use uibackend::{PhysicalSize, PlatformError};

fn software_renderer() -> Renderer {
    Renderer::Software(SoftwareRenderer::new(RepaintBufferType::NewBuffer))
}

#[test]
fn adapter_show_and_hide_follow_host_outcomes() {
    let mut adapter = WindowAdapter::new(software_renderer());
    assert!(!adapter.window().visible);
    assert_eq!(adapter.show(true), Ok(()));
    assert!(adapter.window().visible);
    assert_eq!(adapter.hide_surface(false), Err(PlatformError::HideRejected));
    assert!(adapter.window().visible);
    assert_eq!(adapter.hide_surface(true), Ok(()));
    assert!(!adapter.window().visible);
}

#[test]
fn adapter_show_rejection_is_reported_and_changes_nothing() {
    let mut adapter = WindowAdapter::new(software_renderer());
    assert_eq!(adapter.show(false), Err(PlatformError::ShowRejected));
    assert!(!adapter.window().visible);
}

#[test]
fn redraw_requests_coalesce_to_one() {
    let mut adapter = WindowAdapter::new(software_renderer());
    adapter.request_redraw();
    adapter.request_redraw();
    adapter.request_redraw();
    assert!(adapter.take_pending_redraw());
    assert!(!adapter.take_pending_redraw());
}

#[test]
fn window_state_tracks_animations() {
    let mut adapter = WindowAdapter::new(software_renderer());
    assert!(!adapter.window().has_active_animations());
    adapter.window.set_active_animations(true);
    assert!(adapter.window().has_active_animations());
}

#[test]
fn gpu_renderer_owns_handle_and_tracks_size() {
    let handle = RawHandlePair::new_wayland(0x10, 0x20);
    let mut gpu = GpuRenderer::new(handle, PhysicalSize { width: 800, height: 600 });
    assert_eq!(gpu.size, PhysicalSize { width: 800, height: 600 });
    assert_eq!(gpu.resize(PhysicalSize { width: 400, height: 300 }, true), Ok(()));
    assert_eq!(gpu.size, PhysicalSize { width: 400, height: 300 });
    assert_eq!(gpu.render(PhysicalSize { width: 400, height: 300 }, true), Ok(()));
    assert_eq!(
        gpu.render(PhysicalSize { width: 400, height: 300 }, false),
        Err(PlatformError::RenderRejected)
    );
    assert_eq!(gpu.release(), handle);
}

#[test]
fn gpu_renderer_reports_host_rejections() {
    let handle = RawHandlePair::new_win32(0x30, 0x40);
    let mut gpu = GpuRenderer::new(handle, PhysicalSize { width: 100, height: 100 });
    assert_eq!(gpu.show(false), Err(PlatformError::ShowRejected));
    assert!(!gpu.shown);
    assert_eq!(gpu.show(true), Ok(()));
    assert!(gpu.shown);
    assert_eq!(
        gpu.resize(PhysicalSize { width: 1, height: 1 }, false),
        Err(PlatformError::ResizeRejected)
    );
    assert_eq!(gpu.size, PhysicalSize { width: 100, height: 100 });
    assert_eq!(gpu.hide_surface(true), Ok(()));
    assert!(!gpu.shown);
}

#[test]
fn native_renderer_construction_follows_host() {
    let handle = RawHandlePair::new_win32(0x50, 0x60);
    assert!(matches!(
        NativeRenderer::new(&handle, false, true),
        Err(PlatformError::SurfaceCreation)
    ));
    assert!(matches!(
        NativeRenderer::new(&handle, true, false),
        Err(PlatformError::SurfaceCreation)
    ));
    let mut native = NativeRenderer::new(&handle, true, true).unwrap();
    assert_eq!(native.size, PhysicalSize { width: 0, height: 0 });
    assert_eq!(native.dpi_permille, 1000);
    assert_eq!(
        native.set_size(PhysicalSize { width: 640, height: 480 }, 1250, true),
        Ok(())
    );
    assert_eq!(native.size, PhysicalSize { width: 640, height: 480 });
    assert_eq!(native.dpi_permille, 1250);
    assert_eq!(
        native.set_size(PhysicalSize { width: 1, height: 1 }, 1000, false),
        Err(PlatformError::ResizeRejected)
    );
    assert_eq!(native.size, PhysicalSize { width: 640, height: 480 });
}

#[test]
fn frame_is_always_finalized_and_failures_reported() {
    assert_eq!(frame_outcome(Ok(()), true), Ok(Ok(())));
    assert_eq!(
        frame_outcome(Err(RenderError::UnsupportedPrimitive), true),
        Ok(Err(RenderError::UnsupportedPrimitive))
    );
    assert_eq!(frame_outcome(Ok(()), false), Err(PlatformError::RenderRejected));
    assert_eq!(
        frame_outcome(Err(RenderError::UnsupportedPrimitive), false),
        Err(PlatformError::RenderRejected)
    );
}

#[test]
fn render_scene_clips_and_collects_solid_items() {
    let surface = Rect { x: 0, y: 0, w: 100, h: 100 };
    let red = Color { r: 255, g: 0, b: 0, a: 255 };
    let items = vec![
        SceneItem { rect: Rect { x: 10, y: 10, w: 20, h: 20 }, brush: Brush::SolidColor(red) },
        SceneItem { rect: Rect { x: 200, y: 200, w: 5, h: 5 }, brush: Brush::SolidColor(red) },
        SceneItem { rect: Rect { x: 90, y: 0, w: 20, h: 20 }, brush: Brush::SolidColor(red) },
    ];
    let commands = render_scene(surface, &items).unwrap();
    assert_eq!(
        commands,
        vec![
            DrawCommand { rect: Rect { x: 10, y: 10, w: 20, h: 20 }, color: red, opacity: 1000 },
            DrawCommand { rect: Rect { x: 90, y: 0, w: 10, h: 20 }, color: red, opacity: 1000 },
        ]
    );
}

#[test]
fn render_scene_reports_visible_gradient() {
    let surface = Rect { x: 0, y: 0, w: 100, h: 100 };
    let red = Color { r: 255, g: 0, b: 0, a: 255 };
    let blue = Color { r: 0, g: 0, b: 255, a: 255 };
    let items = vec![SceneItem {
        rect: Rect { x: 0, y: 0, w: 10, h: 10 },
        brush: Brush::LinearGradient(red, blue),
    }];
    assert_eq!(render_scene(surface, &items), Err(RenderError::UnsupportedPrimitive));

    // A gradient that lands entirely outside the clip is skipped, not an error.
    let clipped_out = vec![SceneItem {
        rect: Rect { x: 500, y: 500, w: 10, h: 10 },
        brush: Brush::RadialGradient(red, blue),
    }];
    assert_eq!(render_scene(surface, &clipped_out), Ok(vec![]));
}

#[test]
fn raw_handle_constructors_tag_their_variant() {
    let win32 = RawHandlePair::new_win32(1, 2);
    assert_eq!(win32.raw_window_handle(), WindowHandleVariant::Win32 { hwnd: 1, hinstance: 2 });
    assert_eq!(win32.raw_display_handle(), DisplayHandleVariant::Windows);

    let xcb = RawHandlePair::new_xcb(3, 4, 5, 6);
    assert_eq!(
        xcb.raw_window_handle(),
        WindowHandleVariant::Xcb { window: 3, visual_id: 4 }
    );
    assert_eq!(
        xcb.raw_display_handle(),
        DisplayHandleVariant::Xcb { connection: 5, screen: 6 }
    );

    let wayland = RawHandlePair::new_wayland(7, 8);
    assert_eq!(wayland.raw_window_handle(), WindowHandleVariant::Wayland { surface: 7 });
    assert_eq!(wayland.raw_display_handle(), DisplayHandleVariant::Wayland { display: 8 });

    let appkit = RawHandlePair::new_appkit(9, 10);
    assert_eq!(
        appkit.raw_window_handle(),
        WindowHandleVariant::AppKit { ns_view: 9, ns_window: 10 }
    );
    assert_eq!(appkit.raw_display_handle(), DisplayHandleVariant::AppKit);
}

#[test]
fn text_queries_use_the_monospace_metric() {
    let renderer = software_renderer();
    // advance per character: 12 / 2 + 1 = 7
    assert_eq!(renderer.text_size(12, "hello", None), (35, 12));
    assert_eq!(renderer.text_size(12, "hello", Some(20)), (20, 12));
    assert_eq!(renderer.text_size(12, "", None), (0, 12));
    assert_eq!(renderer.text_input_byte_offset_for_position(12, 0, "hello"), 0);
    assert_eq!(renderer.text_input_byte_offset_for_position(12, 21, "hello"), 3);
    assert_eq!(renderer.text_input_byte_offset_for_position(12, 10_000, "hello"), 5);
    let cursor = renderer.text_input_cursor_rect_for_byte_offset(12, 2, "hello");
    assert_eq!(cursor, Rect { x: 14, y: 0, w: 1, h: 12 });
    assert_eq!(
        renderer.text_input_byte_offset_for_position(12, cursor.x as u64, "hello"),
        2
    );
    assert_eq!(renderer.default_font_size(), 12);
}

#[test]
fn software_frame_renders_scene_end_to_end() {
    let software = SoftwareRenderer::new(RepaintBufferType::NewBuffer);
    let surface = Rect { x: 0, y: 0, w: 4, h: 4 };
    let green = Color { r: 0, g: 255, b: 0, a: 255 };
    let items = vec![SceneItem {
        rect: Rect { x: 0, y: 0, w: 4, h: 4 },
        brush: Brush::SolidColor(green),
    }];
    let mut buffer = vec![9u8; 4 * 4 * 3];
    assert_eq!(
        render_software_frame(&software, surface, &items, &mut buffer, 4, 4, 4),
        Ok(())
    );
    assert!(buffer.chunks(3).all(|p| p == [0, 255, 0]));

    let gradient = vec![SceneItem {
        rect: Rect { x: 0, y: 0, w: 2, h: 2 },
        brush: Brush::LinearGradient(green, green),
    }];
    let mut untouched = vec![9u8; 4 * 4 * 3];
    assert_eq!(
        render_software_frame(&software, surface, &gradient, &mut untouched, 4, 4, 4),
        Err(RenderError::UnsupportedPrimitive)
    );
    assert!(untouched.iter().all(|&b| b == 9));
}
