use uibackend::draw::{Color, DrawCommand};
use uibackend::geometry::Rect;
use uibackend::software::{RepaintBufferType, SoftwareRenderer};

fn policies() -> Vec<RepaintBufferType> {
    vec![
        RepaintBufferType::NewBuffer,
        RepaintBufferType::ReusedBuffer,
        RepaintBufferType::SwappedBuffers,
    ]
}

fn full_cover(width: usize, height: usize, color: Color, opacity: u32) -> DrawCommand {
    DrawCommand {
        rect: Rect { x: 0, y: 0, w: width as i64, h: height as i64 },
        color,
        opacity,
    }
}

#[test]
fn full_opaque_rectangle_fills_every_pixel_under_every_policy() {
    let color = Color { r: 10, g: 200, b: 33, a: 255 };
    for policy in policies() {
        for width in 1..=9usize {
            for height in 1..=9usize {
                let renderer = SoftwareRenderer::new(policy);
                let mut buffer = vec![77u8; width * height * 3];
                let commands = vec![full_cover(width, height, color, 1000)];
                renderer.render(&commands, &mut buffer, width, width, height);
                for py in 0..height {
                    for px in 0..width {
                        let i = (py * width + px) * 3;
                        assert_eq!(
                            (buffer[i], buffer[i + 1], buffer[i + 2]),
                            (10, 200, 33),
                            "pixel ({px},{py}) of {width}x{height} under {policy:?}"
                        );
                    }
                }
            }
        }
    }
}

#[test]
fn full_opaque_rectangle_fills_a_large_buffer() {
    let color = Color { r: 1, g: 2, b: 3, a: 255 };
    let (width, height) = (64usize, 48usize);
    let renderer = SoftwareRenderer::new(RepaintBufferType::ReusedBuffer);
    let mut buffer = vec![0u8; width * height * 3];
    renderer.render(&vec![full_cover(width, height, color, 1000)], &mut buffer, width, width, height);
    assert!(buffer.chunks(3).all(|p| p == [1, 2, 3]));
}

#[test]
fn stride_padding_and_tail_stay_untouched() {
    let (width, stride, height) = (3usize, 5usize, 2usize);
    let mut buffer = vec![9u8; stride * height * 3 + 4];
    let renderer = SoftwareRenderer::new(RepaintBufferType::NewBuffer);
    let color = Color { r: 8, g: 8, b: 8, a: 255 };
    renderer.render(&vec![full_cover(width, height, color, 1000)], &mut buffer, stride, width, height);
    for row in 0..height {
        for j in width * 3..stride * 3 {
            assert_eq!(buffer[row * stride * 3 + j], 9, "padding byte of row {row}");
        }
    }
    for i in stride * height * 3..buffer.len() {
        assert_eq!(buffer[i], 9, "tail byte {i}");
    }
}

#[test]
fn new_buffer_policy_clears_to_black() {
    let renderer = SoftwareRenderer::new(RepaintBufferType::NewBuffer);
    let mut buffer = vec![123u8; 4 * 4 * 3];
    renderer.render(&Vec::new(), &mut buffer, 4, 4, 4);
    assert!(buffer.iter().all(|&b| b == 0));
}

#[test]
fn reused_buffer_policy_keeps_prior_contents() {
    let renderer = SoftwareRenderer::new(RepaintBufferType::ReusedBuffer);
    let mut buffer = vec![123u8; 4 * 4 * 3];
    renderer.render(&Vec::new(), &mut buffer, 4, 4, 4);
    assert!(buffer.iter().all(|&b| b == 123));
}

#[test]
fn alpha_blends_source_over_destination() {
    // effective alpha 128 over a 100-valued destination:
    // (200 * 128 + 100 * 127) / 255 = 150.
    let renderer = SoftwareRenderer::new(RepaintBufferType::ReusedBuffer);
    let mut buffer = vec![100u8; 3];
    let commands = vec![DrawCommand {
        rect: Rect { x: 0, y: 0, w: 1, h: 1 },
        color: Color { r: 200, g: 200, b: 200, a: 128 },
        opacity: 1000,
    }];
    renderer.render(&commands, &mut buffer, 1, 1, 1);
    assert_eq!(buffer, vec![150, 150, 150]);
}

#[test]
fn frame_opacity_scales_alpha() {
    // alpha 255 at opacity 500 gives effective alpha 127:
    // (200 * 127 + 100 * 128) / 255 = 149.
    let renderer = SoftwareRenderer::new(RepaintBufferType::ReusedBuffer);
    let mut buffer = vec![100u8; 3];
    let commands = vec![DrawCommand {
        rect: Rect { x: 0, y: 0, w: 1, h: 1 },
        color: Color { r: 200, g: 200, b: 200, a: 255 },
        opacity: 500,
    }];
    renderer.render(&commands, &mut buffer, 1, 1, 1);
    assert_eq!(buffer, vec![149, 149, 149]);
}

#[test]
fn later_command_paints_over_earlier() {
    let renderer = SoftwareRenderer::new(RepaintBufferType::NewBuffer);
    let mut buffer = vec![0u8; 2 * 1 * 3];
    let commands = vec![
        full_cover(2, 1, Color { r: 50, g: 50, b: 50, a: 255 }, 1000),
        DrawCommand {
            rect: Rect { x: 1, y: 0, w: 1, h: 1 },
            color: Color { r: 250, g: 0, b: 0, a: 255 },
            opacity: 1000,
        },
    ];
    renderer.render(&commands, &mut buffer, 2, 2, 1);
    assert_eq!(buffer, vec![50, 50, 50, 250, 0, 0]);
}

#[test]
fn command_outside_surface_changes_nothing() {
    let renderer = SoftwareRenderer::new(RepaintBufferType::ReusedBuffer);
    let mut buffer = vec![5u8; 2 * 2 * 3];
    let commands = vec![DrawCommand {
        rect: Rect { x: -10, y: -10, w: 5, h: 5 },
        color: Color { r: 255, g: 255, b: 255, a: 255 },
        opacity: 1000,
    }];
    renderer.render(&commands, &mut buffer, 2, 2, 2);
    assert!(buffer.iter().all(|&b| b == 5));
}

#[test]
fn buffer_age_numbers_map_to_policies() {
    assert_eq!(
        SoftwareRenderer::from_buffer_age(0).repaint_buffer_type,
        RepaintBufferType::NewBuffer
    );
    assert_eq!(
        SoftwareRenderer::from_buffer_age(1).repaint_buffer_type,
        RepaintBufferType::ReusedBuffer
    );
    assert_eq!(
        SoftwareRenderer::from_buffer_age(2).repaint_buffer_type,
        RepaintBufferType::SwappedBuffers
    );
}
