use imgui_renderer::input::TouchSample;
use imgui_renderer::replay::{ClipRect, DrawCmd, DrawList, DrawVert};
use imgui_renderer::session::{FrameSession, Phase, CLOCK_FREQUENCY};
use imgui_renderer::texture::TextureCache;

#[test]
fn first_frame_uses_the_fallback_delta() {
    let mut s = FrameSession::new();
    assert!(s.phase == Phase::Ready);
    let out = s.begin_frame(1000, 960, 544, None, None);
    // no prior timestamp: exactly 1/60 s
    assert_eq!(out.delta.num, 1);
    assert_eq!(out.delta.den, 60);
    assert!(s.phase == Phase::InFrame);
    let ops = s.end_frame(&vec![]);
    assert!(ops.is_empty());
    assert!(s.phase == Phase::Ready);
    // a second frame 16 ms later measures 16000 clock ticks
    let out = s.begin_frame(1000 + 16000, 960, 544, None, None);
    assert_eq!(out.delta.num, 16000);
    assert_eq!(out.delta.den, CLOCK_FREQUENCY);
    assert_eq!(out.delta.den, 1000000);
}

#[test]
fn zero_framebuffer_skips_rendering_entirely() {
    let mut s = FrameSession::new();
    s.begin_frame(5, 0, 0, None, None);
    let list = DrawList {
        vertices: vec![
            DrawVert {
                pos_x: 1,
                pos_y: 2,
                tex_u: 3,
                tex_v: 4,
                col_r: 5,
                col_g: 6,
                col_b: 7,
                col_a: 8,
            },
        ],
        indices: vec![0, 0, 0],
        commands: vec![
            DrawCmd::Draw {
                clip: ClipRect { x0: 0, y0: 0, x1: 1, y1: 1 },
                elem_count: 3,
                texture_id: 1,
            },
        ],
    };
    let ops = s.end_frame(&vec![list]);
    assert!(ops.is_empty());
    // every piece of scratch-pool state is unchanged
    assert_eq!(s.pool.cursor, 0);
    assert_eq!(s.pool.emitted, 0);
    assert_eq!(s.pool.positions[0], 0);
    assert!(s.phase == Phase::Ready);
}

#[test]
fn pointer_is_clamped_into_display_bounds() {
    let mut s = FrameSession::new();
    let touch = TouchSample { x: -5, y: 9999, pressed: [false, false, false] };
    let out = s.begin_frame(1, 960, 544, Some(touch), None);
    assert_eq!(out.pointer.x, 0);
    assert_eq!(out.pointer.y, 544);
}

#[test]
fn frames_render_through_the_session_pool() {
    let mut s = FrameSession::new();
    let out = s.begin_frame(1, 960, 544, None, None);
    assert!(out.needs_font_texture);
    s.textures.install(42);
    let list = DrawList {
        vertices: vec![
            DrawVert {
                pos_x: 9,
                pos_y: 8,
                tex_u: 7,
                tex_v: 6,
                col_r: 1,
                col_g: 2,
                col_b: 3,
                col_a: 4,
            },
        ],
        indices: vec![0, 0, 0],
        commands: vec![
            DrawCmd::Draw {
                clip: ClipRect { x0: 1, y0: 2, x1: 3, y1: 4 },
                elem_count: 3,
                texture_id: 42,
            },
        ],
    };
    let ops = s.end_frame(&vec![list]);
    assert_eq!(ops.len(), 1);
    assert_eq!(s.pool.cursor, 3);
    assert_eq!(s.pool.positions[0..3], [9, 8, 0]);
    let out = s.begin_frame(2, 960, 544, None, None);
    assert!(!out.needs_font_texture);
}

#[test]
fn texture_cache_lifecycle_is_idempotent() {
    let mut c = TextureCache::new();
    assert!(c.needs_font_texture());
    c.install(5);
    assert!(!c.needs_font_texture());
    assert_eq!(c.invalidate(), Some(5));
    assert!(c.needs_font_texture());
    assert_eq!(c.invalidate(), None);
    assert!(c.needs_font_texture());
}
