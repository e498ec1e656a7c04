// Frame tests: the scene protocol, scoped draw resources, and teardown.

use nvidia_overlay_hijack::InitEvent;
use nvidia_overlay_hijack::InitSession;
use nvidia_overlay_hijack::Overlay;
use nvidia_overlay_hijack::OverlayHelper;
use nvidia_overlay_hijack::SceneOp;
use nvidia_overlay_hijack::StartupEvent;

fn ready_overlay() -> Overlay {
    let mut ov = Overlay::new("Consolas", 18_000);
    let session = InitSession::new()
        .advance(InitEvent::WindowFound { handle: 7 })
        .advance(InitEvent::StyleRead { style: 0x100 })
        .advance(InitEvent::StyleWritten { previous: 0x100 })
        .advance(InitEvent::FrameExtended { hresult: 0 })
        .advance(InitEvent::LayeredSet { ok: 1 })
        .advance(InitEvent::ZOrderSet { ok: 1 })
        .advance(InitEvent::Shown { ok: 1 });
    ov.init(session).unwrap();
    let g = ov
        .startup_begin()
        .advance(StartupEvent::DrawingFactoryCreated { handle: 11 })
        .advance(StartupEvent::TextFactoryCreated { handle: 12 })
        .advance(StartupEvent::TextFormatCreated { handle: 13 })
        .advance(StartupEvent::ClientRectRead { left: 0, top: 0, right: 800, bottom: 600 })
        .advance(StartupEvent::RenderTargetCreated { handle: 14 });
    ov.startup_d2d(g).unwrap();
    ov
}

fn live_resources(ops: &[SceneOp]) -> (i64, i64) {
    let mut brushes: i64 = 0;
    let mut layouts: i64 = 0;
    for op in ops {
        match op {
            SceneOp::CreateBrush { .. } => brushes += 1,
            SceneOp::ReleaseBrush => brushes -= 1,
            SceneOp::CreateTextLayout { .. } => layouts += 1,
            SceneOp::ReleaseTextLayout => layouts -= 1,
            _ => {},
        }
    }
    (brushes, layouts)
}

#[test]
fn begin_scene_without_target_is_silent() {
    // Deliberately asymmetric: beginning a frame before startup does
    // nothing at all, while the other scene calls demand the render target.
    let mut ov = Overlay::new("Consolas", 18_000);
    let ops = ov.begin_scene();
    assert!(ops.is_empty());
    assert!(!ov.in_frame);
}

#[test]
fn begin_scene_with_target_opens_frame() {
    let mut ov = ready_overlay();
    let ops = ov.begin_scene();
    assert_eq!(ops, vec![SceneOp::BeginDraw]);
    assert!(ov.in_frame);
}

#[test]
fn end_scene_closes_frame() {
    let mut ov = ready_overlay();
    ov.begin_scene();
    let ops = ov.end_scene();
    assert_eq!(ops, vec![SceneOp::EndDraw]);
    assert!(!ov.in_frame);
}

#[test]
fn clear_scene_emits_one_clear() {
    let mut ov = ready_overlay();
    ov.begin_scene();
    assert_eq!(ov.clear_scene(), vec![SceneOp::Clear]);
}

#[test]
fn draw_rect_emits_one_stroked_rectangle() {
    // The rectangle spans position to position + size, keeps the requested
    // stroke width, and the brush carries the four 8-bit channels whose
    // unit-interval normalization is (1.0, 0.2, 0.0, 1.0).
    let mut ov = ready_overlay();
    ov.begin_scene();
    let ops = ov.draw_rect((10, 80), (100, 100), 2_000, (255, 51, 0, 255));
    assert_eq!(
        ops,
        vec![
            SceneOp::CreateBrush { r: 255, g: 51, b: 0, a: 255 },
            SceneOp::DrawRectangle { left: 10, top: 80, right: 110, bottom: 180, stroke_milli: 2_000 },
            SceneOp::ReleaseBrush,
        ]
    );
    assert_eq!(2_000u32 as f32 / 1000.0, 2.0);
    assert_eq!(255.0f32 / 255.0, 1.0);
    assert_eq!(51.0f32 / 255.0, 0.2);
    assert_eq!(0.0f32 / 255.0, 0.0);
}

#[test]
fn draw_text_scopes_layout_and_brush() {
    let mut ov = ready_overlay();
    ov.begin_scene();
    let ops = ov.draw_text((10, 30), String::from("hello"), (255, 51, 0, 255));
    assert_eq!(
        ops,
        vec![
            SceneOp::CreateTextLayout { text: String::from("hello") },
            SceneOp::CreateBrush { r: 255, g: 51, b: 0, a: 255 },
            SceneOp::DrawTextLayout { x: 10, y: 30 },
            SceneOp::ReleaseBrush,
            SceneOp::ReleaseTextLayout,
        ]
    );
    assert_eq!(live_resources(&ops), (0, 0));
}

#[test]
fn draw_element_wraps_any_primitive() {
    let ov = ready_overlay();
    let ops = ov.draw_element((1, 2, 3, 4), SceneOp::DrawTextLayout { x: 5, y: 6 });
    assert_eq!(
        ops,
        vec![
            SceneOp::CreateBrush { r: 1, g: 2, b: 3, a: 4 },
            SceneOp::DrawTextLayout { x: 5, y: 6 },
            SceneOp::ReleaseBrush,
        ]
    );
}

#[test]
fn factory_commands_carry_their_inputs() {
    let ov = ready_overlay();
    let brush = ov.create_brush((9, 8, 7, 6));
    assert_eq!(brush, SceneOp::CreateBrush { r: 9, g: 8, b: 7, a: 6 });
    let layout = ov.create_text_layout("abc");
    assert_eq!(layout, SceneOp::CreateTextLayout { text: String::from("abc") });
}

#[test]
fn repeated_draw_calls_leak_no_resources() {
    // Resource counts return to zero after every single draw call, and so
    // stay at zero over a whole frame of them.
    let mut ov = ready_overlay();
    let mut frame: Vec<SceneOp> = Vec::new();
    frame.extend(ov.begin_scene());
    frame.extend(ov.clear_scene());
    for i in 0..100i32 {
        let ops = ov.draw_rect((i, i), (50, 20), 1_000, (0, 255, 0, 255));
        assert_eq!(live_resources(&ops), (0, 0));
        frame.extend(ops);
    }
    frame.extend(ov.draw_text((10, 30), String::from("overlay"), (0, 255, 0, 255)));
    frame.extend(ov.end_scene());
    assert_eq!(live_resources(&frame), (0, 0));
}

#[test]
fn teardown_after_startup_flushes_one_empty_frame() {
    let mut ov = ready_overlay();
    let ops = ov.teardown();
    assert_eq!(ops, vec![SceneOp::BeginDraw, SceneOp::Clear, SceneOp::EndDraw]);
    assert!(ov.d2d_factory.is_none());
    assert!(ov.tar.is_none());
    assert!(ov.write_factory.is_none());
    assert!(ov.format.is_none());
    assert!(!ov.in_frame);
    // The foreign window is never destroyed: the reference survives teardown.
    assert_eq!(ov.window, Some(7));
}

#[test]
fn teardown_before_startup_swallows_the_violation() {
    let mut ov = Overlay::new("Consolas", 18_000);
    let ops = ov.teardown();
    assert!(ops.is_empty());
    assert!(ov.tar.is_none());
}

#[test]
fn teardown_mid_frame_still_flushes_once() {
    let mut ov = ready_overlay();
    ov.begin_scene();
    let ops = ov.teardown();
    assert_eq!(ops, vec![SceneOp::BeginDraw, SceneOp::Clear, SceneOp::EndDraw]);
    assert!(!ov.in_frame);
}
