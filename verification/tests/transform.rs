use fullscreenizer::transform::ApplySession;
use fullscreenizer::transform::ApplyStep;
use fullscreenizer::transform::Placement;
use fullscreenizer::transform::Rect;
use fullscreenizer::transform::WS_BORDER;
use fullscreenizer::transform::WS_CAPTION;
use fullscreenizer::transform::WS_EX_TOPMOST;
use fullscreenizer::transform::WS_POPUP;
use fullscreenizer::transform::WS_SYSMENU;
use fullscreenizer::transform::WS_THICKFRAME;
use fullscreenizer::transform::WS_VISIBLE;
use fullscreenizer::transform::ex_style_after_move;
use fullscreenizer::transform::fullscreen_style;
use fullscreenizer::transform::target_rect;

fn monitor_1080p() -> Rect {
    Rect { left: 0, top: 0, right: 1920, bottom: 1080 }
}

#[test]
fn fullscreen_style_strips_decorations() {
    let style = fullscreen_style();
    assert_eq!(style, WS_POPUP | WS_VISIBLE);
    assert_eq!(style & WS_CAPTION, 0);
    assert_eq!(style & WS_BORDER, 0);
    assert_eq!(style & WS_THICKFRAME, 0);
    assert_eq!(style & WS_SYSMENU, 0);
}

#[test]
fn target_rect_covers_whole_monitor() {
    // A monitor anchored away from the origin still yields a target of its
    // full size at (0, 0).
    let m = Rect { left: 1920, top: 200, right: 3840, bottom: 1400 };
    let t = target_rect(&m);
    assert_eq!(t, Rect { left: 0, top: 0, right: 1920, bottom: 1200 });
}

#[test]
fn apply_notepad_scenario() {
    // apply(handle_of_Notepad, monitor={0,0,1920,1080}, stay_on_top=false):
    // the commanded rectangle equals {0,0,1920,1080} (the frame adjustment
    // adding nothing) and the style excludes WS_CAPTION.
    let s = ApplySession::start(false);
    assert_eq!(s.pending_step(), Some(ApplyStep::QueryMonitor));
    let s = s.monitor_found(&monitor_1080p());
    assert_eq!(s.pending_step(), Some(ApplyStep::SetStyle));
    let style = s.style_to_set();
    assert_eq!(style & WS_CAPTION, 0);
    let s = s.style_set();
    assert_eq!(s.pending_step(), Some(ApplyStep::AdjustRect));
    let (rect, adjust_style) = s.adjust_request();
    assert_eq!(rect, Rect { left: 0, top: 0, right: 1920, bottom: 1080 });
    assert_eq!(adjust_style, WS_POPUP | WS_VISIBLE);
    // The window is borderless, so the frame adjustment adds nothing.
    let s = s.rect_adjusted(&rect);
    assert_eq!(s.pending_step(), Some(ApplyStep::SetPosition));
    let p = s.placement();
    assert_eq!((p.x, p.y, p.width, p.height), (0, 0, 1920, 1080));
    assert!(!p.topmost);
    assert!(p.frame_change);
    let s = s.position_set();
    assert_eq!(s.pending_step(), None);
    assert!(matches!(s, ApplySession::Complete { .. }));
}

#[test]
fn apply_respects_frame_adjustment() {
    // When the frame metrics widen the rectangle, the commanded bounds
    // cover exactly the adjusted rectangle.
    let s = ApplySession::start(true).monitor_found(&monitor_1080p()).style_set();
    let (rect, _) = s.adjust_request();
    let adjusted = Rect {
        left: rect.left - 8,
        top: rect.top - 31,
        right: rect.right + 8,
        bottom: rect.bottom + 8,
    };
    let p = s.rect_adjusted(&adjusted).placement();
    assert_eq!((p.x, p.y), (-8, -31));
    assert_eq!((p.x + p.width, p.y + p.height), (1928, 1088));
    assert!(p.topmost);
}

#[test]
fn stay_on_top_sets_the_topmost_bit() {
    // stay_on_top=true leaves the always-on-top bit set on the resulting
    // extended style; stay_on_top=false leaves it clear.
    let on = ApplySession::start(true)
        .monitor_found(&monitor_1080p())
        .style_set()
        .rect_adjusted(&Rect { left: 0, top: 0, right: 1920, bottom: 1080 })
        .placement();
    assert!(on.topmost);
    assert_ne!(ex_style_after_move(0, &on) & WS_EX_TOPMOST, 0);

    let off = ApplySession::start(false)
        .monitor_found(&monitor_1080p())
        .style_set()
        .rect_adjusted(&Rect { left: 0, top: 0, right: 1920, bottom: 1080 })
        .placement();
    assert!(!off.topmost);
    assert_eq!(ex_style_after_move(0, &off) & WS_EX_TOPMOST, 0);
}

#[test]
fn failure_at_each_step_names_the_step() {
    let cases: Vec<(ApplySession, ApplyStep)> = vec![
        (ApplySession::start(false), ApplyStep::QueryMonitor),
        (
            ApplySession::start(false).monitor_found(&monitor_1080p()),
            ApplyStep::SetStyle,
        ),
        (
            ApplySession::start(false).monitor_found(&monitor_1080p()).style_set(),
            ApplyStep::AdjustRect,
        ),
        (
            ApplySession::start(false)
                .monitor_found(&monitor_1080p())
                .style_set()
                .rect_adjusted(&Rect { left: 0, top: 0, right: 1920, bottom: 1080 }),
            ApplyStep::SetPosition,
        ),
    ];
    for (session, step) in cases {
        let failed = session.os_failed(5);
        assert_eq!(failed.pending_step(), None);
        match failed {
            ApplySession::Failed { error } => {
                assert_eq!(error.step, step);
                assert_eq!(error.code, 5);
            }
            other => panic!("expected a failed session, got {:?}", other),
        }
    }
}

#[test]
fn placement_literal_shape() {
    let p = Placement { x: 0, y: 0, width: 10, height: 20, topmost: false, frame_change: true };
    assert_eq!(ex_style_after_move(WS_EX_TOPMOST, &p), WS_EX_TOPMOST);
}
