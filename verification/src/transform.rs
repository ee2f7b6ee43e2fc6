//! The fullscreenize transform: given a chosen window and the monitor it
//! sits on, strip the window's decorations, resize it to cover the
//! monitor's full pixel area — taskbar included — and optionally raise it
//! into the always-on-top band.
//!
//! The transform is a fixed sequence of four operating-system calls, each
//! of which may fail: query the monitor's rectangle, replace the window
//! style, adjust the target rectangle for the frame metrics, and move the
//! window. [`ApplySession`] is that sequence as a state machine: the shell
//! asks which call is owed, performs it, and reports the outcome; a failure
//! aborts the remaining steps and carries the failing step with the system
//! error code. Nothing is rolled back on failure — a window can be left
//! restyled but not yet moved, which mirrors the transform's documented
//! sharp edge.

use vstd::prelude::*;

verus! {

/// Style bit of a popup window (no caption, no border).
pub const WS_POPUP: u32 = 0x8000_0000;

/// Style bit of a visible window.
pub const WS_VISIBLE: u32 = 0x1000_0000;

/// Style bits of the title bar.
pub const WS_CAPTION: u32 = 0x00C0_0000;

/// Style bit of the thin border.
pub const WS_BORDER: u32 = 0x0080_0000;

/// Style bit of the sizing border.
pub const WS_THICKFRAME: u32 = 0x0004_0000;

/// Style bit of the system menu.
pub const WS_SYSMENU: u32 = 0x0008_0000;

/// Extended-style bit of a window in the always-on-top band.
pub const WS_EX_TOPMOST: u32 = 0x0000_0008;

/// A rectangle in device pixels, edges inclusive-exclusive as the
/// operating system keeps them.
#[derive(Clone, Copy, PartialEq, Eq, Structural, Debug)]
pub struct Rect {
    pub left: i32,
    pub top: i32,
    pub right: i32,
    pub bottom: i32,
}

impl Rect {
    /// The edges are ordered.
    pub open spec fn wf(self) -> bool {
        self.left <= self.right && self.top <= self.bottom
    }

    /// Width in pixels.
    pub open spec fn width(self) -> int {
        self.right - self.left
    }

    /// Height in pixels.
    pub open spec fn height(self) -> int {
        self.bottom - self.top
    }

    /// Width and height are each representable on their own.
    pub open spec fn spans_fit(self) -> bool {
        self.width() <= i32::MAX && self.height() <= i32::MAX
    }
}

/// The style a fullscreenized window receives: popup and visible, and
/// nothing else. The replacement is destructive — whatever style bits the
/// window held before, caption, borders and system menu included, are
/// discarded.
pub open spec fn fullscreen_style_spec() -> u32 {
    WS_POPUP | WS_VISIBLE
}

/// The style to install on the window: popup and visible only, with every
/// decoration bit clear.
pub fn fullscreen_style() -> (style: u32)
    ensures
        style == fullscreen_style_spec(),
        style & WS_CAPTION == 0,
        style & WS_BORDER == 0,
        style & WS_THICKFRAME == 0,
        style & WS_SYSMENU == 0,
{
    proof {
        assert((0x8000_0000u32 | 0x1000_0000u32) & 0x00C0_0000u32 == 0) by (bit_vector);
        assert((0x8000_0000u32 | 0x1000_0000u32) & 0x0080_0000u32 == 0) by (bit_vector);
        assert((0x8000_0000u32 | 0x1000_0000u32) & 0x0004_0000u32 == 0) by (bit_vector);
        assert((0x8000_0000u32 | 0x1000_0000u32) & 0x0008_0000u32 == 0) by (bit_vector);
    }
    WS_POPUP | WS_VISIBLE
}

/// The target rectangle: the monitor's full size anchored at the origin.
pub open spec fn target_rect_spec(monitor: Rect) -> Rect {
    Rect {
        left: 0,
        top: 0,
        right: (monitor.right - monitor.left) as i32,
        bottom: (monitor.bottom - monitor.top) as i32,
    }
}

/// Normalizes the monitor's rectangle to an origin of `(0, 0)` with the
/// monitor's full pixel dimensions — the whole display, not the work area,
/// so the taskbar is covered too.
pub fn target_rect(monitor: &Rect) -> (r: Rect)
    requires
        monitor.wf(),
        monitor.spans_fit(),
    ensures
        r == target_rect_spec(*monitor),
        r.left == 0 && r.top == 0,
        r.width() == monitor.width() && r.height() == monitor.height(),
{
    Rect { left: 0, top: 0, right: monitor.right - monitor.left, bottom: monitor.bottom - monitor.top }
}

/// The placement the transform commands: where the window goes, its size,
/// whether it is raised into the always-on-top band, and that the frame is
/// recomputed by the move.
#[derive(Clone, Copy, PartialEq, Eq, Structural, Debug)]
pub struct Placement {
    pub x: i32,
    pub y: i32,
    pub width: i32,
    pub height: i32,
    pub topmost: bool,
    pub frame_change: bool,
}

/// The placement for a frame-adjusted rectangle: its top-left corner, its
/// exact size, the requested band, and a frame recomputation.
pub open spec fn placement_spec(adjusted: Rect, stay_on_top: bool) -> Placement {
    Placement {
        x: adjusted.left,
        y: adjusted.top,
        width: (adjusted.right - adjusted.left) as i32,
        height: (adjusted.bottom - adjusted.top) as i32,
        topmost: stay_on_top,
        frame_change: true,
    }
}

/// Turns the frame-adjusted rectangle into the placement to command.
pub fn placement_for(adjusted: &Rect, stay_on_top: bool) -> (p: Placement)
    requires
        adjusted.wf(),
        adjusted.spans_fit(),
    ensures
        p == placement_spec(*adjusted, stay_on_top),
{
    Placement {
        x: adjusted.left,
        y: adjusted.top,
        width: adjusted.right - adjusted.left,
        height: adjusted.bottom - adjusted.top,
        topmost: stay_on_top,
        frame_change: true,
    }
}

/// The extended style a window holds after the move: raising it into the
/// always-on-top band sets the topmost bit; otherwise the band, and with
/// it the bit, stay as they were.
pub open spec fn ex_style_after(ex_style: u32, p: Placement) -> u32 {
    if p.topmost {
        ex_style | WS_EX_TOPMOST
    } else {
        ex_style
    }
}

/// The extended style after the move, for inspection: the always-on-top
/// bit is set exactly when the placement raised the window into the
/// always-on-top band or it was set before.
pub fn ex_style_after_move(ex_style: u32, p: &Placement) -> (r: u32)
    ensures
        r == ex_style_after(ex_style, *p),
{
    if p.topmost {
        ex_style | WS_EX_TOPMOST
    } else {
        ex_style
    }
}

/// The four operating-system calls of the transform, in order.
#[derive(Clone, Copy, PartialEq, Eq, Structural, Debug)]
pub enum ApplyStep {
    QueryMonitor,
    SetStyle,
    AdjustRect,
    SetPosition,
}

/// A failed transform: which step failed and the system error code it
/// reported.
#[derive(Clone, Copy, PartialEq, Eq, Structural, Debug)]
pub struct ApplyError {
    pub step: ApplyStep,
    pub code: u32,
}

/// One fullscreenize transform in flight. The shell drives it: ask
/// [`ApplySession::pending_step`] which call is owed, perform that call,
/// and report its outcome through the matching transition — or through
/// [`ApplySession::os_failed`], which aborts the transform with the
/// failing step and error code.
#[derive(Clone, Copy, PartialEq, Eq, Structural, Debug)]
pub enum ApplySession {
    /// The monitor holding the window is being resolved.
    AwaitMonitor { stay_on_top: bool },
    /// The window's style is owed its destructive replacement.
    AwaitStyle { stay_on_top: bool, target: Rect },
    /// The target rectangle is owed its frame adjustment.
    AwaitAdjust { stay_on_top: bool, target: Rect },
    /// The window is owed its move to the placement.
    AwaitMove { placement: Placement },
    /// Every step succeeded; the window was moved to `placement`.
    Complete { placement: Placement },
    /// A step failed; the remaining steps never ran.
    Failed { error: ApplyError },
}

impl ApplySession {
    /// The step whose operating-system call is owed now, or `None` when
    /// the transform is over.
    pub open spec fn pending_spec(self) -> Option<ApplyStep> {
        match self {
            ApplySession::AwaitMonitor { .. } => Some(ApplyStep::QueryMonitor),
            ApplySession::AwaitStyle { .. } => Some(ApplyStep::SetStyle),
            ApplySession::AwaitAdjust { .. } => Some(ApplyStep::AdjustRect),
            ApplySession::AwaitMove { .. } => Some(ApplyStep::SetPosition),
            ApplySession::Complete { .. } => None,
            ApplySession::Failed { .. } => None,
        }
    }

    /// Which operating-system call is owed now.
    pub fn pending_step(&self) -> (s: Option<ApplyStep>)
        ensures
            s == self.pending_spec(),
    {
        match self {
            ApplySession::AwaitMonitor { .. } => Some(ApplyStep::QueryMonitor),
            ApplySession::AwaitStyle { .. } => Some(ApplyStep::SetStyle),
            ApplySession::AwaitAdjust { .. } => Some(ApplyStep::AdjustRect),
            ApplySession::AwaitMove { .. } => Some(ApplyStep::SetPosition),
            ApplySession::Complete { .. } => None,
            ApplySession::Failed { .. } => None,
        }
    }

    /// Begins a transform: the first call owed is the monitor query.
    pub fn start(stay_on_top: bool) -> (s: Self)
        ensures
            s == (ApplySession::AwaitMonitor { stay_on_top }),
            s.pending_spec() == Some(ApplyStep::QueryMonitor),
    {
        ApplySession::AwaitMonitor { stay_on_top }
    }

    /// Answers the monitor query: the target becomes the monitor's full
    /// size at the origin, and the style replacement is owed next.
    pub fn monitor_found(self, monitor: &Rect) -> (s: Self)
        requires
            self is AwaitMonitor,
            monitor.wf(),
            monitor.spans_fit(),
        ensures
            s == (ApplySession::AwaitStyle {
                stay_on_top: self->AwaitMonitor_stay_on_top,
                target: target_rect_spec(*monitor),
            }),
    {
        match self {
            ApplySession::AwaitMonitor { stay_on_top } => ApplySession::AwaitStyle {
                stay_on_top,
                target: target_rect(monitor),
            },
            other => other,
        }
    }

    /// The style the style step must install.
    pub fn style_to_set(&self) -> (style: u32)
        requires
            self is AwaitStyle,
        ensures
            style == fullscreen_style_spec(),
    {
        fullscreen_style()
    }

    /// Records that the style was replaced; the frame adjustment of the
    /// target rectangle is owed next.
    pub fn style_set(self) -> (s: Self)
        requires
            self is AwaitStyle,
        ensures
            s == (ApplySession::AwaitAdjust {
                stay_on_top: self->AwaitStyle_stay_on_top,
                target: self->AwaitStyle_target,
            }),
    {
        match self {
            ApplySession::AwaitStyle { stay_on_top, target } => ApplySession::AwaitAdjust {
                stay_on_top,
                target,
            },
            other => other,
        }
    }

    /// The rectangle and the style the frame adjustment is asked about.
    pub fn adjust_request(&self) -> (r: (Rect, u32))
        requires
            self is AwaitAdjust,
        ensures
            r.0 == self->AwaitAdjust_target,
            r.1 == fullscreen_style_spec(),
    {
        match self {
            ApplySession::AwaitAdjust { target, .. } => (*target, fullscreen_style()),
            _ => (
                Rect { left: 0, top: 0, right: 0, bottom: 0 },
                fullscreen_style(),
            ),
        }
    }

    /// Answers the frame adjustment: the move to the adjusted rectangle's
    /// placement is owed next.
    pub fn rect_adjusted(self, adjusted: &Rect) -> (s: Self)
        requires
            self is AwaitAdjust,
            adjusted.wf(),
            adjusted.spans_fit(),
        ensures
            s == (ApplySession::AwaitMove {
                placement: placement_spec(*adjusted, self->AwaitAdjust_stay_on_top),
            }),
    {
        match self {
            ApplySession::AwaitAdjust { stay_on_top, .. } => ApplySession::AwaitMove {
                placement: placement_for(adjusted, stay_on_top),
            },
            other => other,
        }
    }

    /// The placement the move must command.
    pub fn placement(&self) -> (p: Placement)
        requires
            self is AwaitMove,
        ensures
            p == self->AwaitMove_placement,
    {
        match self {
            ApplySession::AwaitMove { placement } => *placement,
            _ => Placement { x: 0, y: 0, width: 0, height: 0, topmost: false, frame_change: true },
        }
    }

    /// Records that the window was moved: the transform is complete.
    pub fn position_set(self) -> (s: Self)
        requires
            self is AwaitMove,
        ensures
            s == (ApplySession::Complete { placement: self->AwaitMove_placement }),
    {
        match self {
            ApplySession::AwaitMove { placement } => ApplySession::Complete { placement },
            other => other,
        }
    }

    /// Records a failed operating-system call: the transform aborts at the
    /// pending step, carrying that step and the system error code; no
    /// later step runs and nothing is rolled back.
    pub fn os_failed(self, code: u32) -> (s: Self)
        requires
            self.pending_spec() is Some,
        ensures
            s == (ApplySession::Failed {
                error: ApplyError { step: self.pending_spec()->0, code },
            }),
    {
        let step = match self {
            ApplySession::AwaitMonitor { .. } => ApplyStep::QueryMonitor,
            ApplySession::AwaitStyle { .. } => ApplyStep::SetStyle,
            ApplySession::AwaitAdjust { .. } => ApplyStep::AdjustRect,
            ApplySession::AwaitMove { .. } => ApplyStep::SetPosition,
            ApplySession::Complete { .. } => ApplyStep::SetPosition,
            ApplySession::Failed { error } => error.step,
        };
        ApplySession::Failed { error: ApplyError { step, code } }
    }
}

/// The transform's bounds exactly cover the frame-adjusted target; and
/// when the frame metrics add nothing, they are exactly `[0, 0] x [W, H]`
/// for a monitor of width `W` and height `H`. The style installed holds
/// neither the caption nor any border bit.
pub proof fn lemma_transform_covers_monitor(monitor: Rect, adjusted: Rect, stay_on_top: bool)
    requires
        monitor.wf(),
        monitor.spans_fit(),
        adjusted.wf(),
        adjusted.spans_fit(),
    ensures
        ({
            let p = placement_spec(adjusted, stay_on_top);
            &&& p.x == adjusted.left
            &&& p.y == adjusted.top
            &&& p.x + p.width == adjusted.right
            &&& p.y + p.height == adjusted.bottom
        }),
        adjusted == target_rect_spec(monitor) ==> ({
            let p = placement_spec(adjusted, stay_on_top);
            &&& p.x == 0
            &&& p.y == 0
            &&& p.width == monitor.width()
            &&& p.height == monitor.height()
        }),
        fullscreen_style_spec() & WS_CAPTION == 0,
        fullscreen_style_spec() & WS_BORDER == 0,
        fullscreen_style_spec() & WS_THICKFRAME == 0,
{
    assert((0x8000_0000u32 | 0x1000_0000u32) & 0x00C0_0000u32 == 0) by (bit_vector);
    assert((0x8000_0000u32 | 0x1000_0000u32) & 0x0080_0000u32 == 0) by (bit_vector);
    assert((0x8000_0000u32 | 0x1000_0000u32) & 0x0004_0000u32 == 0) by (bit_vector);
}

/// Applying the transform with `stay_on_top` set leaves the always-on-top
/// bit set on the window's extended style; without it, the bit stays clear
/// on a window that was not already in the always-on-top band.
pub proof fn lemma_stay_on_top_bit(ex_style: u32, adjusted: Rect)
    ensures
        ex_style_after(ex_style, placement_spec(adjusted, true)) & WS_EX_TOPMOST != 0,
        ex_style & WS_EX_TOPMOST == 0 ==> ex_style_after(ex_style, placement_spec(adjusted, false))
            & WS_EX_TOPMOST == 0,
{
    assert((ex_style | 0x8u32) & 0x8u32 != 0) by (bit_vector);
}

} // verus!
