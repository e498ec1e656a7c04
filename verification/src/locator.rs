//! Window locator: the seven-step protocol that finds the foreign window by
//! its fixed class and title and mutates it into a transparent, click-through,
//! topmost overlay surface.
//!
//! The locator is a state machine.  [`InitSession::pending`] names the one
//! operating-system call that must be performed next, together with its
//! arguments; the unverified shell performs it and hands the raw outcome back
//! through [`InitSession::advance`].  On the first refused call the session
//! moves to [`InitSession::Failed`] with that step's error and accepts no
//! further event: no later step executes, and mutations already applied to
//! the window are not rolled back.

use vstd::prelude::*;

use crate::overlay::OverlayError;

verus! {

/// Class name of the fixed target window descriptor.
pub open spec fn target_class_spec() -> Seq<char> {
    "CEF-OSC-WIDGET"@
}

/// Title of the fixed target window descriptor.
pub open spec fn target_title_spec() -> Seq<char> {
    "NVIDIA GeForce Overlay"@
}

/// The class name the `FindWindow` action must be performed with.
pub fn target_class() -> (s: String)
    ensures
        s@ == target_class_spec(),
{
    String::from_str("CEF-OSC-WIDGET")
}

/// The window title the `FindWindow` action must be performed with.
pub fn target_title() -> (s: String)
    ensures
        s@ == target_title_spec(),
{
    String::from_str("NVIDIA GeForce Overlay")
}

/// State of one locate attempt.  Each `Await` state stands for exactly one
/// pending operating-system call; `Complete` and `Failed` are terminal.
#[derive(Clone, Copy, Debug, PartialEq, Eq, Structural)]
pub enum InitSession {
    /// Waiting for the window lookup by class and title.
    AwaitWindow,
    /// Waiting for the read of the window's extended style attributes.
    AwaitStyle { window: u64 },
    /// Waiting for the write of `style` (the read attributes with the
    /// transparency bit added) back to the window.
    AwaitStyleWrite { window: u64, style: i32 },
    /// Waiting for the window frame to be extended into the client area.
    AwaitFrameExtend { window: u64 },
    /// Waiting for the layered-window transparency attributes to be set.
    AwaitLayered { window: u64 },
    /// Waiting for the window to be raised to the topmost band.
    AwaitZOrder { window: u64 },
    /// Waiting for the window to be made visible.
    AwaitShow { window: u64 },
    /// Every step succeeded; `window` is the located handle.
    Complete { window: u64 },
    /// A step was refused; no further step executes.
    Failed { error: OverlayError },
}

/// Raw outcome of one operating-system call, as the shell observed it.
#[derive(Clone, Copy, Debug, PartialEq, Eq, Structural)]
pub enum InitEvent {
    /// Result of the window lookup; `0` means no window matched.
    WindowFound { handle: u64 },
    /// Result of the style read; `0` means the read was rejected.
    StyleRead { style: i32 },
    /// Result of the style write: the previous value, `0` on rejection.
    StyleWritten { previous: isize },
    /// Result code of the frame extension; nonzero means rejection.
    FrameExtended { hresult: i32 },
    /// Result of setting the layered attributes; `0` means rejection.
    LayeredSet { ok: i32 },
    /// Result of the Z-order change; `0` means rejection.
    ZOrderSet { ok: i32 },
    /// Result of showing the window; `0` means rejection.
    Shown { ok: i32 },
}

/// The operating-system call the shell must perform next.
#[derive(Clone, Copy, Debug, PartialEq, Eq, Structural)]
pub enum InitAction {
    /// Look the window up by [`target_class`] and [`target_title`].
    FindWindow,
    /// Read the window's extended style attributes.
    ReadStyle { window: u64 },
    /// Write `style` as the window's extended style attributes.
    WriteStyle { window: u64, style: i32 },
    /// Extend the window's frame into its whole client area (a margin of
    /// `-1` on every side).
    ExtendFrame { window: u64 },
    /// Set the layered-window attributes: transparent color key,
    /// opacity `alpha`, and the given mode flags.
    SetLayeredAttributes { window: u64, color_key: u32, alpha: u8, flags: u32 },
    /// Raise the window to the topmost Z-band without moving or resizing it.
    RaiseTopmost { window: u64 },
    /// Make the window visible.
    Show { window: u64 },
    /// The session is terminal; there is nothing to perform.
    Idle,
}

/// The extended-style bit that makes the window transparent to input.
pub const OVERLAY_STYLE_BIT: i32 = 0x20;

impl InitSession {
    /// The state every locate attempt starts in.
    pub open spec fn initial() -> Self {
        InitSession::AwaitWindow
    }

    /// Terminal states accept no further event.
    pub open spec fn is_terminal(self) -> bool {
        self is Complete || self is Failed
    }

    /// A window handle recorded in the session is never the null handle.
    pub open spec fn wf(self) -> bool {
        match self {
            InitSession::AwaitWindow => true,
            InitSession::AwaitStyle { window } => window != 0,
            InitSession::AwaitStyleWrite { window, .. } => window != 0,
            InitSession::AwaitFrameExtend { window } => window != 0,
            InitSession::AwaitLayered { window } => window != 0,
            InitSession::AwaitZOrder { window } => window != 0,
            InitSession::AwaitShow { window } => window != 0,
            InitSession::Complete { window } => window != 0,
            InitSession::Failed { .. } => true,
        }
    }

    /// Whether `ev` is the outcome of the call this state is waiting for.
    pub open spec fn expects(self, ev: InitEvent) -> bool {
        match (self, ev) {
            (InitSession::AwaitWindow, InitEvent::WindowFound { .. }) => true,
            (InitSession::AwaitStyle { .. }, InitEvent::StyleRead { .. }) => true,
            (InitSession::AwaitStyleWrite { .. }, InitEvent::StyleWritten { .. }) => true,
            (InitSession::AwaitFrameExtend { .. }, InitEvent::FrameExtended { .. }) => true,
            (InitSession::AwaitLayered { .. }, InitEvent::LayeredSet { .. }) => true,
            (InitSession::AwaitZOrder { .. }, InitEvent::ZOrderSet { .. }) => true,
            (InitSession::AwaitShow { .. }, InitEvent::Shown { .. }) => true,
            _ => false,
        }
    }

    /// The transition relation: how the state waiting for a call moves on
    /// the call's outcome.  A rejected call yields the `Failed` state with
    /// that step's own error; a terminal state is left unchanged.
    pub open spec fn step(self, ev: InitEvent) -> Self {
        match (self, ev) {
            (InitSession::AwaitWindow, InitEvent::WindowFound { handle }) => if handle == 0 {
                InitSession::Failed { error: OverlayError::WindowNotFound }
            } else {
                InitSession::AwaitStyle { window: handle }
            },
            (InitSession::AwaitStyle { window }, InitEvent::StyleRead { style }) => if style == 0 {
                InitSession::Failed { error: OverlayError::FailedToGetWindowLong }
            } else {
                InitSession::AwaitStyleWrite { window, style: style | OVERLAY_STYLE_BIT }
            },
            (InitSession::AwaitStyleWrite { window, .. }, InitEvent::StyleWritten { previous }) => if previous == 0 {
                InitSession::Failed { error: OverlayError::FailedToSetWindowLong }
            } else {
                InitSession::AwaitFrameExtend { window }
            },
            (InitSession::AwaitFrameExtend { window }, InitEvent::FrameExtended { hresult }) => if hresult != 0 {
                InitSession::Failed { error: OverlayError::FailedToExtendFrame }
            } else {
                InitSession::AwaitLayered { window }
            },
            (InitSession::AwaitLayered { window }, InitEvent::LayeredSet { ok }) => if ok == 0 {
                InitSession::Failed { error: OverlayError::FailedSetLayeredWindowAttributes }
            } else {
                InitSession::AwaitZOrder { window }
            },
            (InitSession::AwaitZOrder { window }, InitEvent::ZOrderSet { ok }) => if ok == 0 {
                InitSession::Failed { error: OverlayError::FailedToSetWindowPos }
            } else {
                InitSession::AwaitShow { window }
            },
            (InitSession::AwaitShow { window }, InitEvent::Shown { ok }) => if ok == 0 {
                InitSession::Failed { error: OverlayError::ShowWindowFailed }
            } else {
                InitSession::Complete { window }
            },
            _ => self,
        }
    }

    /// The call a state is waiting for, with its arguments.  The layered
    /// attributes are fixed: color key `0`, opacity `255`, mode flags `2`.
    pub open spec fn next_action_spec(self) -> InitAction {
        match self {
            InitSession::AwaitWindow => InitAction::FindWindow,
            InitSession::AwaitStyle { window } => InitAction::ReadStyle { window },
            InitSession::AwaitStyleWrite { window, style } => InitAction::WriteStyle { window, style },
            InitSession::AwaitFrameExtend { window } => InitAction::ExtendFrame { window },
            InitSession::AwaitLayered { window } => InitAction::SetLayeredAttributes {
                window,
                color_key: 0,
                alpha: 0xFF,
                flags: 0x02,
            },
            InitSession::AwaitZOrder { window } => InitAction::RaiseTopmost { window },
            InitSession::AwaitShow { window } => InitAction::Show { window },
            InitSession::Complete { .. } => InitAction::Idle,
            InitSession::Failed { .. } => InitAction::Idle,
        }
    }

    /// Starts a locate attempt.
    pub fn new() -> (s: Self)
        ensures
            s == Self::initial(),
    {
        InitSession::AwaitWindow
    }

    /// The call the shell must perform next, or `Idle` when the session is
    /// terminal.
    pub fn pending(&self) -> (a: InitAction)
        ensures
            a == self.next_action_spec(),
    {
        match *self {
            InitSession::AwaitWindow => InitAction::FindWindow,
            InitSession::AwaitStyle { window } => InitAction::ReadStyle { window },
            InitSession::AwaitStyleWrite { window, style } => InitAction::WriteStyle { window, style },
            InitSession::AwaitFrameExtend { window } => InitAction::ExtendFrame { window },
            InitSession::AwaitLayered { window } => InitAction::SetLayeredAttributes {
                window,
                color_key: 0,
                alpha: 0xFF,
                flags: 0x02,
            },
            InitSession::AwaitZOrder { window } => InitAction::RaiseTopmost { window },
            InitSession::AwaitShow { window } => InitAction::Show { window },
            InitSession::Complete { .. } => InitAction::Idle,
            InitSession::Failed { .. } => InitAction::Idle,
        }
    }

    /// Feeds the outcome of the pending call back into the session.
    pub fn advance(self, ev: InitEvent) -> (next: Self)
        requires
            self.expects(ev),
        ensures
            next == self.step(ev),
    {
        match (self, ev) {
            (InitSession::AwaitWindow, InitEvent::WindowFound { handle }) => if handle == 0 {
                InitSession::Failed { error: OverlayError::WindowNotFound }
            } else {
                InitSession::AwaitStyle { window: handle }
            },
            (InitSession::AwaitStyle { window }, InitEvent::StyleRead { style }) => if style == 0 {
                InitSession::Failed { error: OverlayError::FailedToGetWindowLong }
            } else {
                InitSession::AwaitStyleWrite { window, style: style | OVERLAY_STYLE_BIT }
            },
            (InitSession::AwaitStyleWrite { window, .. }, InitEvent::StyleWritten { previous }) => if previous == 0 {
                InitSession::Failed { error: OverlayError::FailedToSetWindowLong }
            } else {
                InitSession::AwaitFrameExtend { window }
            },
            (InitSession::AwaitFrameExtend { window }, InitEvent::FrameExtended { hresult }) => if hresult != 0 {
                InitSession::Failed { error: OverlayError::FailedToExtendFrame }
            } else {
                InitSession::AwaitLayered { window }
            },
            (InitSession::AwaitLayered { window }, InitEvent::LayeredSet { ok }) => if ok == 0 {
                InitSession::Failed { error: OverlayError::FailedSetLayeredWindowAttributes }
            } else {
                InitSession::AwaitZOrder { window }
            },
            (InitSession::AwaitZOrder { window }, InitEvent::ZOrderSet { ok }) => if ok == 0 {
                InitSession::Failed { error: OverlayError::FailedToSetWindowPos }
            } else {
                InitSession::AwaitShow { window }
            },
            (InitSession::AwaitShow { window }, InitEvent::Shown { ok }) => if ok == 0 {
                InitSession::Failed { error: OverlayError::ShowWindowFailed }
            } else {
                InitSession::Complete { window }
            },
            (s, _) => s,
        }
    }

    /// Whether the session has reached a terminal state.
    pub fn done(&self) -> (b: bool)
        ensures
            b == self.is_terminal(),
    {
        match self {
            InitSession::Complete { .. } => true,
            InitSession::Failed { .. } => true,
            _ => false,
        }
    }
}

/// A locate attempt against a descriptor no window matches fails at the
/// first step with `WindowNotFound`, before any mutation of the desktop.
pub proof fn lemma_no_match_fails_first(handle: u64)
    requires
        handle == 0,
    ensures
        InitSession::initial().step(InitEvent::WindowFound { handle })
            == (InitSession::Failed { error: OverlayError::WindowNotFound }),
{
}

/// Once a step has been refused, the session accepts no further event: no
/// later step of the protocol executes.
pub proof fn lemma_failure_stops_protocol(s: InitSession, ev: InitEvent)
    requires
        s.is_terminal(),
    ensures
        !s.expects(ev),
        s.step(ev) == s,
{
}

/// Every transition keeps the recorded window handle non-null.
pub proof fn lemma_step_preserves_wf(s: InitSession, ev: InitEvent)
    requires
        s.wf(),
    ensures
        s.step(ev).wf(),
{
}

/// No step of the protocol can be skipped: each state is reached only from
/// the state one step before it, so a completed session has passed through
/// all seven steps in order, each with a successful outcome.
pub proof fn lemma_no_step_skipped(s: InitSession, ev: InitEvent)
    ensures
        s.step(ev) is AwaitStyle ==> s is AwaitStyle || s is AwaitWindow,
        s.step(ev) is AwaitStyleWrite ==> s is AwaitStyleWrite || s is AwaitStyle,
        s.step(ev) is AwaitFrameExtend ==> s is AwaitFrameExtend || s is AwaitStyleWrite,
        s.step(ev) is AwaitLayered ==> s is AwaitLayered || s is AwaitFrameExtend,
        s.step(ev) is AwaitZOrder ==> s is AwaitZOrder || s is AwaitLayered,
        s.step(ev) is AwaitShow ==> s is AwaitShow || s is AwaitZOrder,
        s.step(ev) is Complete ==> s is Complete || (s is AwaitShow && (ev matches InitEvent::Shown {
            ok,
        } && ok != 0)),
{
}

} // verus!
