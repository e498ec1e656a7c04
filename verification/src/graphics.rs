//! Graphics context: the five-step protocol that builds the drawing factory,
//! the text factory, the text format, and the window-bound render target.
//!
//! Like the window locator, this is a state machine driven by the unverified
//! shell: [`StartupSession::pending`] names the next graphics call with its
//! arguments, [`StartupSession::advance`] takes the raw outcome.  The first
//! rejected creation moves the session to a terminal `Failed` state carrying
//! that step's error, and no later object is created.  The render target is
//! sized from the window's client rectangle as it stands at that moment; the
//! size is never re-queried afterwards.

use vstd::prelude::*;

use crate::overlay::OverlayError;

verus! {

/// State of one graphics-startup attempt.  Handles already created
/// accumulate in the state; `Complete` and `Failed` are terminal.
#[derive(Clone, Copy, Debug, PartialEq, Eq, Structural)]
pub enum StartupState {
    /// Waiting for the device-independent 2D drawing factory
    /// (single-threaded access mode).
    AwaitDrawingFactory,
    /// Waiting for the text-layout factory (process-shared mode).
    AwaitTextFactory { d2d_factory: u64 },
    /// Waiting for the text format built from the overlay's font.
    AwaitTextFormat { d2d_factory: u64, write_factory: u64 },
    /// Waiting for the read of the window's client rectangle.
    AwaitClientRect { d2d_factory: u64, write_factory: u64, format: u64 },
    /// Waiting for the render target bound to the window, sized to the
    /// client rectangle just read.
    AwaitRenderTarget { d2d_factory: u64, write_factory: u64, format: u64, width: u32, height: u32 },
    /// Every object was created.
    Complete { d2d_factory: u64, write_factory: u64, format: u64, target: u64, width: u32, height: u32 },
    /// A creation was rejected; no later object is created.
    Failed { error: OverlayError },
}

/// Raw outcome of one graphics call, as the shell observed it.  A handle of
/// `0` means the call was rejected.
#[derive(Clone, Copy, Debug, PartialEq, Eq, Structural)]
pub enum StartupEvent {
    DrawingFactoryCreated { handle: u64 },
    TextFactoryCreated { handle: u64 },
    TextFormatCreated { handle: u64 },
    /// The window's client rectangle.  This read has no failure mode of its
    /// own: whatever rectangle comes back sizes the render target.
    ClientRectRead { left: i32, top: i32, right: i32, bottom: i32 },
    RenderTargetCreated { handle: u64 },
}

/// The graphics call the shell must perform next.
#[derive(Clone, Copy, Debug, PartialEq, Eq, Structural)]
pub enum StartupAction {
    /// Create the 2D drawing factory with single-threaded access.
    CreateDrawingFactory,
    /// Create the text-layout factory in process-shared mode.
    CreateTextFactory,
    /// Build a text format from the overlay's font name and `size_milli`
    /// thousandths of a point, with a fixed locale and regular weight,
    /// style, and stretch.
    CreateTextFormat { size_milli: u32 },
    /// Read the window's current client rectangle.
    ReadClientRect { window: u64 },
    /// Create a render target bound to `window`, `width` by `height` pixels,
    /// premultiplied-alpha pixel format, default feature level and usage.
    CreateRenderTarget { window: u64, width: u32, height: u32 },
    /// The session is terminal; there is nothing to perform.
    Idle,
}

/// The side length a client rectangle spans from `lo` to `hi`, as a 32-bit
/// subtraction of the coordinates produces it: `hi - lo` when that is not
/// negative, and the same value wrapped into the unsigned 32-bit range
/// otherwise.
pub open spec fn rect_extent(lo: int, hi: int) -> int {
    if hi - lo >= 0 {
        hi - lo
    } else {
        hi - lo + 0x1_0000_0000
    }
}

/// One graphics-startup attempt against the window located earlier.
#[derive(Clone, Copy, Debug, PartialEq, Eq, Structural)]
pub struct StartupSession {
    /// The located window the render target will be bound to.
    pub window: u64,
    /// The font size the text format must be built with, in thousandths of
    /// a point.
    pub font_size_milli: u32,
    /// How far the attempt has come.
    pub state: StartupState,
}

impl StartupState {
    /// Terminal states accept no further event.
    pub open spec fn is_terminal(self) -> bool {
        self is Complete || self is Failed
    }

    /// Every handle recorded in the state is a created, non-null one.
    pub open spec fn wf(self) -> bool {
        match self {
            StartupState::AwaitDrawingFactory => true,
            StartupState::AwaitTextFactory { d2d_factory } => d2d_factory != 0,
            StartupState::AwaitTextFormat { d2d_factory, write_factory } => d2d_factory != 0
                && write_factory != 0,
            StartupState::AwaitClientRect { d2d_factory, write_factory, format } => d2d_factory != 0
                && write_factory != 0 && format != 0,
            StartupState::AwaitRenderTarget { d2d_factory, write_factory, format, .. } => d2d_factory != 0
                && write_factory != 0 && format != 0,
            StartupState::Complete { d2d_factory, write_factory, format, target, .. } => d2d_factory != 0
                && write_factory != 0 && format != 0 && target != 0,
            StartupState::Failed { .. } => true,
        }
    }

    /// Whether `ev` is the outcome of the call this state is waiting for.
    pub open spec fn expects(self, ev: StartupEvent) -> bool {
        match (self, ev) {
            (StartupState::AwaitDrawingFactory, StartupEvent::DrawingFactoryCreated { .. }) => true,
            (StartupState::AwaitTextFactory { .. }, StartupEvent::TextFactoryCreated { .. }) => true,
            (StartupState::AwaitTextFormat { .. }, StartupEvent::TextFormatCreated { .. }) => true,
            (StartupState::AwaitClientRect { .. }, StartupEvent::ClientRectRead { .. }) => true,
            (StartupState::AwaitRenderTarget { .. }, StartupEvent::RenderTargetCreated { .. }) => true,
            _ => false,
        }
    }

    /// The transition relation.  A rejected creation yields `Failed` with
    /// that step's own error; the client-rectangle read always moves on,
    /// recording the rectangle's extent as the render-target size.
    pub open spec fn step(self, ev: StartupEvent) -> Self {
        match (self, ev) {
            (StartupState::AwaitDrawingFactory, StartupEvent::DrawingFactoryCreated { handle }) => if handle == 0 {
                StartupState::Failed { error: OverlayError::ID2D1FactoryFailed }
            } else {
                StartupState::AwaitTextFactory { d2d_factory: handle }
            },
            (StartupState::AwaitTextFactory { d2d_factory }, StartupEvent::TextFactoryCreated { handle }) => if handle == 0 {
                StartupState::Failed { error: OverlayError::IDWriteFactoryFailed }
            } else {
                StartupState::AwaitTextFormat { d2d_factory, write_factory: handle }
            },
            (StartupState::AwaitTextFormat { d2d_factory, write_factory }, StartupEvent::TextFormatCreated { handle }) => if handle == 0 {
                StartupState::Failed { error: OverlayError::IDWriteTextFormatFailed }
            } else {
                StartupState::AwaitClientRect { d2d_factory, write_factory, format: handle }
            },
            (StartupState::AwaitClientRect { d2d_factory, write_factory, format }, StartupEvent::ClientRectRead { left, top, right, bottom }) => StartupState::AwaitRenderTarget {
                d2d_factory,
                write_factory,
                format,
                width: rect_extent(left as int, right as int) as u32,
                height: rect_extent(top as int, bottom as int) as u32,
            },
            (StartupState::AwaitRenderTarget { d2d_factory, write_factory, format, width, height }, StartupEvent::RenderTargetCreated { handle }) => if handle == 0 {
                StartupState::Failed { error: OverlayError::StartupD2DFailed }
            } else {
                StartupState::Complete { d2d_factory, write_factory, format, target: handle, width, height }
            },
            _ => self,
        }
    }
}

impl StartupSession {
    /// The call the shell must perform next, or `Idle` when the session is
    /// terminal.  The text format is built from the overlay's font name and
    /// this session's `font_size_milli`.
    pub open spec fn next_action_spec(self) -> StartupAction {
        match self.state {
            StartupState::AwaitDrawingFactory => StartupAction::CreateDrawingFactory,
            StartupState::AwaitTextFactory { .. } => StartupAction::CreateTextFactory,
            StartupState::AwaitTextFormat { .. } => StartupAction::CreateTextFormat {
                size_milli: self.font_size_milli,
            },
            StartupState::AwaitClientRect { .. } => StartupAction::ReadClientRect { window: self.window },
            StartupState::AwaitRenderTarget { width, height, .. } => StartupAction::CreateRenderTarget {
                window: self.window,
                width,
                height,
            },
            StartupState::Complete { .. } => StartupAction::Idle,
            StartupState::Failed { .. } => StartupAction::Idle,
        }
    }

    /// See [`Self::next_action_spec`].
    pub fn pending(&self) -> (a: StartupAction)
        ensures
            a == self.next_action_spec(),
    {
        match self.state {
            StartupState::AwaitDrawingFactory => StartupAction::CreateDrawingFactory,
            StartupState::AwaitTextFactory { .. } => StartupAction::CreateTextFactory,
            StartupState::AwaitTextFormat { .. } => StartupAction::CreateTextFormat {
                size_milli: self.font_size_milli,
            },
            StartupState::AwaitClientRect { .. } => StartupAction::ReadClientRect { window: self.window },
            StartupState::AwaitRenderTarget { width, height, .. } => StartupAction::CreateRenderTarget {
                window: self.window,
                width,
                height,
            },
            StartupState::Complete { .. } => StartupAction::Idle,
            StartupState::Failed { .. } => StartupAction::Idle,
        }
    }

    /// Feeds the outcome of the pending call back into the session.
    pub fn advance(self, ev: StartupEvent) -> (next: Self)
        requires
            self.state.expects(ev),
        ensures
            next.state == self.state.step(ev),
            next.window == self.window,
            next.font_size_milli == self.font_size_milli,
    {
        let state = match (self.state, ev) {
            (StartupState::AwaitDrawingFactory, StartupEvent::DrawingFactoryCreated { handle }) => if handle == 0 {
                StartupState::Failed { error: OverlayError::ID2D1FactoryFailed }
            } else {
                StartupState::AwaitTextFactory { d2d_factory: handle }
            },
            (StartupState::AwaitTextFactory { d2d_factory }, StartupEvent::TextFactoryCreated { handle }) => if handle == 0 {
                StartupState::Failed { error: OverlayError::IDWriteFactoryFailed }
            } else {
                StartupState::AwaitTextFormat { d2d_factory, write_factory: handle }
            },
            (StartupState::AwaitTextFormat { d2d_factory, write_factory }, StartupEvent::TextFormatCreated { handle }) => if handle == 0 {
                StartupState::Failed { error: OverlayError::IDWriteTextFormatFailed }
            } else {
                StartupState::AwaitClientRect { d2d_factory, write_factory, format: handle }
            },
            (StartupState::AwaitClientRect { d2d_factory, write_factory, format }, StartupEvent::ClientRectRead { left, top, right, bottom }) => {
                StartupState::AwaitRenderTarget {
                    d2d_factory,
                    write_factory,
                    format,
                    width: client_extent(left, right),
                    height: client_extent(top, bottom),
                }
            },
            (StartupState::AwaitRenderTarget { d2d_factory, write_factory, format, width, height }, StartupEvent::RenderTargetCreated { handle }) => if handle == 0 {
                StartupState::Failed { error: OverlayError::StartupD2DFailed }
            } else {
                StartupState::Complete { d2d_factory, write_factory, format, target: handle, width, height }
            },
            (s, _) => s,
        };
        StartupSession { state, ..self }
    }

    /// Whether the session has reached a terminal state.
    pub fn done(&self) -> (b: bool)
        ensures
            b == self.state.is_terminal(),
    {
        match self.state {
            StartupState::Complete { .. } => true,
            StartupState::Failed { .. } => true,
            _ => false,
        }
    }
}

/// The pixel span of a client rectangle from coordinate `lo` to `hi`, as a
/// 32-bit reinterpretation of their difference.
fn client_extent(lo: i32, hi: i32) -> (w: u32)
    ensures
        w == rect_extent(lo as int, hi as int),
        lo <= hi ==> w == hi - lo,
{
    let d: i64 = hi as i64 - lo as i64;
    if d >= 0 {
        d as u32
    } else {
        (d + 0x1_0000_0000i64) as u32
    }
}

/// Once a creation has been rejected, the session accepts no further event:
/// no object downstream of the failing step is ever created.
pub proof fn lemma_failure_stops_startup(s: StartupState, ev: StartupEvent)
    requires
        s.is_terminal(),
    ensures
        !s.expects(ev),
        s.step(ev) == s,
{
}

/// Every transition keeps the recorded handles non-null.
pub proof fn lemma_step_preserves_wf(s: StartupState, ev: StartupEvent)
    requires
        s.wf(),
    ensures
        s.step(ev).wf(),
{
}

/// No step of the startup can be skipped: each state is reached only from
/// the state one step before it, so a completed session has created the
/// drawing factory, the text factory, the text format, and the render
/// target, in that order, with the client rectangle read in between.
pub proof fn lemma_no_step_skipped(s: StartupState, ev: StartupEvent)
    ensures
        s.step(ev) is AwaitTextFactory ==> s is AwaitTextFactory || s is AwaitDrawingFactory,
        s.step(ev) is AwaitTextFormat ==> s is AwaitTextFormat || s is AwaitTextFactory,
        s.step(ev) is AwaitClientRect ==> s is AwaitClientRect || s is AwaitTextFormat,
        s.step(ev) is AwaitRenderTarget ==> s is AwaitRenderTarget || s is AwaitClientRect,
        s.step(ev) is Complete ==> s is Complete || (s is AwaitRenderTarget
            && (ev matches StartupEvent::RenderTargetCreated { handle } && handle != 0)),
{
}

} // verus!
