//! The overlay aggregate: a non-owning reference to the foreign window plus
//! the graphics objects bound to it, with the public lifecycle.

use vstd::prelude::*;

use crate::graphics::StartupSession;
use crate::graphics::StartupState;
use crate::locator::InitSession;
use crate::overlay_helper::OverlayHelper;
use crate::scene::SceneOp;
use crate::scene::lemma_live_push;
use crate::scene::resources_balanced;

verus! {

/// One failure kind per distinct operating-system or graphics call that the
/// lifecycle can be refused by.  Setup steps each map to their own variant so
/// that a caller can tell which precondition failed.
#[derive(Clone, Copy, Debug, PartialEq, Eq, Structural)]
pub enum OverlayError {
    WindowNotFound,
    FailedToGetWindowLong,
    FailedToSetWindowLong,
    FailedToExtendFrame,
    FailedSetLayeredWindowAttributes,
    FailedToSetWindowPos,
    ShowWindowFailed,

    ID2D1FactoryFailed,
    StartupD2DFailed,
    IDWriteFactoryFailed,
    IDWriteTextFormatFailed,

    NoRenderTarget,
    DrawFailed,
    GetWindowRectFailed,
    GetWriteTextFormatFailed,
    DrawTextFailed(i32),
    CreateBrushFailed(i32),
    CreateSolidColorBrushFailed,
    ID2D1BrushCastFailed,
}

/// The window-bound drawing surface.  Its dimensions are fixed at creation
/// time from the window's client rectangle at that instant and are never
/// re-queried afterwards, so a later window resize leaves them stale.
#[derive(Clone, Copy, Debug, PartialEq, Eq, Structural)]
pub struct RenderTarget {
    /// Identifier of the surface held by the unverified shell.
    pub handle: u64,
    /// Client-area width at creation time, in pixels.
    pub width: u32,
    /// Client-area height at creation time, in pixels.
    pub height: u32,
}

/// The aggregate root.
///
/// `window` is a non-owning reference to a foreign window; it is present only
/// after a fully successful locate step.  The four graphics objects are
/// either all absent or all present together: they are populated exactly by a
/// successful [`Overlay::startup_d2d`] and cleared only by
/// [`Overlay::teardown`].  Handles are opaque identifiers for objects that
/// the unverified shell owns; the library only decides when each one may be
/// created, used, and released.
pub struct Overlay {
    /// Handle of the located foreign window, if the locate step succeeded.
    pub window: Option<u64>,
    /// Device-independent 2D drawing factory.
    pub d2d_factory: Option<u64>,
    /// Window-bound render target.
    pub tar: Option<RenderTarget>,
    /// Text-layout factory.
    pub write_factory: Option<u64>,
    /// Text format derived from the font configuration.
    pub format: Option<u64>,
    /// Font family name, captured at construction and immutable afterwards.
    pub font: String,
    /// Font size in thousandths of a point, captured at construction.
    pub font_size_milli: u32,
    /// Whether a draw batch is open on the render target.
    pub in_frame: bool,
}

impl Overlay {
    /// The graphics objects stand or fall together, and a draw batch can only
    /// be open while the render target exists.
    pub open spec fn wf(self) -> bool {
        &&& (self.d2d_factory is Some) == (self.tar is Some)
        &&& (self.write_factory is Some) == (self.tar is Some)
        &&& (self.format is Some) == (self.tar is Some)
        &&& (self.in_frame ==> self.tar is Some)
    }

    /// Constructs an overlay holding only the font configuration.  No window
    /// is referenced and no graphics object exists yet, so construction
    /// involves no outside call at all.
    pub fn new(font: &str, size_milli: u32) -> (ov: Self)
        ensures
            ov.window is None,
            ov.tar is None,
            ov.d2d_factory is None,
            ov.write_factory is None,
            ov.format is None,
            !ov.in_frame,
            ov.font@ == font@,
            ov.font_size_milli == size_milli,
            ov.wf(),
    {
        Overlay {
            window: None,
            d2d_factory: None,
            tar: None,
            write_factory: None,
            format: None,
            font: String::from_str(font),
            font_size_milli: size_milli,
            in_frame: false,
        }
    }

    /// Applies a finished locate attempt (see [`crate::locator`]) to the
    /// overlay.  A completed session marks the located window; a failed one
    /// surfaces its step's error and leaves no window marked.  The graphics
    /// objects are untouched either way.
    pub fn init(&mut self, session: InitSession) -> (r: Result<(), OverlayError>)
        requires
            session.is_terminal(),
            session.wf(),
        ensures
            final(self).d2d_factory == old(self).d2d_factory,
            final(self).tar == old(self).tar,
            final(self).write_factory == old(self).write_factory,
            final(self).format == old(self).format,
            final(self).font == old(self).font,
            final(self).font_size_milli == old(self).font_size_milli,
            final(self).in_frame == old(self).in_frame,
            session matches InitSession::Complete { window } ==> r == Ok::<(), OverlayError>(())
                && final(self).window == Some(window) && window != 0,
            session matches InitSession::Failed { error } ==> r == Err::<(), OverlayError>(error)
                && final(self).window is None,
            old(self).wf() ==> final(self).wf(),
    {
        match session {
            InitSession::Complete { window } => {
                self.window = Some(window);
                Ok(())
            },
            InitSession::Failed { error } => {
                self.window = None;
                Err(error)
            },
            _ => vstd::pervasive::unreached(),
        }
    }

    /// Starts a graphics-startup attempt against the located window.  The
    /// locate step must have succeeded first: without a window there is
    /// nothing a render target could be bound to, so the protocol cannot
    /// even reach its render-target step.
    pub fn startup_begin(&self) -> (s: StartupSession)
        requires
            self.window is Some,
        ensures
            Some(s.window) == self.window,
            s.font_size_milli == self.font_size_milli,
            s.state == StartupState::AwaitDrawingFactory,
    {
        StartupSession {
            window: self.window.unwrap(),
            font_size_milli: self.font_size_milli,
            state: StartupState::AwaitDrawingFactory,
        }
    }

    /// Applies a finished graphics-startup attempt to the overlay.
    ///
    /// On a completed session all four graphics objects are populated
    /// together, atomically from the caller's point of view.  On a failed
    /// one nothing is assigned: whatever objects the overlay held before
    /// remain as they were.  Running the operation again after success
    /// replaces all four objects; the shell must release each replaced
    /// handle, so nothing leaks, though the previously computed render
    /// target size is discarded.
    pub fn startup_d2d(&mut self, session: StartupSession) -> (r: Result<(), OverlayError>)
        requires
            old(self).window == Some(session.window),
            session.state.is_terminal(),
            session.state.wf(),
        ensures
            final(self).window == old(self).window,
            final(self).font == old(self).font,
            final(self).font_size_milli == old(self).font_size_milli,
            final(self).in_frame == old(self).in_frame,
            session.state matches StartupState::Complete { d2d_factory, write_factory, format, target, width, height }
                ==> r == Ok::<(), OverlayError>(())
                    && final(self).d2d_factory == Some(d2d_factory)
                    && final(self).write_factory == Some(write_factory)
                    && final(self).format == Some(format)
                    && final(self).tar == Some((RenderTarget { handle: target, width, height })),
            session.state matches StartupState::Failed { error }
                ==> r == Err::<(), OverlayError>(error)
                    && final(self).d2d_factory == old(self).d2d_factory
                    && final(self).tar == old(self).tar
                    && final(self).write_factory == old(self).write_factory
                    && final(self).format == old(self).format,
            old(self).wf() ==> final(self).wf(),
    {
        match session.state {
            StartupState::Complete { d2d_factory, write_factory, format, target, width, height } => {
                self.d2d_factory = Some(d2d_factory);
                self.write_factory = Some(write_factory);
                self.format = Some(format);
                self.tar = Some(RenderTarget { handle: target, width, height });
                Ok(())
            },
            StartupState::Failed { error } => Err(error),
            _ => vstd::pervasive::unreached(),
        }
    }

    /// Starts a draw batch if the render target exists, and is deliberately
    /// a silent no-op if it does not — asymmetric from the other scene
    /// calls, which treat a missing render target as a contract violation.
    pub fn begin_scene(&mut self) -> (ops: Vec<SceneOp>)
        ensures
            final(self).window == old(self).window,
            final(self).d2d_factory == old(self).d2d_factory,
            final(self).tar == old(self).tar,
            final(self).write_factory == old(self).write_factory,
            final(self).format == old(self).format,
            final(self).font == old(self).font,
            final(self).font_size_milli == old(self).font_size_milli,
            old(self).tar is Some ==> final(self).in_frame && ops@ == seq![SceneOp::BeginDraw],
            old(self).tar is None ==> *final(self) == *old(self) && ops@ == Seq::<SceneOp>::empty(),
            resources_balanced(ops@),
            old(self).wf() ==> final(self).wf(),
    {
        let mut ops: Vec<SceneOp> = Vec::new();
        if self.tar.is_some() {
            ops.push(SceneOp::BeginDraw);
            self.in_frame = true;
            proof {
                lemma_live_push(Seq::<SceneOp>::empty(), SceneOp::BeginDraw);
                assert(ops@ =~= seq![SceneOp::BeginDraw]);
            }
        }
        ops
    }

    /// Ends the draw batch, presenting it to the window.  Requires the
    /// render target: calling this before a successful startup is a
    /// contract violation.
    pub fn end_scene(&mut self) -> (ops: Vec<SceneOp>)
        requires
            old(self).tar is Some,
        ensures
            final(self).window == old(self).window,
            final(self).d2d_factory == old(self).d2d_factory,
            final(self).tar == old(self).tar,
            final(self).write_factory == old(self).write_factory,
            final(self).format == old(self).format,
            final(self).font == old(self).font,
            final(self).font_size_milli == old(self).font_size_milli,
            !final(self).in_frame,
            ops@ == seq![SceneOp::EndDraw],
            resources_balanced(ops@),
            old(self).wf() ==> final(self).wf(),
    {
        let mut ops: Vec<SceneOp> = Vec::new();
        ops.push(SceneOp::EndDraw);
        self.in_frame = false;
        proof {
            lemma_live_push(Seq::<SceneOp>::empty(), SceneOp::EndDraw);
            assert(ops@ =~= seq![SceneOp::EndDraw]);
        }
        ops
    }

    /// Clears the whole render target to the transparent clear value.
    /// Requires the render target, in or out of a draw batch.
    pub fn clear_scene(&mut self) -> (ops: Vec<SceneOp>)
        requires
            old(self).tar is Some,
        ensures
            *final(self) == *old(self),
            ops@ == seq![SceneOp::Clear],
            resources_balanced(ops@),
    {
        let mut ops: Vec<SceneOp> = Vec::new();
        ops.push(SceneOp::Clear);
        proof {
            lemma_live_push(Seq::<SceneOp>::empty(), SceneOp::Clear);
            assert(ops@ =~= seq![SceneOp::Clear]);
        }
        ops
    }

    /// Draws `text` at `pos` in `color`: one transient text layout and one
    /// transient brush are acquired for the single draw command and both
    /// are released again before the call returns.  Requires an open draw
    /// batch, which requires the render target.
    pub fn draw_text(&mut self, pos: (i32, i32), text: String, color: (u8, u8, u8, u8)) -> (ops: Vec<SceneOp>)
        requires
            old(self).wf(),
            old(self).in_frame,
        ensures
            *final(self) == *old(self),
            ops@.len() == 5,
            ops@[0] matches SceneOp::CreateTextLayout { text: t } && t@ == text@,
            ops@[1] == (SceneOp::CreateBrush { r: color.0, g: color.1, b: color.2, a: color.3 }),
            ops@[2] == (SceneOp::DrawTextLayout { x: pos.0, y: pos.1 }),
            ops@[3] == SceneOp::ReleaseBrush,
            ops@[4] == SceneOp::ReleaseTextLayout,
            resources_balanced(ops@),
    {
        let layout = self.create_text_layout(text.as_str());
        let ghost l = layout;
        let mut ops: Vec<SceneOp> = Vec::new();
        let ghost s0 = ops@;
        ops.push(layout);
        let mut middle = self.draw_element(color, SceneOp::DrawTextLayout { x: pos.0, y: pos.1 });
        let ghost m = middle@;
        ops.append(&mut middle);
        let ghost s2 = ops@;
        ops.push(SceneOp::ReleaseTextLayout);
        proof {
            lemma_live_push(s0, l);
            crate::scene::lemma_live_counts_concat(s0.push(l), m);
            lemma_live_push(s2, SceneOp::ReleaseTextLayout);
            assert(ops@[0] == l);
            assert(ops@[1] == m[0]);
            assert(ops@[2] == m[1]);
            assert(ops@[3] == m[2]);
        }
        ops
    }

    /// Draws the outline of the rectangle from `pos` to `pos + size` with
    /// the given stroke width (in thousandths of a pixel) and `color`,
    /// through the same scoped-brush template as `draw_text`.  Requires an
    /// open draw batch, which requires the render target.
    pub fn draw_rect(&mut self, pos: (i32, i32), size: (i32, i32), stroke_milli: u32, color: (u8, u8, u8, u8)) -> (ops: Vec<SceneOp>)
        requires
            old(self).wf(),
            old(self).in_frame,
            i32::MIN <= pos.0 + size.0 <= i32::MAX,
            i32::MIN <= pos.1 + size.1 <= i32::MAX,
        ensures
            *final(self) == *old(self),
            ops@ == seq![
                (SceneOp::CreateBrush { r: color.0, g: color.1, b: color.2, a: color.3 }),
                (SceneOp::DrawRectangle {
                    left: pos.0,
                    top: pos.1,
                    right: (pos.0 + size.0) as i32,
                    bottom: (pos.1 + size.1) as i32,
                    stroke_milli,
                }),
                SceneOp::ReleaseBrush,
            ],
            resources_balanced(ops@),
    {
        self.draw_element(
            color,
            SceneOp::DrawRectangle {
                left: pos.0,
                top: pos.1,
                right: pos.0 + size.0,
                bottom: pos.1 + size.1,
                stroke_milli,
            },
        )
    }

    /// Best-effort final flush before the overlay goes away: one
    /// begin-clear-end sequence to leave the window blank, after which the
    /// graphics objects are dropped.  The shell must release the dropped
    /// handles in reverse creation order.  Unlike the individual scene
    /// calls this has no precondition at all: without a render target the
    /// sequence's own preconditions would be violated, and that violation
    /// is swallowed — nothing is emitted and nothing escapes a destructor.
    pub fn teardown(&mut self) -> (ops: Vec<SceneOp>)
        ensures
            final(self).window == old(self).window,
            final(self).font == old(self).font,
            final(self).font_size_milli == old(self).font_size_milli,
            final(self).d2d_factory is None,
            final(self).tar is None,
            final(self).write_factory is None,
            final(self).format is None,
            !final(self).in_frame,
            final(self).wf(),
            old(self).tar is Some ==> ops@ == seq![SceneOp::BeginDraw, SceneOp::Clear, SceneOp::EndDraw],
            old(self).tar is None ==> ops@ == Seq::<SceneOp>::empty(),
            resources_balanced(ops@),
    {
        let mut ops: Vec<SceneOp> = Vec::new();
        if self.tar.is_some() {
            let ghost s0 = ops@;
            ops.push(SceneOp::BeginDraw);
            let ghost s1 = ops@;
            ops.push(SceneOp::Clear);
            let ghost s2 = ops@;
            ops.push(SceneOp::EndDraw);
            proof {
                lemma_live_push(s0, SceneOp::BeginDraw);
                lemma_live_push(s1, SceneOp::Clear);
                lemma_live_push(s2, SceneOp::EndDraw);
                assert(ops@ =~= seq![SceneOp::BeginDraw, SceneOp::Clear, SceneOp::EndDraw]);
            }
        }
        self.d2d_factory = None;
        self.tar = None;
        self.write_factory = None;
        self.format = None;
        self.in_frame = false;
        ops
    }
}

} // verus!
