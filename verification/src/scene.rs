//! Scene commands: the per-frame draw protocol as explicit commands.
//!
//! The scene methods on [`crate::overlay::Overlay`] decide which graphics
//! calls a frame consists of and emit them as a sequence of [`SceneOp`]
//! values; the unverified shell performs them in order against the render
//! target.  `CreateBrush` and `CreateTextLayout` acquire the transient
//! resource the following draw command uses, and the matching `Release`
//! command frees it again within the same draw call — the resource counts of
//! every emitted sequence return to zero, which is what keeps thousands of
//! frames from leaking graphics handles.

use vstd::prelude::*;

verus! {

/// One graphics call of the frame protocol.  `CreateBrush` and
/// `CreateTextLayout` make their result the current brush or text layout;
/// the draw commands use the current resources, and the `Release` commands
/// free them.
#[derive(Clone, Debug, PartialEq, Eq)]
pub enum SceneOp {
    /// Start a draw batch on the render target.
    BeginDraw,
    /// Clear the whole render target to the transparent clear value.
    Clear,
    /// Create a text layout for `text` from the overlay's text format,
    /// bounded by the foreign window's full window rectangle as it stands
    /// at execution time.
    CreateTextLayout { text: String },
    /// Create a solid-color brush on the render target with opacity one and
    /// the identity transform.  The four channels are 8-bit and are
    /// normalized to unit-interval components (each divided by 255) when
    /// the brush is created.
    CreateBrush { r: u8, g: u8, b: u8, a: u8 },
    /// Draw the current text layout at `(x, y)` with the current brush and
    /// no special draw options.
    DrawTextLayout { x: i32, y: i32 },
    /// Draw the outline of the rectangle spanning `(left, top)` to
    /// `(right, bottom)` with the current brush, a stroke of `stroke_milli`
    /// thousandths of a pixel, and no custom stroke style.
    DrawRectangle { left: i32, top: i32, right: i32, bottom: i32, stroke_milli: u32 },
    /// Release the current brush.
    ReleaseBrush,
    /// Release the current text layout.
    ReleaseTextLayout,
    /// End the draw batch, presenting it to the window with no special
    /// present options.
    EndDraw,
}

/// Commands a brush may stand between: the two draw primitives.
pub open spec fn is_draw_primitive(op: SceneOp) -> bool {
    op is DrawTextLayout || op is DrawRectangle
}

/// How one command changes the number of live brushes.
pub open spec fn brush_delta(op: SceneOp) -> int {
    match op {
        SceneOp::CreateBrush { .. } => 1,
        SceneOp::ReleaseBrush => -1,
        _ => 0,
    }
}

/// How one command changes the number of live text layouts.
pub open spec fn layout_delta(op: SceneOp) -> int {
    match op {
        SceneOp::CreateTextLayout { .. } => 1,
        SceneOp::ReleaseTextLayout => -1,
        _ => 0,
    }
}

/// Brushes still alive after performing `ops` in order.
pub open spec fn live_brushes(ops: Seq<SceneOp>) -> int
    decreases ops.len(),
{
    if ops.len() == 0 {
        0
    } else {
        live_brushes(ops.drop_last()) + brush_delta(ops.last())
    }
}

/// Text layouts still alive after performing `ops` in order.
pub open spec fn live_layouts(ops: Seq<SceneOp>) -> int
    decreases ops.len(),
{
    if ops.len() == 0 {
        0
    } else {
        live_layouts(ops.drop_last()) + layout_delta(ops.last())
    }
}

/// Every transient resource acquired by `ops` is released by `ops`: the
/// resource counts return to zero when the sequence has been performed.
pub open spec fn resources_balanced(ops: Seq<SceneOp>) -> bool {
    live_brushes(ops) == 0 && live_layouts(ops) == 0
}

/// Appending one command moves the live counts by that command's deltas.
pub proof fn lemma_live_push(s: Seq<SceneOp>, op: SceneOp)
    ensures
        live_brushes(s.push(op)) == live_brushes(s) + brush_delta(op),
        live_layouts(s.push(op)) == live_layouts(s) + layout_delta(op),
{
    assert(s.push(op).drop_last() =~= s);
}

/// Live-resource counts add up over concatenation.
pub proof fn lemma_live_counts_concat(a: Seq<SceneOp>, b: Seq<SceneOp>)
    ensures
        live_brushes(a + b) == live_brushes(a) + live_brushes(b),
        live_layouts(a + b) == live_layouts(a) + live_layouts(b),
    decreases b.len(),
{
    if b.len() == 0 {
        assert(a + b =~= a);
    } else {
        lemma_live_counts_concat(a, b.drop_last());
        assert((a + b).drop_last() =~= a + b.drop_last());
    }
}

/// Draw calls compose without leaking: any run of commands pieced together
/// from balanced pieces — every draw call of a frame, and the frame as a
/// whole — is balanced again.
pub proof fn lemma_balanced_concat(a: Seq<SceneOp>, b: Seq<SceneOp>)
    requires
        resources_balanced(a),
        resources_balanced(b),
    ensures
        resources_balanced(a + b),
{
    lemma_live_counts_concat(a, b);
}

} // verus!
