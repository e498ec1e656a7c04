//! Resource factory: the disposable-resource-per-call discipline that every
//! draw primitive follows.
//!
//! A brush and a text layout are transient: acquired immediately before the
//! one draw command that uses them and released immediately after it, inside
//! the same draw call.  [`OverlayHelper::draw_element`] is the template that
//! enforces this — it wraps any draw primitive in exactly one brush
//! acquisition and one release, so no draw call can leak a brush however
//! often it runs.

use vstd::prelude::*;

use crate::overlay::Overlay;
use crate::scene::SceneOp;
use crate::scene::is_draw_primitive;
use crate::scene::layout_delta;
use crate::scene::lemma_live_push;
use crate::scene::resources_balanced;

verus! {

/// The factory for transient draw resources, and the acquire-use-release
/// template built on it.
pub trait OverlayHelper: Sized {
    /// Whether a brush may be created: the render target must exist.
    spec fn brush_ready(&self) -> bool;

    /// Whether a text layout may be created: the text format and the
    /// text-layout factory must exist.
    spec fn layout_ready(&self) -> bool;

    /// The command that creates a solid-color brush against the render
    /// target from 8-bit channels, opacity one, identity transform.  A
    /// rejected brush allocation is a fatal contract violation for the
    /// shell, not a recoverable result.
    fn create_brush(&self, color: (u8, u8, u8, u8)) -> (op: SceneOp)
        requires
            self.brush_ready(),
        ensures
            op == (SceneOp::CreateBrush { r: color.0, g: color.1, b: color.2, a: color.3 }),
    ;

    /// The command that creates a text layout for `text` from the text
    /// format, bounded by the foreign window's full window rectangle.  A
    /// rejected layout allocation is fatal for the shell, like the brush.
    fn create_text_layout(&self, text: &str) -> (op: SceneOp)
        requires
            self.layout_ready(),
        ensures
            op matches SceneOp::CreateTextLayout { text: t } && t@ == text@,
            layout_delta(op) == 1,
    ;

    /// Wraps one draw primitive in the scoped-brush discipline: acquire a
    /// brush of `color`, perform `draw` bound to it, release the brush.
    fn draw_element(&self, color: (u8, u8, u8, u8), draw: SceneOp) -> (ops: Vec<SceneOp>)
        requires
            self.brush_ready(),
            is_draw_primitive(draw),
        ensures
            ops@ == seq![
                (SceneOp::CreateBrush { r: color.0, g: color.1, b: color.2, a: color.3 }),
                draw,
                SceneOp::ReleaseBrush,
            ],
            resources_balanced(ops@),
    ;
}

impl OverlayHelper for Overlay {
    open spec fn brush_ready(&self) -> bool {
        self.tar is Some
    }

    open spec fn layout_ready(&self) -> bool {
        self.format is Some && self.write_factory is Some
    }

    fn create_brush(&self, color: (u8, u8, u8, u8)) -> (op: SceneOp) {
        SceneOp::CreateBrush { r: color.0, g: color.1, b: color.2, a: color.3 }
    }

    fn create_text_layout(&self, text: &str) -> (op: SceneOp) {
        SceneOp::CreateTextLayout { text: String::from_str(text) }
    }

    fn draw_element(&self, color: (u8, u8, u8, u8), draw: SceneOp) -> (ops: Vec<SceneOp>) {
        let ghost d = draw;
        let mut ops: Vec<SceneOp> = Vec::new();
        let ghost s0 = ops@;
        ops.push(self.create_brush(color));
        let ghost s1 = ops@;
        ops.push(draw);
        let ghost s2 = ops@;
        ops.push(SceneOp::ReleaseBrush);
        proof {
            lemma_live_push(s0, (SceneOp::CreateBrush { r: color.0, g: color.1, b: color.2, a: color.3 }));
            lemma_live_push(s1, d);
            lemma_live_push(s2, SceneOp::ReleaseBrush);
            assert(ops@ =~= seq![
                (SceneOp::CreateBrush { r: color.0, g: color.1, b: color.2, a: color.3 }),
                d,
                SceneOp::ReleaseBrush,
            ]);
        }
        ops
    }
}

} // verus!
