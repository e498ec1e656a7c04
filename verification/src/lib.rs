//! Overlay takeover and immediate-mode rendering core.
//!
//! The library models the lifecycle of an overlay attached to a foreign,
//! externally owned window: locating the window and turning it into a
//! transparent, topmost drawing surface; building the graphics objects bound
//! to it; and driving a frame-based draw protocol (begin, clear, draw
//! primitives, end) with strictly scoped per-call resources.
//!
//! Every operating-system and graphics call is performed by an unverified
//! shell outside this crate.  The shell asks the sessions and the scene
//! methods here what to do next, performs the call, and feeds the outcome
//! back; every decision in between is verified.

pub mod graphics;
pub mod locator;
pub mod overlay;
pub mod overlay_helper;
pub mod scene;

pub use graphics::StartupAction;
pub use graphics::StartupEvent;
pub use graphics::StartupSession;
pub use graphics::StartupState;
pub use locator::InitAction;
pub use locator::InitEvent;
pub use locator::InitSession;
pub use overlay::Overlay;
pub use overlay::OverlayError;
pub use overlay::RenderTarget;
pub use overlay_helper::OverlayHelper;
pub use scene::SceneOp;
