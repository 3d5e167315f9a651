//! Frame-capture triggering for a render pipeline: a collapsing request latch
//! and the per-cycle controller that brackets one frame with a capture session.

pub mod controller;
pub mod latch;
pub mod plugin;
pub mod protocol;
pub mod session;

pub use controller::RenderDocData;
pub use latch::CaptureRequest;
pub use latch::LatchOp;
pub use latch::RenderDocTrigger;
pub use plugin::HookPlan;
pub use plugin::RenderDocPlugin;
pub use session::CaptureError;
pub use session::CaptureSessionState;
