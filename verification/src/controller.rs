//! The render-cycle controller: owns the handle to the capture tool and
//! brackets the rendering of one frame with a begin and an end call.

use crate::latch::RenderDocTrigger;
use crate::session::CaptureError;
use crate::session::CaptureSessionState;
use crate::session::SessionModel;
use renderdoc::RenderDoc;
use renderdoc::V100;
use vstd::prelude::*;

verus! {

/// `renderdoc::RenderDoc`: the handle to the capture tool's API. Nothing
/// inside it is visible here.
#[verifier::external_type_specification]
#[verifier::external_body]
#[verifier::reject_recursive_types(V)]
pub struct ExRenderDoc<V>(RenderDoc<V>);

/// `renderdoc::V100`: the marker of the oldest API version, the one that
/// holds the begin and end calls.
#[verifier::external_type_specification]
#[verifier::external_body]
pub struct ExV100(V100);

/// `renderdoc::Error`: why the tool's API could not be had. Nothing inside
/// it is visible here.
#[verifier::external_type_specification]
#[verifier::external_body]
pub struct ExRenderDocError(renderdoc::Error);

/// `RenderDoc::new`: looks for the capture tool's library in the process and
/// asks it for its API. Whether that succeeds depends on how the process was
/// started, so nothing is claimed of the result.
#[verifier::external_body]
fn load_api() -> (loaded: Result<RenderDoc<V100>, renderdoc::Error>) {
    RenderDoc::new()
}

/// `RenderDoc::start_frame_capture`, with device and window left
/// unspecified. The call returns nothing and nothing is claimed of it.
#[verifier::external_body]
fn begin_frame_capture(api: &mut RenderDoc<V100>) {
    api.start_frame_capture(std::ptr::null(), std::ptr::null());
}

/// `RenderDoc::end_frame_capture`, with device and window left unspecified.
/// The call returns nothing and nothing is claimed of it.
#[verifier::external_body]
fn end_frame_capture(api: &mut RenderDoc<V100>) {
    api.end_frame_capture(std::ptr::null(), std::ptr::null());
}

/// The render-cycle controller.
///
/// Its session state counts the begin and end calls that it has made on the
/// capture tool: every change of a count is one call, made in the same
/// function. The tool's calls report no outcome, so the session is taken to
/// be open from the begin call to the end call, and a begin call is always
/// followed by its end call.
pub struct RenderDocData {
    capture_requested: RenderDocTrigger,
    session: CaptureSessionState,
    api: RenderDoc<V100>,
}

impl RenderDocData {
    /// The session state: whether a capture is open, and the calls made.
    pub closed spec fn session(&self) -> SessionModel {
        self.session@
    }

    /// The latch that the controller consumes at the start of each cycle.
    pub closed spec fn latch(&self) -> RenderDocTrigger {
        self.capture_requested
    }

    /// The handle to the capture tool on which the begin and end calls are
    /// made.
    pub closed spec fn handle(&self) -> RenderDoc<V100> {
        self.api
    }

    /// Builds the controller from the outcome of loading the capture tool.
    /// The controller holds the handle that the load gave and consumes the
    /// latch behind `trigger`. A failure to load is `ToolUnavailable`,
    /// whatever its cause.
    pub fn from_loaded(
        trigger: RenderDocTrigger,
        loaded: Result<RenderDoc<V100>, renderdoc::Error>,
    ) -> (controller: Result<Self, CaptureError>)
        ensures
            controller is Ok <==> loaded is Ok,
            controller is Ok ==> controller->Ok_0.session() == SessionModel::initial(),
            controller is Ok ==> controller->Ok_0.latch() == trigger,
            controller is Ok ==> controller->Ok_0.handle() == loaded->Ok_0,
            controller is Err ==> controller->Err_0 == CaptureError::ToolUnavailable,
    {
        match loaded {
            Ok(api) => Ok(
                RenderDocData {
                    capture_requested: trigger,
                    session: CaptureSessionState::new(),
                    api,
                },
            ),
            Err(_) => Err(CaptureError::ToolUnavailable),
        }
    }

    /// Loads the capture tool and builds the controller around it, with the
    /// latch behind `trigger` as the one it consumes. Whether the tool can be
    /// loaded is for the machine to decide; the only error is
    /// `ToolUnavailable`.
    pub fn attach(trigger: RenderDocTrigger) -> (controller: Result<Self, CaptureError>)
        ensures
            controller is Ok ==> controller->Ok_0.session() == SessionModel::initial(),
            controller is Ok ==> controller->Ok_0.latch() == trigger,
            controller is Err ==> controller->Err_0 == CaptureError::ToolUnavailable,
    {
        let loaded = load_api();
        Self::from_loaded(trigger, loaded)
    }

    /// Whether a capture is open. With none open, every begin call made on
    /// the tool has had its end call.
    pub fn is_capture_active(&self) -> (active: bool)
        ensures
            active == self.session().active,
            self.session().bracketed(),
            !active ==> self.session().begun == self.session().ended,
    {
        self.session.is_active()
    }

    /// Starts a cycle given what the latch reported: begins a capture when a
    /// request is pending. A session still open is a `DoubleActivation`: the
    /// stale capture is ended first, so that no capture is ever begun inside
    /// another, and the error is returned; a pending request is served all
    /// the same.
    pub fn start_cycle_with(&mut self, pending: bool) -> (began: Result<bool, CaptureError>)
        ensures
            final(self).session() == old(self).session().after_cycle_start(pending),
            old(self).session().active <==> began == Err::<bool, CaptureError>(
                CaptureError::DoubleActivation,
            ),
            !old(self).session().active <==> began == Ok::<bool, CaptureError>(pending),
            final(self).session().bracketed(),
            final(self).latch() == old(self).latch(),
    {
        let decision = self.session.cycle_start(pending);
        if decision.is_err() {
            end_frame_capture(&mut self.api);
        }
        if pending {
            begin_frame_capture(&mut self.api);
        }
        decision
    }

    /// The hook for the start of a render cycle: consumes the latch and
    /// begins a capture if a request was pending.
    ///
    /// The latch is consumed in every case. A session still open is closed
    /// first and reported as `DoubleActivation`; whether a capture was then
    /// begun is what the session state says afterwards.
    pub fn on_cycle_start(&mut self) -> (began: Result<bool, CaptureError>)
        ensures
            old(self).session().active <==> began == Err::<bool, CaptureError>(
                CaptureError::DoubleActivation,
            ),
            final(self).session() == old(self).session().after_cycle_start(
                final(self).session().active,
            ),
            began is Ok ==> began->Ok_0 == final(self).session().active,
            began == Ok::<bool, CaptureError>(false) ==> final(self).session() == old(
                self,
            ).session(),
            final(self).session().bracketed(),
            final(self).latch() == old(self).latch(),
    {
        let pending = self.capture_requested.consume_and_clear();
        self.start_cycle_with(pending)
    }

    /// The hook between rendering and cleanup: ends the capture if one is
    /// open, and returns whether it did.
    pub fn on_cycle_render_complete(&mut self) -> (ended: bool)
        ensures
            final(self).session() == old(self).session().after_render_complete(),
            ended == old(self).session().active,
            !final(self).session().active,
            final(self).session().begun == final(self).session().ended,
            final(self).latch() == old(self).latch(),
    {
        let end = self.session.render_complete();
        if end {
            end_frame_capture(&mut self.api);
        }
        end
    }
}

} // verus!
