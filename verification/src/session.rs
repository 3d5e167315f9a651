//! The capture session: at most one per render cycle, begun at the start of
//! the cycle when a request is pending and ended once rendering is complete.

use vstd::prelude::*;

verus! {

/// What can go wrong around a capture session.
#[derive(Clone, Copy, Debug, PartialEq, Eq, Structural)]
pub enum CaptureError {
    /// The capture tool could not be loaded; the feature stays off.
    ToolUnavailable,
    /// A render cycle started while the session of an earlier cycle was
    /// still open. The stale session is closed before anything else is done.
    DoubleActivation,
}

/// The mathematical state of a session: whether one is open, and how many
/// begin and end calls have been issued so far.
pub struct SessionModel {
    pub active: bool,
    pub begun: nat,
    pub ended: nat,
}

/// One invocation of a render-cycle hook.
pub enum HookEvent {
    /// The start of a cycle, with what the latch reported.
    CycleStart { pending: bool },
    /// The point after rendering and before cleanup.
    RenderComplete,
}

impl SessionModel {
    /// The state before any cycle has run.
    pub open spec fn initial() -> SessionModel {
        SessionModel { active: false, begun: 0, ended: 0 }
    }

    /// Every begin call has its end call, but for the one of the open
    /// session.
    pub open spec fn bracketed(self) -> bool {
        self.begun == self.ended + (if self.active { 1nat } else { 0nat })
    }

    /// The state after a cycle starts and the latch has reported `pending`.
    /// A session still open from an earlier cycle is ended first; then a
    /// session is begun exactly when a request is pending.
    pub open spec fn after_cycle_start(self, pending: bool) -> SessionModel {
        SessionModel {
            active: pending,
            begun: self.begun + (if pending { 1nat } else { 0nat }),
            ended: self.ended + (if self.active { 1nat } else { 0nat }),
        }
    }

    /// The state after rendering completes: an open session is ended.
    pub open spec fn after_render_complete(self) -> SessionModel {
        if self.active {
            SessionModel { active: false, begun: self.begun, ended: self.ended + 1 }
        } else {
            self
        }
    }

    /// The state after one hook invocation.
    pub open spec fn after_event(self, event: HookEvent) -> SessionModel {
        match event {
            HookEvent::CycleStart { pending } => self.after_cycle_start(pending),
            HookEvent::RenderComplete => self.after_render_complete(),
        }
    }

    /// The state after a sequence of hook invocations.
    pub open spec fn after_events(self, events: Seq<HookEvent>) -> SessionModel
        decreases events.len(),
    {
        if events.len() == 0 {
            self
        } else {
            self.after_events(events.drop_last()).after_event(events.last())
        }
    }
}

/// Whether `events` is a run of whole cycles: a cycle start at every even
/// position and a render completion at every odd one.
pub open spec fn whole_cycles(events: Seq<HookEvent>) -> bool {
    &&& events.len() % 2 == 0
    &&& forall|i: int|
        0 <= i < events.len() ==> (#[trigger] events[i] is CycleStart <==> i % 2 == 0)
}

/// Session bracketing: whatever hooks run, in whatever order, the begin calls
/// and the end calls stay paired. After any sequence of events the counts are
/// equal whenever no session is open, and differ by one while one is.
pub proof fn lemma_sessions_bracketed(start: SessionModel, events: Seq<HookEvent>)
    requires
        start.bracketed(),
    ensures
        start.after_events(events).bracketed(),
        !start.after_events(events).active ==> start.after_events(events).begun
            == start.after_events(events).ended,
    decreases events.len(),
{
    if events.len() > 0 {
        lemma_sessions_bracketed(start, events.drop_last());
    }
}

/// No session is left open by a completed cycle: after a run of whole cycles
/// from a state with no open session, no session is open.
pub proof fn lemma_whole_cycles_close(start: SessionModel, events: Seq<HookEvent>)
    requires
        !start.active,
        whole_cycles(events),
    ensures
        !start.after_events(events).active,
    decreases events.len(),
{
    if events.len() > 0 {
        let n = events.len();
        assert(events[n - 1] is RenderComplete);
    }
}

/// A cycle start that finds nothing pending changes nothing, and neither does
/// a render completion that finds no session open.
pub proof fn lemma_idle_hooks_change_nothing(state: SessionModel)
    requires
        !state.active,
    ensures
        state.after_cycle_start(false) == state,
        state.after_render_complete() == state,
{
}

/// The session state of the render-cycle controller.
///
/// Besides the flag it keeps count, in ghost state, of the begin and end
/// directives it has given. The counts of every value of this type are
/// paired: equal while no session is open, one apart while one is.
pub struct CaptureSessionState {
    active: bool,
    begun: Ghost<nat>,
    ended: Ghost<nat>,
}

impl View for CaptureSessionState {
    type V = SessionModel;

    closed spec fn view(&self) -> SessionModel {
        SessionModel { active: self.active, begun: self.begun@, ended: self.ended@ }
    }
}

impl CaptureSessionState {
    #[verifier::type_invariant]
    spec fn counts_paired(&self) -> bool {
        self@.bracketed()
    }

    /// The state before any cycle has run.
    pub fn new() -> (state: Self)
        ensures
            state@ == SessionModel::initial(),
    {
        CaptureSessionState { active: false, begun: Ghost(0), ended: Ghost(0) }
    }

    /// Whether a session is open. With none open, as many sessions have been
    /// ended as were begun.
    pub fn is_active(&self) -> (active: bool)
        ensures
            active == self@.active,
            self@.bracketed(),
            !active ==> self@.begun == self@.ended,
    {
        proof {
            use_type_invariant(self);
        }
        self.active
    }

    /// Decides the start of a cycle, given what the latch reported.
    ///
    /// `Ok(pending)` directs the caller to begin a capture if `pending`
    /// holds and to do nothing otherwise. `Err(DoubleActivation)` reports
    /// that a session was still open: the caller is to end that stale
    /// capture first and then, if `pending` holds, to begin the new one.
    pub fn cycle_start(&mut self, pending: bool) -> (begin: Result<bool, CaptureError>)
        ensures
            final(self)@ == old(self)@.after_cycle_start(pending),
            old(self)@.active <==> begin == Err::<bool, CaptureError>(
                CaptureError::DoubleActivation,
            ),
            !old(self)@.active <==> begin == Ok::<bool, CaptureError>(pending),
            old(self)@.bracketed(),
            final(self)@.bracketed(),
    {
        proof {
            use_type_invariant(&*self);
        }
        let stale = self.active;
        if stale || pending {
            *self = CaptureSessionState {
                active: pending,
                begun: Ghost(self.begun@ + (if pending { 1nat } else { 0nat })),
                ended: Ghost(self.ended@ + (if stale { 1nat } else { 0nat })),
            };
        }
        if stale {
            Err(CaptureError::DoubleActivation)
        } else {
            Ok(pending)
        }
    }

    /// Decides the end of a cycle's rendering; returns whether the caller is
    /// to end the capture. No session is open afterwards.
    pub fn render_complete(&mut self) -> (end: bool)
        ensures
            final(self)@ == old(self)@.after_render_complete(),
            end == old(self)@.active,
            !final(self)@.active,
            final(self)@.begun == final(self)@.ended,
    {
        proof {
            use_type_invariant(&*self);
        }
        if !self.active {
            return false;
        }
        *self = CaptureSessionState {
            active: false,
            begun: self.begun,
            ended: Ghost(self.ended@ + 1),
        };
        true
    }
}

} // verus!
