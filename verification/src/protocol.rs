//! The latch and the session taken together: what a run of requests and
//! render-cycle hooks, in any one interleaving, leads to.

use crate::latch::bursts;
use crate::latch::grants;
use crate::latch::lemma_grants_count_bursts;
use crate::latch::pending_after;
use crate::latch::LatchOp;
use crate::session::SessionModel;
use vstd::prelude::*;

verus! {

/// One step of the whole system.
pub enum SystemEvent {
    /// Application code requests a capture.
    Request,
    /// The hook at the start of a render cycle runs.
    CycleStart,
    /// The hook after rendering and before cleanup runs.
    RenderComplete,
}

/// The state of the whole system: the latch and the session.
pub struct SystemModel {
    pub pending: bool,
    pub session: SessionModel,
}

impl SystemModel {
    /// The state at startup: nothing pending, no session.
    pub open spec fn initial() -> SystemModel {
        SystemModel { pending: false, session: SessionModel::initial() }
    }

    /// The state after one event. A cycle start consumes the latch in every
    /// case and hands what it found to the session.
    pub open spec fn after_event(self, event: SystemEvent) -> SystemModel {
        match event {
            SystemEvent::Request => SystemModel { pending: true, session: self.session },
            SystemEvent::CycleStart => SystemModel {
                pending: false,
                session: self.session.after_cycle_start(self.pending),
            },
            SystemEvent::RenderComplete => SystemModel {
                pending: self.pending,
                session: self.session.after_render_complete(),
            },
        }
    }

    /// The state after a sequence of events.
    pub open spec fn after_events(self, events: Seq<SystemEvent>) -> SystemModel
        decreases events.len(),
    {
        if events.len() == 0 {
            self
        } else {
            self.after_events(events.drop_last()).after_event(events.last())
        }
    }
}

/// Whether `events` ends inside a render cycle: after a cycle start whose
/// render completion has not come yet.
pub open spec fn in_cycle(events: Seq<SystemEvent>) -> bool
    decreases events.len(),
{
    if events.len() == 0 {
        false
    } else {
        match events.last() {
            SystemEvent::Request => in_cycle(events.drop_last()),
            SystemEvent::CycleStart => true,
            SystemEvent::RenderComplete => false,
        }
    }
}

/// Whether the host runs the hooks in order: no cycle starts before the
/// rendering of the cycle before it is complete. Requests may come at any
/// point.
pub open spec fn in_hook_order(events: Seq<SystemEvent>) -> bool
    decreases events.len(),
{
    if events.len() == 0 {
        true
    } else {
        &&& in_hook_order(events.drop_last())
        &&& events.last() is CycleStart ==> !in_cycle(events.drop_last())
    }
}

/// What the latch sees of `events`: each request, and each cycle start as a
/// consume.
pub open spec fn latch_ops(events: Seq<SystemEvent>) -> Seq<LatchOp>
    decreases events.len(),
{
    if events.len() == 0 {
        Seq::empty()
    } else {
        let before = latch_ops(events.drop_last());
        match events.last() {
            SystemEvent::Request => before.push(LatchOp::Request),
            SystemEvent::CycleStart => before.push(LatchOp::Consume),
            SystemEvent::RenderComplete => before,
        }
    }
}

/// The captures begun are the grants of the latch: one capture for each
/// burst of requests that a cycle start has answered, and none besides,
/// whatever the order of the events. A session is open only inside a cycle,
/// and the begin and end calls are paired throughout.
pub proof fn lemma_one_capture_per_burst(events: Seq<SystemEvent>)
    ensures
        ({
            let end = SystemModel::initial().after_events(events);
            let ops = latch_ops(events);
            &&& end.pending == pending_after(false, ops)
            &&& end.session.begun == grants(false, ops)
            &&& end.session.begun + (if end.pending { 1nat } else { 0nat }) == bursts(ops)
            &&& end.session.active ==> in_cycle(events)
            &&& end.session.bracketed()
        }),
    decreases events.len(),
{
    let ops = latch_ops(events);
    lemma_grants_count_bursts(ops);
    if events.len() > 0 {
        let before = events.drop_last();
        lemma_one_capture_per_burst(before);
        let ops_before = latch_ops(before);
        match events.last() {
            SystemEvent::Request => {
                assert(ops.drop_last() =~= ops_before);
            },
            SystemEvent::CycleStart => {
                assert(ops.drop_last() =~= ops_before);
            },
            SystemEvent::RenderComplete => {},
        }
    }
}

/// With the hooks run in order no cycle start finds a session open, and so
/// none ends a capture: the end calls are those of the render completions.
pub proof fn lemma_hooks_in_order_find_no_session(events: Seq<SystemEvent>)
    requires
        in_hook_order(events),
        events.len() > 0,
        events.last() is CycleStart,
    ensures
        ({
            let before = SystemModel::initial().after_events(events.drop_last());
            let end = SystemModel::initial().after_events(events);
            &&& !before.session.active
            &&& end.session.ended == before.session.ended
        }),
{
    lemma_one_capture_per_burst(events.drop_last());
}

/// A request made before a cycle starts is served by that cycle: the cycle
/// start finds it, begins a capture and leaves the latch clear.
pub proof fn lemma_request_before_start_is_served(state: SystemModel)
    ensures
        ({
            let end = state.after_event(SystemEvent::Request).after_event(SystemEvent::CycleStart);
            &&& end.session.active
            &&& end.session.begun == state.session.begun + 1
            &&& !end.pending
        }),
{
}

/// A request made after a cycle has started waits for the next cycle: the
/// running cycle completes without a capture, the request stays latched,
/// and the next cycle start serves it.
pub proof fn lemma_request_after_start_waits(state: SystemModel)
    requires
        !state.pending,
    ensures
        ({
            let late = state.after_event(SystemEvent::CycleStart).after_event(
                SystemEvent::Request,
            ).after_event(SystemEvent::RenderComplete);
            let next = late.after_event(SystemEvent::CycleStart);
            &&& !late.session.active
            &&& late.session.begun == state.session.begun
            &&& late.pending
            &&& next.session.active
            &&& next.session.begun == state.session.begun + 1
            &&& !next.pending
        }),
{
}

} // verus!
