//! The request latch: a single-slot, collapsing pending-request flag.
//!
//! Application code sets the latch; the render cycle reads and clears it.
//! Any number of requests made before a read collapse into one.

use std::sync::atomic::AtomicBool;
use std::sync::atomic::Ordering;
use std::sync::Arc;
use vstd::prelude::*;

verus! {

/// The two operations that can be applied to the request latch.
pub enum LatchOp {
    /// A request for the next frame to be captured.
    Request,
    /// A read-and-clear of the pending request.
    Consume,
}

/// Whether a request is pending once `op` has been applied.
pub open spec fn pending_after_op(pending: bool, op: LatchOp) -> bool {
    match op {
        LatchOp::Request => true,
        LatchOp::Consume => false,
    }
}

/// Whether `op`, applied to a latch in state `pending`, reports a request.
pub open spec fn op_grants(pending: bool, op: LatchOp) -> bool {
    op is Consume && pending
}

/// Whether a request is pending once all of `ops` have been applied in order
/// to a latch that started in state `start`.
pub open spec fn pending_after(start: bool, ops: Seq<LatchOp>) -> bool
    decreases ops.len(),
{
    if ops.len() == 0 {
        start
    } else {
        pending_after_op(pending_after(start, ops.drop_last()), ops.last())
    }
}

/// How many of the consume operations in `ops` report a request.
pub open spec fn grants(start: bool, ops: Seq<LatchOp>) -> nat
    decreases ops.len(),
{
    if ops.len() == 0 {
        0
    } else {
        let before = ops.drop_last();
        grants(start, before) + if op_grants(pending_after(start, before), ops.last()) {
            1nat
        } else {
            0nat
        }
    }
}

/// Whether a burst of requests starts at position `i` of `ops`: a request
/// that is the first operation or directly follows a consume.
pub open spec fn burst_starts_at(ops: Seq<LatchOp>, i: int) -> bool {
    &&& 0 <= i < ops.len()
    &&& ops[i] is Request
    &&& (i == 0 || ops[i - 1] is Consume)
}

/// The number of bursts in `ops`: maximal runs of consecutive requests.
pub open spec fn bursts(ops: Seq<LatchOp>) -> nat
    decreases ops.len(),
{
    if ops.len() == 0 {
        0
    } else {
        bursts(ops.drop_last()) + if burst_starts_at(ops, ops.len() - 1) {
            1nat
        } else {
            0nat
        }
    }
}

/// The number of requests in `ops`.
pub open spec fn requests(ops: Seq<LatchOp>) -> nat
    decreases ops.len(),
{
    if ops.len() == 0 {
        0
    } else {
        requests(ops.drop_last()) + if ops.last() is Request {
            1nat
        } else {
            0nat
        }
    }
}

/// A latch that starts clear is pending exactly when the last operation
/// applied to it was a request.
pub proof fn lemma_pending_is_last_request(ops: Seq<LatchOp>)
    ensures
        pending_after(false, ops) == (ops.len() > 0 && ops.last() is Request),
{
    if ops.len() > 0 {
        assert(pending_after(false, ops) == pending_after_op(
            pending_after(false, ops.drop_last()),
            ops.last(),
        ));
    }
}

/// Collapsing: on a latch that starts clear, every burst of requests is
/// answered by exactly one granting consume, however many requests the burst
/// holds. The only burst not yet answered is the one still pending, so the
/// grants and the pending request together count the bursts.
pub proof fn lemma_grants_count_bursts(ops: Seq<LatchOp>)
    ensures
        grants(false, ops) + (if pending_after(false, ops) { 1nat } else { 0nat }) == bursts(ops),
        (ops.len() == 0 || ops.last() is Consume) ==> grants(false, ops) == bursts(ops),
    decreases ops.len(),
{
    lemma_pending_is_last_request(ops);
    if ops.len() > 0 {
        let before = ops.drop_last();
        lemma_grants_count_bursts(before);
        lemma_pending_is_last_request(before);
        if before.len() > 0 {
            assert(before.last() == ops[ops.len() - 2]);
        }
    }
}

/// The grants never exceed the requests: requests are not counted, only
/// latched.
pub proof fn lemma_grants_at_most_requests(ops: Seq<LatchOp>)
    ensures
        grants(false, ops) + (if pending_after(false, ops) { 1nat } else { 0nat }) <= requests(ops),
    decreases ops.len(),
{
    lemma_pending_is_last_request(ops);
    if ops.len() > 0 {
        lemma_grants_at_most_requests(ops.drop_last());
        lemma_pending_is_last_request(ops.drop_last());
    }
}

/// A consume on a latch with nothing pending grants nothing and leaves the
/// latch clear, however often it is repeated.
pub proof fn lemma_idle_consume(ops: Seq<LatchOp>)
    requires
        forall|i: int| 0 <= i < ops.len() ==> ops[i] is Consume,
    ensures
        !pending_after(false, ops),
        grants(false, ops) == 0,
    decreases ops.len(),
{
    if ops.len() > 0 {
        lemma_idle_consume(ops.drop_last());
    }
}

/// The latch as held by a single owner.
pub struct CaptureRequest {
    requested: bool,
}

impl View for CaptureRequest {
    type V = bool;

    /// Whether a request is pending.
    closed spec fn view(&self) -> bool {
        self.requested
    }
}

impl CaptureRequest {
    /// A latch with nothing pending.
    pub fn new() -> (latch: Self)
        ensures
            !latch@,
    {
        CaptureRequest { requested: false }
    }

    /// Whether a request is pending.
    pub fn is_pending(&self) -> (pending: bool)
        ensures
            pending == self@,
    {
        self.requested
    }

    /// Latches a request. Requests made before the next consume collapse
    /// into one.
    pub fn request_capture(&mut self)
        ensures
            final(self)@ == pending_after_op(old(self)@, LatchOp::Request),
            final(self)@,
    {
        self.requested = true;
    }

    /// Reads the latch and clears it; returns whether a request was pending.
    pub fn consume_and_clear(&mut self) -> (was_pending: bool)
        ensures
            was_pending == op_grants(old(self)@, LatchOp::Consume),
            was_pending == old(self)@,
            final(self)@ == pending_after_op(old(self)@, LatchOp::Consume),
            !final(self)@,
    {
        let was_pending = self.requested;
        self.requested = false;
        was_pending
    }
}

/// The latch as shared between the code that requests captures and the render
/// cycle, which may run on different threads.
///
/// Each operation is a single sequentially consistent atomic access. What
/// another holder does between two operations cannot be known to one holder,
/// so the contracts of this type say nothing of the value stored; the
/// behaviour of the latch under any one interleaving of operations is that of
/// [`CaptureRequest`].
pub struct RenderDocTrigger {
    requested: Arc<AtomicBool>,
}

impl RenderDocTrigger {
    /// A fresh latch with nothing pending.
    pub fn new() -> (trigger: Self) {
        RenderDocTrigger { requested: Arc::new(AtomicBool::new(false)) }
    }

    /// Another handle to the same latch.
    pub fn share(&self) -> (other: Self)
        ensures
            other == *self,
    {
        RenderDocTrigger { requested: self.requested.clone() }
    }

    /// Requests that the next frame be captured.
    pub fn capture(&self) {
        self.requested.store(true, Ordering::SeqCst);
    }

    /// Reads the latch and clears it in one atomic step; returns whether a
    /// request was pending.
    pub fn consume_and_clear(&self) -> (was_pending: bool) {
        self.requested.fetch_and(false, Ordering::SeqCst)
    }
}

} // verus!
