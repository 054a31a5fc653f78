//! The scoped-future combinator and the middleware orchestration.

use crate::ambient::{scoped_observe, AmbientSlot};
use crate::context::{cgi_fields, header_views, RequestContext};
use vstd::prelude::*;

verus! {

/// How one driving step of the inner computation ended. The wrapper treats
/// them all alike: it restores the slot on every one.
#[derive(Clone, Copy, PartialEq, Eq, Structural, Debug)]
pub enum StepOutcome {
    /// The inner computation suspended and will be resumed later, possibly on
    /// another worker.
    Suspended,
    /// The inner computation produced its value.
    Completed,
    /// The inner computation raised a fault; it propagates to the caller
    /// unchanged.
    Faulted,
    /// The scheduler dropped the computation before it completed.
    Cancelled,
}

/// What one driving step yielded: the outcome, forwarded unchanged, and the
/// ambient context the inner computation observed during the step.
pub struct StepReport {
    pub outcome: StepOutcome,
    pub seen: RequestContext,
}

/// Wraps an inner computation together with one request's context and
/// re-establishes that context on every driving step, however often and on
/// whatever worker the step runs.
pub struct WithRequestContext {
    context: RequestContext,
}

impl View for WithRequestContext {
    type V = Map<Seq<char>, Seq<char>>;

    closed spec fn view(&self) -> Map<Seq<char>, Seq<char>> {
        self.context@
    }
}

impl WithRequestContext {
    /// The held context is well formed.
    pub closed spec fn wf(&self) -> bool {
        self.context.wf()
    }

    /// Wraps a computation with the context to establish around its steps.
    pub fn new(context: RequestContext) -> (r: WithRequestContext)
        requires
            context.wf(),
        ensures
            r@ == context@,
            r.wf(),
    {
        WithRequestContext { context }
    }

    /// One driving step: installs the held context, drives the inner
    /// computation until it suspends, completes, faults or is cancelled, and
    /// restores the previous slot value before returning. The step observes
    /// exactly this wrapper's context, and the outcome passes through
    /// unchanged.
    pub fn poll_step(&self, slot: &mut AmbientSlot, outcome: StepOutcome) -> (r: StepReport)
        requires
            self.wf(),
            old(slot).wf(),
        ensures
            final(slot)@ == old(slot)@,
            final(slot).wf(),
            r.seen@ == self@,
            r.seen.wf(),
            r.outcome == outcome,
    {
        let seen = scoped_observe(slot, &self.context);
        StepReport { outcome, seen }
    }
}

/// Drives several scoped computations in an arbitrary interleaving on one
/// worker: `order[k]` names the task that makes the `k`-th driving step.
/// Every step observes exactly its own task's context — never another's, no
/// matter how the scheduler interleaves or migrates the tasks — and after
/// every step the slot is back to what it held before the schedule ran.
pub fn run_schedule(
    slot: &mut AmbientSlot,
    tasks: &Vec<WithRequestContext>,
    order: &Vec<usize>,
) -> (reports: Vec<StepReport>)
    requires
        old(slot).wf(),
        forall|t: int| 0 <= t < tasks@.len() ==> tasks@[t].wf(),
        forall|k: int| 0 <= k < order@.len() ==> (order@[k] as int) < tasks@.len(),
    ensures
        final(slot)@ == old(slot)@,
        final(slot).wf(),
        reports@.len() == order@.len(),
        forall|k: int| 0 <= k < order@.len() ==> reports@[k].seen@ == tasks@[order@[k] as int]@,
{
    let mut reports: Vec<StepReport> = Vec::new();
    let n = order.len();
    let mut k: usize = 0;
    while k < n
        invariant
            n == order@.len(),
            k <= n,
            slot@ == old(slot)@,
            slot.wf(),
            forall|t: int| 0 <= t < tasks@.len() ==> tasks@[t].wf(),
            forall|j: int| 0 <= j < order@.len() ==> (order@[j] as int) < tasks@.len(),
            reports@.len() == k,
            forall|j: int| 0 <= j < k ==> reports@[j].seen@ == tasks@[order@[j] as int]@,
        decreases n - k,
    {
        let t = order[k];
        let report = tasks[t].poll_step(slot, StepOutcome::Suspended);
        reports.push(report);
        k = k + 1;
    }
    reports
}

/// The phase the middleware is in for one request.
#[derive(Clone, Copy, PartialEq, Eq, Structural, Debug)]
pub enum Phase {
    /// No active request.
    Idle,
    /// The request context is being built; synchronous, cannot fail.
    Building,
    /// The downstream chain is running, wrapped by [`WithRequestContext`].
    Dispatching,
}

/// The middleware's handling of one request, as a state machine: idle until
/// the request arrives, building while the context is captured, dispatching
/// while the wrapped chain runs, and idle again once it completes.
pub struct RequestCycle {
    phase: Phase,
}

impl RequestCycle {
    /// The current phase.
    pub closed spec fn phase(&self) -> Phase {
        self.phase
    }

    /// A cycle awaiting a request.
    pub fn new() -> (r: RequestCycle)
        ensures
            r.phase() == Phase::Idle,
    {
        RequestCycle { phase: Phase::Idle }
    }

    /// The current phase, readably.
    pub fn current_phase(&self) -> (p: Phase)
        ensures
            p == self.phase(),
    {
        self.phase
    }

    /// A request arrived: builds its context from the raw headers, eagerly
    /// establishes it around the synchronous prefix of the downstream chain,
    /// and hands back the wrapped computation to drive. The slot is restored
    /// before this returns; the wrapper re-establishes the context on every
    /// later driving step.
    pub fn begin(&mut self, headers: &Vec<(String, Vec<u8>)>, slot: &mut AmbientSlot) -> (r:
        WithRequestContext)
        requires
            old(self).phase() == Phase::Idle,
            old(slot).wf(),
        ensures
            final(self).phase() == Phase::Dispatching,
            final(slot)@ == old(slot)@,
            final(slot).wf(),
            r@ == cgi_fields(header_views(headers@)),
            r.wf(),
    {
        self.phase = Phase::Building;
        let context = RequestContext::from_headers(headers);
        self.phase = Phase::Dispatching;
        let _sync_prefix = scoped_observe(slot, &context);
        WithRequestContext::new(context)
    }

    /// The wrapped chain's computation finished — with a response, a fault or
    /// a cancellation — and control returned to the caller.
    pub fn finish(&mut self)
        requires
            old(self).phase() == Phase::Dispatching,
        ensures
            final(self).phase() == Phase::Idle,
    {
        self.phase = Phase::Idle;
    }
}

/// The middleware: builds a [`RequestContext`] from each inbound request's
/// headers and scopes the downstream chain to it.
pub struct HoneybadgerMiddleware;

impl HoneybadgerMiddleware {
    /// Handles one inbound request up to the hand-off to the scheduler:
    /// builds the context from the request's header map, establishes it
    /// around the chain's synchronous prefix, and returns the dispatching
    /// cycle together with the wrapped computation. The caller drives the
    /// wrapper and calls [`RequestCycle::finish`] when it completes.
    pub fn call(&self, headers: &http::HeaderMap, slot: &mut AmbientSlot) -> (r: (
        RequestCycle,
        WithRequestContext,
    ))
        requires
            old(slot).wf(),
        ensures
            r.0.phase() == Phase::Dispatching,
            r.1@ == cgi_fields(crate::headers::header_entries(*headers)),
            r.1.wf(),
            final(slot)@ == old(slot)@,
            final(slot).wf(),
    {
        let pairs = crate::headers::collect_headers(headers);
        let mut cycle = RequestCycle::new();
        let wrapped = cycle.begin(&pairs, slot);
        (cycle, wrapped)
    }
}

} // verus!
