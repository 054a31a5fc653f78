//! The ambient context slot: the one shared place a driving step publishes
//! its request's context, with scoped establish/restore semantics.

use crate::context::RequestContext;
use vstd::prelude::*;

verus! {

/// What a driving step makes the slot hold while it runs: exactly the
/// installed context.
pub open spec fn installed(
    prior: Option<Map<Seq<char>, Seq<char>>>,
    c: Map<Seq<char>, Seq<char>>,
) -> Option<Map<Seq<char>, Seq<char>>> {
    Some(c)
}

/// What the slot holds once a step has given back what it saved: exactly the
/// saved value, whatever happened in between.
pub open spec fn restored(
    during: Option<Map<Seq<char>, Seq<char>>>,
    saved: Option<Map<Seq<char>, Seq<char>>>,
) -> Option<Map<Seq<char>, Seq<char>>> {
    saved
}

/// The view of an optionally held context.
pub open spec fn opt_context_view(c: Option<RequestContext>) -> Option<
    Map<Seq<char>, Seq<char>>,
> {
    match c {
        Some(ctx) => Some(ctx@),
        None => None,
    }
}

/// Whether an optionally held context is well formed.
pub open spec fn opt_context_wf(c: Option<RequestContext>) -> bool {
    match c {
        Some(ctx) => ctx.wf(),
        None => true,
    }
}

/// Holds at most one [`RequestContext`] at a time: the context of the request
/// whose driving step is currently running, or none outside any scope.
pub struct AmbientSlot {
    current: Option<RequestContext>,
}

impl View for AmbientSlot {
    type V = Option<Map<Seq<char>, Seq<char>>>;

    closed spec fn view(&self) -> Option<Map<Seq<char>, Seq<char>>> {
        opt_context_view(self.current)
    }
}

impl AmbientSlot {
    /// The held context, if any, is well formed.
    pub closed spec fn wf(&self) -> bool {
        opt_context_wf(self.current)
    }

    /// An empty slot: no scope is active.
    pub fn new() -> (r: AmbientSlot)
        ensures
            r@ is None,
            r.wf(),
    {
        AmbientSlot { current: None }
    }

    /// Establishes `ctx` as the ambient context and hands back what the slot
    /// held, to be given to [`AmbientSlot::restore`] when the step ends.
    pub fn install(&mut self, ctx: RequestContext) -> (prev: Option<RequestContext>)
        requires
            old(self).wf(),
            ctx.wf(),
        ensures
            final(self)@ == installed(old(self)@, ctx@),
            final(self).wf(),
            opt_context_view(prev) == old(self)@,
            opt_context_wf(prev),
    {
        let mut held = Some(ctx);
        core::mem::swap(&mut self.current, &mut held);
        held
    }

    /// Puts back what [`AmbientSlot::install`] saved, ending the scope.
    pub fn restore(&mut self, prev: Option<RequestContext>)
        requires
            old(self).wf(),
            opt_context_wf(prev),
        ensures
            final(self)@ == restored(old(self)@, opt_context_view(prev)),
            final(self).wf(),
    {
        self.current = prev;
    }

    /// The context currently established, or none outside any scope. This is
    /// the read the fault-capturing collaborator makes while building a
    /// failure report.
    pub fn read(&self) -> (r: Option<&RequestContext>)
        requires
            self.wf(),
        ensures
            match r {
                Some(c) => self@ == Some(c@) && c.wf(),
                None => self@ is None,
            },
    {
        match &self.current {
            Some(c) => Some(c),
            None => None,
        }
    }
}

/// One driving step of a computation scoped to `ctx`: installs the context,
/// lets the step observe the slot, and restores the previous value before
/// control returns — on the normal path exactly as on a fault or
/// cancellation path, which differ only in what the step did in between.
pub fn scoped_observe(slot: &mut AmbientSlot, ctx: &RequestContext) -> (seen: RequestContext)
    requires
        old(slot).wf(),
        ctx.wf(),
    ensures
        final(slot)@ == old(slot)@,
        final(slot).wf(),
        seen@ == ctx@,
        seen.wf(),
{
    let prev = slot.install(ctx.clone());
    let seen = match slot.read() {
        Some(c) => c.clone(),
        None => vstd::pervasive::unreached(),
    };
    slot.restore(prev);
    seen
}

/// Law: scoped establishment is balanced. For the whole of a driving step the
/// slot holds the step's own context, and giving back the saved value leaves
/// the slot exactly as it was before the step — also under nesting, where the
/// prior value is itself an installed context that reappears.
pub proof fn law_scope_round_trip(
    prior: Option<Map<Seq<char>, Seq<char>>>,
    c: Map<Seq<char>, Seq<char>>,
)
    ensures
        installed(prior, c) == Some(c),
        restored(installed(prior, c), prior) == prior,
{
}

/// Law: consecutive scoped steps of two computations with distinct contexts
/// are isolated: each step observes its own context, never the other's, and
/// after both the slot is back to the prior value.
pub proof fn law_interleaved_steps_are_isolated(
    prior: Option<Map<Seq<char>, Seq<char>>>,
    a: Map<Seq<char>, Seq<char>>,
    b: Map<Seq<char>, Seq<char>>,
)
    ensures
        installed(prior, a) == Some(a),
        restored(installed(prior, a), prior) == prior,
        installed(restored(installed(prior, a), prior), b) == Some(b),
        restored(installed(restored(installed(prior, a), prior), b), prior) == prior,
{
}

} // verus!
