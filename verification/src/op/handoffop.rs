//! A one-slot handoff between a pushing and a pulling operator of a flow.
use vstd::prelude::*;
use std::cell::RefCell;
use std::rc::Rc;
use std::task::Context;
use crate::op2::handoffop::{Handoff, HandoffSend};
use crate::task::{Poll, refcell_new, refcell_replace};
use super::flow::Flow;
use super::op::{Op, PullOp, PushOp};

verus! {

/// The pushing side of a handoff.
#[verifier::reject_recursive_types(F)]
pub struct HandoffPushOp<F: Flow> {
    handoff: Rc<RefCell<Handoff<F::Domain>>>,
}

impl<F: Flow> HandoffPushOp<F> {
    /// The shared buffer this side works on.
    pub closed spec fn cell(&self) -> Rc<RefCell<Handoff<F::Domain>>> {
        self.handoff
    }

    fn create(handoff: Rc<RefCell<Handoff<F::Domain>>>) -> (r: Self)
        ensures
            r.cell() == handoff,
    {
        HandoffPushOp { handoff }
    }
}

impl<F: Flow> Op for HandoffPushOp<F> {}

impl<F: Flow> PushOp for HandoffPushOp<F> {
    type Inflow = F;
    type Indomain = F::Domain;
    type Feedback = HandoffSend<F::Domain>;

    /// The push itself changes nothing: the item moves when its future is
    /// polled.
    open spec fn pushed(pre: Self, item: F::Domain, post: Self) -> bool {
        post == pre
    }

    /// The future sends `item` into this side's buffer.
    fn push(&mut self, item: F::Domain) -> (fb: HandoffSend<F::Domain>)
        ensures
            fb.item_spec() == Some(item),
            fb.cell() == old(self).cell(),
    {
        HandoffSend::new(item, self.handoff.clone())
    }
}

/// The pulling side of a handoff.
#[verifier::reject_recursive_types(F)]
pub struct HandoffPullOp<F: Flow> {
    handoff: Rc<RefCell<Handoff<F::Domain>>>,
}

impl<F: Flow> HandoffPullOp<F> {
    /// The shared buffer this side works on.
    pub closed spec fn cell(&self) -> Rc<RefCell<Handoff<F::Domain>>> {
        self.handoff
    }

    fn create(handoff: Rc<RefCell<Handoff<F::Domain>>>) -> (r: Self)
        ensures
            r.cell() == handoff,
    {
        HandoffPullOp { handoff }
    }
}

impl<F: Flow> Op for HandoffPullOp<F> {}

impl<F: Flow> PullOp for HandoffPullOp<F> {
    type Outflow = F;
    type Outdomain = F::Domain;

    /// A handoff never ends: a pull gives an item or is pending.
    open spec fn pulled(pre: Self, post: Self, out: Poll<Option<F::Domain>>) -> bool {
        post == pre && !(out matches Poll::Ready(None))
    }

    fn poll_next(&mut self, ctx: &mut Context<'_>) -> (out: Poll<Option<F::Domain>>) {
        let mut handoff = refcell_replace(&self.handoff, Handoff::new());
        let r = handoff.poll_recv(ctx);
        let _ = refcell_replace(&self.handoff, handoff);
        r
    }
}

/// A connected pair of handoff sides sharing one empty buffer.
pub fn handoff_op<F: Flow>() -> (r: (HandoffPushOp<F>, HandoffPullOp<F>))
    ensures
        r.0.cell() == r.1.cell(),
{
    let handoff = Rc::new(refcell_new(Handoff::new()));
    (HandoffPushOp::create(handoff.clone()), HandoffPullOp::create(handoff))
}

} // verus!
