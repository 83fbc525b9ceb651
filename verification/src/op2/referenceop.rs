//! Converting an owned flow into a reference flow.
use vstd::prelude::*;
use super::op::{Op, PushOp, MovePushOp, RefPushOp};
use super::cloneop::CloneOp;

verus! {

/// An operator that pushes a reference to each owned item it is given.
pub struct ReferenceOp<O: Op> {
    op: O,
}

impl<O: Op> ReferenceOp<O> {
    pub closed spec fn op_spec(&self) -> O {
        self.op
    }

    pub fn new(op: O) -> (r: Self)
        ensures
            r.op_spec() == op,
    {
        ReferenceOp { op }
    }
}

impl<O: Op> Op for ReferenceOp<O> {}

impl<O: PushOp> PushOp for ReferenceOp<O> {
    type Inflow = O::Inflow;
    type Indomain = O::Indomain;
}

impl<O: RefPushOp> MovePushOp for ReferenceOp<O> {
    type Feedback = O::Feedback;

    open spec fn move_pushed(pre: Self, item: O::Indomain, post: Self) -> bool {
        O::ref_pushed(pre.op_spec(), item, post.op_spec())
    }

    fn push(&mut self, item: O::Indomain) -> (fb: O::Feedback) {
        self.op.push(&item)
    }
}

/// `ReferenceOp` and `CloneOp` are opposites: an owned item pushed through
/// both reaches the operator behind them as a clone of itself.
pub proof fn lemma_reference_then_clone<O: MovePushOp>(
    pre: ReferenceOp<CloneOp<O>>,
    item: O::Indomain,
    post: ReferenceOp<CloneOp<O>>,
) where O::Indomain: Clone
    ensures
        ReferenceOp::<CloneOp<O>>::move_pushed(pre, item, post) <==> exists|c: O::Indomain|
            cloned(item, c) && #[trigger] O::move_pushed(
                pre.op_spec().op_spec(),
                c,
                post.op_spec().op_spec(),
            ),
{
}

} // verus!
