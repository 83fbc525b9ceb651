//! Converting an owned flow into a reference flow.
use vstd::prelude::*;
use crate::task::Poll;
use super::op::{Op, PushOp, RefPushOp};

verus! {

/// An operator that pushes a reference to each owned item it is given.
/// To go from references to owned items, use `CloneOp` or `ToOwnedOp`.
pub struct ReferenceOp<O: RefPushOp> {
    op: O,
}

impl<O: RefPushOp> ReferenceOp<O> {
    pub closed spec fn op_spec(&self) -> O {
        self.op
    }

    pub fn new(op: O) -> (r: Self)
        ensures
            r.op_spec() == op,
    {
        ReferenceOp { op }
    }
}

impl<O: RefPushOp> Op for ReferenceOp<O> {}

impl<O: RefPushOp> PushOp for ReferenceOp<O> {
    type Inflow = O::Inflow;
    type Indomain = O::Indomain;
    type Feedback = O::Feedback;

    open spec fn pushed(pre: Self, item: O::Indomain, post: Self) -> bool {
        O::ref_pushed(pre.op_spec(), item, post.op_spec())
    }

    fn push(&mut self, item: O::Indomain) -> (fb: O::Feedback) {
        self.op.push(&item)
    }
}

} // verus!
