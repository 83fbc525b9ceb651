//! Converting references into owned items by cloning.
use vstd::prelude::*;
use std::task::Context;
use crate::task::Poll;
use super::op::{Op, PullOp, PushOp, MovePullOp, RefPullOp, MovePushOp, RefPushOp};

verus! {

pub struct CloneOp<O: Op> {
    op: O,
}

impl<O: Op> CloneOp<O> {
    pub closed spec fn op_spec(&self) -> O {
        self.op
    }

    pub fn new(op: O) -> (r: Self)
        ensures
            r.op_spec() == op,
    {
        CloneOp { op }
    }
}

impl<O: Op> Op for CloneOp<O> {}

impl<O: PullOp> PullOp for CloneOp<O> {
    type Outflow = O::Outflow;
    type Outdomain = O::Outdomain;
}

impl<O: PushOp> PushOp for CloneOp<O> {
    type Inflow = O::Inflow;
    type Indomain = O::Indomain;
}

/// `out` is `r` with its item, if any, replaced by a clone.
pub open spec fn cloned_poll<T: Clone>(r: Poll<Option<T>>, out: Poll<Option<T>>) -> bool {
    match r {
        Poll::Ready(Some(x)) => out matches Poll::Ready(Some(y)) && cloned(x, y),
        Poll::Ready(None) => out == Poll::<Option<T>>::Ready(None),
        Poll::Pending => out is Pending,
    }
}

impl<O: RefPullOp> MovePullOp for CloneOp<O> where O::Outdomain: Clone {
    /// Each referenced item is handed on as a clone.
    open spec fn move_polled(pre: Self, post: Self, out: Poll<Option<O::Outdomain>>) -> bool {
        exists|r: Poll<Option<O::Outdomain>>|
            #[trigger] O::ref_polled(pre.op_spec(), post.op_spec(), r) && cloned_poll(r, out)
    }

    fn poll_next(&mut self, ctx: &mut Context<'_>) -> (out: Poll<Option<O::Outdomain>>) {
        let ghost pre = *self;
        let polled = self.op.poll_next(ctx);
        let ghost pg = super::op::deref_poll(polled);
        let out = match polled {
            Poll::Ready(Some(item)) => Poll::Ready(Some(item.clone())),
            Poll::Ready(None) => Poll::Ready(None),
            Poll::Pending => Poll::Pending,
        };
        assert(O::ref_polled(pre.op_spec(), self.op_spec(), pg));
        out
    }
}

impl<O: MovePushOp> RefPushOp for CloneOp<O> where O::Indomain: Clone {
    type Feedback = O::Feedback;

    /// A clone of the item is pushed.
    open spec fn ref_pushed(pre: Self, item: O::Indomain, post: Self) -> bool {
        exists|c: O::Indomain| cloned(item, c) && #[trigger] O::move_pushed(pre.op_spec(), c, post.op_spec())
    }

    fn push(&mut self, item: &O::Indomain) -> (fb: O::Feedback) {
        let ghost pre = *self;
        let c = item.clone();
        let ghost cg = c;
        let fb = self.op.push(c);
        assert(O::move_pushed(pre.op_spec(), cg, self.op_spec()));
        fb
    }
}

} // verus!
