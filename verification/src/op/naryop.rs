//! Operators with two inputs or two outputs.
use vstd::prelude::*;
use std::task::Context;
use futures::future::Join;
use crate::feedback::join2;
use crate::task::Poll;
use super::op::{Op, PullOp, PushOp};

verus! {

/// An operator which, for each item, copies it and pushes it to both
/// downstream operators.
pub struct SplitOp<O: PushOp, P: PushOp<Indomain = O::Indomain>> {
    op0: O,
    op1: P,
}

impl<O: PushOp, P: PushOp<Indomain = O::Indomain>> SplitOp<O, P> {
    pub closed spec fn op0_spec(&self) -> O {
        self.op0
    }

    pub closed spec fn op1_spec(&self) -> P {
        self.op1
    }

    /// Splits to `op0` and `op1`.
    pub fn new(op0: O, op1: P) -> (r: Self)
        ensures
            r.op0_spec() == op0,
            r.op1_spec() == op1,
    {
        SplitOp { op0, op1 }
    }
}

impl<O: PushOp, P: PushOp<Indomain = O::Indomain>> Op for SplitOp<O, P> {}

impl<O: PushOp, P: PushOp<Indomain = O::Indomain>> PushOp for SplitOp<O, P> where O::Indomain: Copy {
    type Inflow = O::Inflow;
    type Indomain = O::Indomain;
    type Feedback = Join<O::Feedback, P::Feedback>;

    /// The item goes to both.
    open spec fn pushed(pre: Self, item: O::Indomain, post: Self) -> bool {
        O::pushed(pre.op0_spec(), item, post.op0_spec()) && P::pushed(
            pre.op1_spec(),
            item,
            post.op1_spec(),
        )
    }

    fn push(&mut self, item: O::Indomain) -> (fb: Join<O::Feedback, P::Feedback>) {
        let f0 = self.op0.push(item);
        let f1 = self.op1.push(item);
        join2(f0, f1)
    }
}

/// One poll of a biased merge, once the first input had no item: an item
/// of the second input is yielded; the merge ends when both inputs have
/// ended; otherwise it is pending.
pub open spec fn merge_pull_step<T>(r0: Poll<Option<T>>, r1: Poll<Option<T>>) -> Poll<Option<T>> {
    match r1 {
        Poll::Ready(Some(x)) => Poll::Ready(Some(x)),
        _ => if r0 is Ready && r1 is Ready {
            Poll::Ready(None)
        } else {
            Poll::Pending
        },
    }
}

/// An operator which receives from two upstream operators. It is biased:
/// it gives priority to the first operator, then the second.
pub struct MergeOp<O: PullOp, P: PullOp<Outdomain = O::Outdomain>> {
    op0: O,
    op1: P,
}

impl<O: PullOp, P: PullOp<Outdomain = O::Outdomain>> MergeOp<O, P> {
    pub closed spec fn op0_spec(&self) -> O {
        self.op0
    }

    pub closed spec fn op1_spec(&self) -> P {
        self.op1
    }

    /// Receives from both `op0` and `op1`, pulling from `op0` first.
    pub fn new(op0: O, op1: P) -> (r: Self)
        ensures
            r.op0_spec() == op0,
            r.op1_spec() == op1,
    {
        MergeOp { op0, op1 }
    }
}

impl<O: PullOp, P: PullOp<Outdomain = O::Outdomain>> Op for MergeOp<O, P> {}

impl<O: PullOp, P: PullOp<Outdomain = O::Outdomain>> PullOp for MergeOp<O, P> {
    type Outflow = O::Outflow;
    type Outdomain = O::Outdomain;

    /// An item of the first operator is yielded at once, without polling
    /// the second.
    open spec fn pulled(pre: Self, post: Self, out: Poll<Option<O::Outdomain>>) -> bool {
        exists|r0: Poll<Option<O::Outdomain>>|
            #[trigger] O::pulled(pre.op0_spec(), post.op0_spec(), r0) && if r0 matches Poll::Ready(
                Some(_),
            ) {
                post.op1_spec() == pre.op1_spec() && out == r0
            } else {
                exists|r1: Poll<Option<O::Outdomain>>|
                    #[trigger] P::pulled(pre.op1_spec(), post.op1_spec(), r1) && out
                        == merge_pull_step(r0, r1)
            }
    }

    fn poll_next(&mut self, ctx: &mut Context<'_>) -> (out: Poll<Option<O::Outdomain>>) {
        let ghost pre = *self;
        let poll0 = self.op0.poll_next(ctx);
        let ready0 = poll0.is_ready();
        let ghost r0 = poll0;
        match poll0 {
            Poll::Ready(Some(item)) => {
                let r = Poll::Ready(Some(item));
                assert(O::pulled(pre.op0_spec(), self.op0_spec(), r));
                return r;
            },
            _ => {},
        }
        let poll1 = self.op1.poll_next(ctx);
        let ghost r1 = poll1;
        let ready1 = poll1.is_ready();
        let out = match poll1 {
            Poll::Ready(Some(item)) => Poll::Ready(Some(item)),
            _ => if ready0 && ready1 {
                Poll::Ready(None)
            } else {
                Poll::Pending
            },
        };
        assert(O::pulled(pre.op0_spec(), self.op0_spec(), r0));
        assert(P::pulled(pre.op1_spec(), self.op1_spec(), r1));
        assert(out == merge_pull_step(r0, r1));
        out
    }
}

} // verus!
