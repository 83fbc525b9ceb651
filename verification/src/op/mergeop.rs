//! The union of two operators on the same lattice.
use vstd::prelude::*;
use std::task::Context;
use crate::lattice::Merge;
use crate::task::Poll;
use super::optrait::{Op, OpDelta, OpValue};

verus! {

pub struct MergeOp<A: Op, B: Op<LatRepr = A::LatRepr>> {
    op_a: A,
    op_b: B,
}

/// One poll of the union: a delta of the first operator is yielded at
/// once; otherwise that of the second. The union ends when both have ended.
pub open spec fn merge_delta_step<D>(ra: Poll<Option<D>>, rb: Poll<Option<D>>) -> Poll<Option<D>> {
    match ra {
        Poll::Ready(Some(d)) => Poll::Ready(Some(d)),
        _ => match rb {
            Poll::Ready(Some(d)) => Poll::Ready(Some(d)),
            Poll::Ready(None) => ra,
            Poll::Pending => Poll::Pending,
        },
    }
}

impl<A: Op, B: Op<LatRepr = A::LatRepr>> MergeOp<A, B> {
    pub closed spec fn op_a_spec(&self) -> A {
        self.op_a
    }

    pub closed spec fn op_b_spec(&self) -> B {
        self.op_b
    }

    pub fn new(op_a: A, op_b: B) -> (r: Self)
        ensures
            r.op_a_spec() == op_a,
            r.op_b_spec() == op_b,
    {
        MergeOp { op_a, op_b }
    }
}

impl<A: Op, B: Op<LatRepr = A::LatRepr>> Op for MergeOp<A, B> {
    type LatRepr = A::LatRepr;
}

impl<A: OpDelta, B: OpDelta<LatRepr = A::LatRepr>> OpDelta for MergeOp<A, B> {
    /// The second operator is polled only when the first has no delta.
    open spec fn delta_polled(
        pre: Self,
        post: Self,
        out: Poll<Option<<A::LatRepr as Merge>::Domain>>,
    ) -> bool {
        exists|ra: Poll<Option<<A::LatRepr as Merge>::Domain>>|
            #[trigger] A::delta_polled(pre.op_a_spec(), post.op_a_spec(), ra) && if ra matches Poll::Ready(
                Some(_),
            ) {
                post.op_b_spec() == pre.op_b_spec() && out == ra
            } else {
                exists|rb: Poll<Option<<A::LatRepr as Merge>::Domain>>|
                    #[trigger] B::delta_polled(pre.op_b_spec(), post.op_b_spec(), rb) && out
                        == merge_delta_step(ra, rb)
            }
    }

    fn poll_delta(&mut self, ctx: &mut Context<'_>) -> (out: Poll<
        Option<<A::LatRepr as Merge>::Domain>,
    >) {
        let ghost pre = *self;
        let ra = self.op_a.poll_delta(ctx);
        let not_ready = match ra {
            Poll::Ready(Some(delta)) => {
                let r = Poll::Ready(Some(delta));
                assert(A::delta_polled(pre.op_a_spec(), self.op_a_spec(), r));
                return r;
            },
            Poll::Ready(None) => Poll::Ready(None),
            Poll::Pending => Poll::Pending,
        };
        let ghost ra_ghost = not_ready;
        let rb = self.op_b.poll_delta(ctx);
        let ghost rb_ghost = rb;
        let out = match rb {
            Poll::Ready(Some(delta)) => Poll::Ready(Some(delta)),
            Poll::Ready(None) => not_ready,
            Poll::Pending => Poll::Pending,
        };
        assert(A::delta_polled(pre.op_a_spec(), self.op_a_spec(), ra_ghost));
        assert(B::delta_polled(pre.op_b_spec(), self.op_b_spec(), rb_ghost));
        assert(out == merge_delta_step(ra_ghost, rb_ghost));
        out
    }
}

impl<A: OpValue, B: OpValue<LatRepr = A::LatRepr>> OpValue for MergeOp<A, B> {
    /// The join of the two values.
    open spec fn value_lattice(&self) -> <A::LatRepr as Merge>::Lattice {
        A::LatRepr::join(self.op_a_spec().value_lattice(), self.op_b_spec().value_lattice())
    }

    fn get_value(&self) -> (r: <A::LatRepr as Merge>::Domain) {
        let mut val = self.op_a.get_value();
        A::LatRepr::merge_in(&mut val, self.op_b.get_value());
        val
    }
}

} // verus!
