//! An operator that hands out copies of the deltas and value of another.
use vstd::prelude::*;
use std::task::Context;
use crate::lattice::Merge;
use crate::task::Poll;
use super::optrait::{Op, OpDelta, OpValue};

verus! {

pub struct CloneOp<O: Op> {
    op: O,
}

impl<O: Op> CloneOp<O> {
    pub closed spec fn op_spec(&self) -> O {
        self.op
    }

    pub fn new(op: O) -> (r: Self)
        ensures
            r.op_spec() == op,
    {
        CloneOp { op }
    }
}

impl<O: Op> Op for CloneOp<O> {
    type LatRepr = O::LatRepr;
}

impl<O: OpDelta> OpDelta for CloneOp<O> {
    /// Each delta is handed on as a copy.
    open spec fn delta_polled(
        pre: Self,
        post: Self,
        out: Poll<Option<<O::LatRepr as Merge>::Domain>>,
    ) -> bool {
        exists|r: Poll<Option<<O::LatRepr as Merge>::Domain>>|
            #[trigger] O::delta_polled(pre.op_spec(), post.op_spec(), r) && match r {
                Poll::Ready(Some(d)) => out matches Poll::Ready(Some(e)) && O::LatRepr::copy_of(d, e),
                Poll::Ready(None) => out == Poll::<Option<<O::LatRepr as Merge>::Domain>>::Ready(
                    None,
                ),
                Poll::Pending => out is Pending,
            }
    }

    fn poll_delta(&mut self, ctx: &mut Context<'_>) -> (out: Poll<
        Option<<O::LatRepr as Merge>::Domain>,
    >) {
        let ghost pre = *self;
        let r = self.op.poll_delta(ctx);
        let ghost rg = r;
        let out = match r {
            Poll::Ready(Some(delta)) => Poll::Ready(Some(O::LatRepr::copy(&delta))),
            Poll::Ready(None) => Poll::Ready(None),
            Poll::Pending => Poll::Pending,
        };
        assert(O::delta_polled(pre.op_spec(), self.op_spec(), rg));
        out
    }
}

impl<O: OpValue> OpValue for CloneOp<O> {
    open spec fn value_lattice(&self) -> <O::LatRepr as Merge>::Lattice {
        self.op_spec().value_lattice()
    }

    /// A copy of the value the operator hands out.
    fn get_value(&self) -> (r: <O::LatRepr as Merge>::Domain)
        ensures
            exists|v: <O::LatRepr as Merge>::Domain|
                O::LatRepr::lattice(v) == self.op_spec().value_lattice() && #[trigger] O::LatRepr::copy_of(v, r),
    {
        let v = self.op.get_value();
        O::LatRepr::copy(&v)
    }
}

} // verus!
