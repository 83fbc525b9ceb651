//! Pushing, from each lattice value, the part that a monotonic filter picks.
use vstd::prelude::*;
use std::future::Ready;
use futures::future::Either;
use crate::feedback::{either_left, either_right};
use crate::func::MonotonicFilterRefFn;
use crate::lattice::Merge;
use crate::task::future_ready;
use super::op::{Op, RefPushOp};

verus! {

/// A monotonic mapping operator: each value is filtered through `func`,
/// and what it picks, if anything, is pushed.
pub struct MonotonicFilterRefOp<
    O: RefPushOp<Indomain = <F::Outmerge as Merge>::Domain>,
    F: MonotonicFilterRefFn,
> {
    op: O,
    func: F,
}

impl<
    O: RefPushOp<Indomain = <F::Outmerge as Merge>::Domain>,
    F: MonotonicFilterRefFn,
> MonotonicFilterRefOp<O, F> {
    pub closed spec fn op_spec(&self) -> O {
        self.op
    }

    pub closed spec fn func_spec(&self) -> F {
        self.func
    }

    pub fn new(op: O, func: F) -> (r: Self)
        ensures
            r.op_spec() == op,
            r.func_spec() == func,
    {
        MonotonicFilterRefOp { op, func }
    }
}

impl<
    O: RefPushOp<Indomain = <F::Outmerge as Merge>::Domain>,
    F: MonotonicFilterRefFn,
> Op for MonotonicFilterRefOp<O, F> {}

impl<
    O: RefPushOp<Indomain = <F::Outmerge as Merge>::Domain>,
    F: MonotonicFilterRefFn,
> RefPushOp for MonotonicFilterRefOp<O, F> where O::Feedback: std::future::Future<Output = ()> {
    type Inflow = O::Inflow;
    type Indomain = <F::Inmerge as Merge>::Domain;
    type Feedback = Either<O::Feedback, Ready<()>>;

    open spec fn ref_pushed(pre: Self, item: <F::Inmerge as Merge>::Domain, post: Self) -> bool {
        &&& post.func_spec() == pre.func_spec()
        &&& match pre.func_spec().call_spec(item) {
            Some(x) => O::ref_pushed(pre.op_spec(), x, post.op_spec()),
            None => post.op_spec() == pre.op_spec(),
        }
    }

    fn push(&mut self, item: &<F::Inmerge as Merge>::Domain) -> (fb: Either<O::Feedback, Ready<()>>) {
        match self.func.call(item) {
            Some(x) => either_left(self.op.push(x)),
            None => either_right(future_ready(())),
        }
    }
}

} // verus!
