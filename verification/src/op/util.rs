//! Futures that drive operators.
use vstd::prelude::*;
use std::future::Future;
use std::pin::Pin;
use std::task::Context;
use crate::op2::util::SleepYieldNow;
use crate::task::{Poll, pin_get_mut};
use super::op::PullOp;

verus! {

/// A future that completes with the next item pulled from an operator.
pub struct MoveNext<'a, O: PullOp> {
    op: &'a mut O,
}

impl<'a, O: PullOp> MoveNext<'a, O> {
    pub closed spec fn op_spec(self) -> O {
        *self.op
    }

    /// A future for the next item of `op`.
    pub fn new(op: &'a mut O) -> (r: Self)
        ensures
            r.op_spec() == *old(op),
    {
        MoveNext { op }
    }

    /// One poll of the future: one pull of the operator, whose outcome is
    /// handed on unchanged. An item or the end completes the future.
    pub fn poll_once(&mut self, ctx: &mut Context<'_>) -> (r: Poll<Option<O::Outdomain>>)
        ensures
            O::pulled(old(self).op_spec(), final(self).op_spec(), r),
    {
        self.op.poll_next(ctx)
    }
}

impl<'a, O: PullOp> Unpin for MoveNext<'a, O> {}

impl<'a, O: PullOp> Future for MoveNext<'a, O> {
    type Output = Option<O::Outdomain>;

    fn poll(self: Pin<&mut Self>, ctx: &mut Context<'_>) -> std::task::Poll<Option<O::Outdomain>> {
        let this = pin_get_mut(self);
        this.poll_once(ctx).into_std()
    }
}

/// A future which puts the current task to sleep. Unlike a yield, it does
/// not wake the task, so the task stays asleep until an event wakes it.
pub fn sleep_yield_now() -> (r: SleepYieldNow)
    ensures
        !r.yielded_spec(),
{
    crate::op2::util::sleep_yield_now()
}

} // verus!
