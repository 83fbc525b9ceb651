//! Pure functions for the map operators, and futures that drive operators.
use vstd::prelude::*;
use std::future::Future;
use std::pin::Pin;
use std::task::Context;
use crate::task::{Poll, pin_get_mut};
use super::op::{Op, PullOp, MovePullOp};
pub use crate::func::{PureFn, PureRefFn};

verus! {

/// A future that completes with the next item pulled from an operator.
pub struct MoveNext<'a, O: MovePullOp> {
    op: &'a mut O,
}

impl<'a, O: MovePullOp> MoveNext<'a, O> {
    pub closed spec fn op_spec(self) -> O {
        *self.op
    }

    /// A future for the next item of `op`.
    pub fn new(op: &'a mut O) -> (r: Self)
        ensures
            r.op_spec() == *old(op),
    {
        MoveNext { op }
    }

    /// One poll of the future: one pull of the operator, whose outcome is
    /// handed on unchanged. An item or the end completes the future.
    pub fn poll_once(&mut self, ctx: &mut Context<'_>) -> (r: Poll<Option<O::Outdomain>>)
        ensures
            O::move_polled(old(self).op_spec(), final(self).op_spec(), r),
    {
        self.op.poll_next(ctx)
    }
}

impl<'a, O: MovePullOp> Unpin for MoveNext<'a, O> {}

impl<'a, O: MovePullOp> Future for MoveNext<'a, O> {
    type Output = Option<O::Outdomain>;

    fn poll(self: Pin<&mut Self>, ctx: &mut Context<'_>) -> std::task::Poll<Option<O::Outdomain>> {
        let this = pin_get_mut(self);
        this.poll_once(ctx).into_std()
    }
}

/// The future of `sleep_yield_now`: pending once, ready after.
pub struct SleepYieldNow {
    yielded: bool,
}

impl SleepYieldNow {
    pub closed spec fn yielded_spec(&self) -> bool {
        self.yielded
    }

    /// One poll of the future: the first is pending, every later one ready.
    /// Unlike a yield, the first poll does not wake the task, so it sleeps
    /// until an event wakes it.
    pub fn poll_yield(&mut self) -> (r: Poll<()>)
        ensures
            final(self).yielded_spec(),
            r == (if old(self).yielded_spec() {
                Poll::Ready(())
            } else {
                Poll::Pending
            }),
    {
        if self.yielded {
            Poll::Ready(())
        } else {
            self.yielded = true;
            Poll::Pending
        }
    }
}

impl Unpin for SleepYieldNow {}

impl Future for SleepYieldNow {
    type Output = ();

    fn poll(self: Pin<&mut Self>, _ctx: &mut Context<'_>) -> std::task::Poll<()> {
        let this = pin_get_mut(self);
        this.poll_yield().into_std()
    }
}

/// A future which puts the current task to sleep: it is pending on its
/// first poll and does not wake the task, so the task stays asleep until
/// an event wakes it.
pub fn sleep_yield_now() -> (r: SleepYieldNow)
    ensures
        !r.yielded_spec(),
{
    SleepYieldNow { yielded: false }
}

} // verus!
