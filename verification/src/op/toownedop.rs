//! Converting a reference flow into an owned flow through `ToOwned`.
use vstd::prelude::*;
use std::borrow::ToOwned;
use std::marker::PhantomData;
use std::task::Context;
use crate::convert::to_owned_of;
use crate::task::Poll;
use super::op::{Op, PullOp, PushOp, RefPullOp, RefPushOp};

verus! {

/// An operator that hands on owned copies of referenced items.
pub struct ToOwnedOp<O: Op, T: ToOwned> {
    op: O,
    _phantom: PhantomData<T>,
}

impl<O: Op, T: ToOwned> ToOwnedOp<O, T> {
    pub closed spec fn op_spec(&self) -> O {
        self.op
    }

    pub fn new(op: O) -> (r: Self)
        ensures
            r.op_spec() == op,
    {
        ToOwnedOp { op, _phantom: PhantomData }
    }
}

impl<O: Op, T: ToOwned> Op for ToOwnedOp<O, T> {}

/// The same outcome, with whatever item it carries replaced.
pub open spec fn same_shape<A, B>(a: Poll<Option<A>>, b: Poll<Option<B>>) -> bool {
    match a {
        Poll::Ready(Some(_)) => b matches Poll::Ready(Some(_)),
        Poll::Ready(None) => b matches Poll::Ready(None),
        Poll::Pending => b is Pending,
    }
}

impl<O: RefPullOp<Outdomain = T>, T: ToOwned> PullOp for ToOwnedOp<O, T> {
    type Outflow = O::Outflow;
    type Outdomain = T::Owned;

    /// Each item is an owned copy of the referenced one.
    open spec fn pulled(pre: Self, post: Self, out: Poll<Option<T::Owned>>) -> bool {
        exists|r: Poll<Option<T>>|
            #[trigger] O::ref_pulled(pre.op_spec(), post.op_spec(), r) && same_shape(r, out)
    }

    fn poll_next(&mut self, ctx: &mut Context<'_>) -> (out: Poll<Option<T::Owned>>) {
        let ghost pre = *self;
        let polled = self.op.poll_next(ctx);
        let ghost pg = crate::op::op::deref_poll(polled);
        let out = match polled {
            Poll::Ready(Some(item)) => Poll::Ready(Some(to_owned_of(item))),
            Poll::Ready(None) => Poll::Ready(None),
            Poll::Pending => Poll::Pending,
        };
        assert(O::ref_pulled(pre.op_spec(), self.op_spec(), pg));
        out
    }
}

impl<O: PushOp<Indomain = T::Owned>, T: ToOwned> RefPushOp for ToOwnedOp<O, T> {
    type Inflow = O::Inflow;
    type Indomain = T;
    type Feedback = O::Feedback;

    /// An owned copy of the item is pushed.
    open spec fn ref_pushed(pre: Self, item: T, post: Self) -> bool {
        exists|o: T::Owned| #[trigger] O::pushed(pre.op_spec(), o, post.op_spec())
    }

    fn push(&mut self, item: &T) -> (fb: O::Feedback) {
        let ghost pre = *self;
        let owned = to_owned_of(item);
        let ghost og = owned;
        let fb = self.op.push(owned);
        assert(O::pushed(pre.op_spec(), og, self.op_spec()));
        fb
    }
}

} // verus!
