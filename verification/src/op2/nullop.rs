//! An operator that never produces and ignores what it is given.
use vstd::prelude::*;
use std::future::Ready;
use std::marker::PhantomData;
use std::task::Context;
use crate::task::{Poll, future_ready};
use super::op::{Op, PullOp, PushOp, MovePullOp, RefPullOp, MovePushOp, RefPushOp};
use super::types::DF;

verus! {

pub struct NullOp<T> {
    _phantom: PhantomData<T>,
}

impl<T> NullOp<T> {
    pub fn new() -> Self {
        NullOp { _phantom: PhantomData }
    }
}

impl<T> Op for NullOp<T> {}

impl<T> PullOp for NullOp<T> {
    type Outflow = DF;
    type Outdomain = T;
}

impl<T> PushOp for NullOp<T> {
    type Inflow = DF;
    type Indomain = T;
}

impl<T> MovePullOp for NullOp<T> {
    open spec fn move_polled(pre: Self, post: Self, out: Poll<Option<T>>) -> bool {
        post == pre && out is Pending
    }

    fn poll_next(&mut self, _ctx: &mut Context<'_>) -> (out: Poll<Option<T>>) {
        Poll::Pending
    }
}

impl<T> RefPullOp for NullOp<T> {
    open spec fn ref_polled(pre: Self, post: Self, out: Poll<Option<T>>) -> bool {
        post == pre && out is Pending
    }

    fn poll_next(&mut self, _ctx: &mut Context<'_>) -> (out: Poll<Option<&T>>) {
        Poll::Pending
    }
}

impl<T> MovePushOp for NullOp<T> {
    type Feedback = Ready<()>;

    open spec fn move_pushed(pre: Self, item: T, post: Self) -> bool {
        post == pre
    }

    fn push(&mut self, _item: T) -> (fb: Ready<()>) {
        future_ready(())
    }
}

impl<T> RefPushOp for NullOp<T> {
    type Feedback = Ready<()>;

    open spec fn ref_pushed(pre: Self, item: T, post: Self) -> bool {
        post == pre
    }

    fn push(&mut self, _item: &T) -> (fb: Ready<()>) {
        future_ready(())
    }
}

} // verus!
