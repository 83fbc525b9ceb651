//! An operator that records a line for each item that passes, for
//! debugging. The lines are handed out with `take_log`, to be printed.
use vstd::prelude::*;
use std::fmt::Debug;
use std::task::Context;
use crate::convert::{logged_after, record_line};
use crate::task::Poll;
use super::op::{Op, PullOp, PushOp, MovePullOp, RefPullOp, MovePushOp, RefPushOp, deref_poll};

verus! {

pub struct DebugOp<P: Op> {
    tag: &'static str,
    next_pipe: P,
    log: Vec<String>,
}

impl<P: Op> DebugOp<P> {
    pub closed spec fn next_spec(&self) -> P {
        self.next_pipe
    }

    pub closed spec fn tag_spec(&self) -> &'static str {
        self.tag
    }

    /// The lines recorded and not yet taken.
    pub closed spec fn log_spec(&self) -> Seq<String> {
        self.log@
    }

    /// Wraps `next_pipe`, recording lines tagged with `tag`.
    pub fn new(tag: &'static str, next_pipe: P) -> (r: Self)
        ensures
            r.next_spec() == next_pipe,
            r.tag_spec() == tag,
            r.log_spec() == Seq::<String>::empty(),
    {
        DebugOp { tag, next_pipe, log: Vec::new() }
    }

    /// Hands out the recorded lines, oldest first, and forgets them.
    pub fn take_log(&mut self) -> (r: Vec<String>)
        ensures
            r@ == old(self).log_spec(),
            final(self).log_spec() == Seq::<String>::empty(),
            final(self).next_spec() == old(self).next_spec(),
            final(self).tag_spec() == old(self).tag_spec(),
    {
        let mut log: Vec<String> = Vec::new();
        std::mem::swap(&mut log, &mut self.log);
        log
    }

    fn record<T: Debug>(&mut self, item: &T)
        ensures
            final(self).next_spec() == old(self).next_spec(),
            final(self).tag_spec() == old(self).tag_spec(),
            logged_after(old(self).log_spec(), final(self).log_spec(), old(self).tag_spec()@, true),
    {
        record_line(&mut self.log, self.tag, item);
    }
}

impl<P: Op> Op for DebugOp<P> {}

impl<P: PullOp> PullOp for DebugOp<P> {
    type Outflow = P::Outflow;
    type Outdomain = P::Outdomain;
}

impl<P: PushOp> PushOp for DebugOp<P> {
    type Inflow = P::Inflow;
    type Indomain = P::Indomain;
}

impl<P: MovePullOp> MovePullOp for DebugOp<P> where P::Outdomain: Debug {
    open spec fn move_polled(pre: Self, post: Self, out: Poll<Option<P::Outdomain>>) -> bool {
        &&& P::move_polled(pre.next_spec(), post.next_spec(), out)
        &&& post.tag_spec() == pre.tag_spec()
        &&& logged_after(pre.log_spec(), post.log_spec(), pre.tag_spec()@, out matches Poll::Ready(Some(_)))
    }

    fn poll_next(&mut self, ctx: &mut Context<'_>) -> (out: Poll<Option<P::Outdomain>>) {
        let polled = self.next_pipe.poll_next(ctx);
        match &polled {
            Poll::Ready(Some(item)) => self.record(item),
            _ => {},
        }
        polled
    }
}

impl<P: RefPullOp> RefPullOp for DebugOp<P> where P::Outdomain: Debug {
    open spec fn ref_polled(pre: Self, post: Self, out: Poll<Option<P::Outdomain>>) -> bool {
        &&& P::ref_polled(pre.next_spec(), post.next_spec(), out)
        &&& post.tag_spec() == pre.tag_spec()
        &&& logged_after(pre.log_spec(), post.log_spec(), pre.tag_spec()@, out matches Poll::Ready(Some(_)))
    }

    fn poll_next(&mut self, ctx: &mut Context<'_>) -> (out: Poll<Option<&P::Outdomain>>) {
        let polled = self.next_pipe.poll_next(ctx);
        match polled {
            Poll::Ready(Some(item)) => record_line(&mut self.log, self.tag, item),
            _ => {},
        }
        polled
    }
}

impl<P: MovePushOp> MovePushOp for DebugOp<P> where P::Indomain: Debug {
    type Feedback = P::Feedback;

    open spec fn move_pushed(pre: Self, item: P::Indomain, post: Self) -> bool {
        &&& P::move_pushed(pre.next_spec(), item, post.next_spec())
        &&& post.tag_spec() == pre.tag_spec()
        &&& logged_after(pre.log_spec(), post.log_spec(), pre.tag_spec()@, true)
    }

    fn push(&mut self, item: P::Indomain) -> (fb: P::Feedback) {
        self.record(&item);
        self.next_pipe.push(item)
    }
}

impl<P: RefPushOp> RefPushOp for DebugOp<P> where P::Indomain: Debug {
    type Feedback = P::Feedback;

    open spec fn ref_pushed(pre: Self, item: P::Indomain, post: Self) -> bool {
        &&& P::ref_pushed(pre.next_spec(), item, post.next_spec())
        &&& post.tag_spec() == pre.tag_spec()
        &&& logged_after(pre.log_spec(), post.log_spec(), pre.tag_spec()@, true)
    }

    fn push(&mut self, item: &P::Indomain) -> (fb: P::Feedback) {
        self.record(item);
        self.next_pipe.push(item)
    }
}

} // verus!
