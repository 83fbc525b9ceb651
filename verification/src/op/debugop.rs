//! An operator that records a line for each item that passes, for
//! debugging. The lines are handed out with `take_log`, to be printed.
use vstd::prelude::*;
use std::fmt::Debug;
use std::task::Context;
use crate::convert::{logged_after, record_line};
use crate::task::Poll;
use super::op::{Op, PullOp, PushOp};

verus! {

pub struct DebugOp<O: Op> {
    op: O,
    tag: &'static str,
    log: Vec<String>,
}

impl<O: Op> DebugOp<O> {
    pub closed spec fn op_spec(&self) -> O {
        self.op
    }

    pub closed spec fn tag_spec(&self) -> &'static str {
        self.tag
    }

    /// The lines recorded and not yet taken.
    pub closed spec fn log_spec(&self) -> Seq<String> {
        self.log@
    }

    /// Wraps `op`, recording lines tagged with `tag`.
    pub fn new(op: O, tag: &'static str) -> (r: Self)
        ensures
            r.op_spec() == op,
            r.tag_spec() == tag,
            r.log_spec() == Seq::<String>::empty(),
    {
        DebugOp { op, tag, log: Vec::new() }
    }

    /// Hands out the recorded lines, oldest first, and forgets them.
    pub fn take_log(&mut self) -> (r: Vec<String>)
        ensures
            r@ == old(self).log_spec(),
            final(self).log_spec() == Seq::<String>::empty(),
            final(self).op_spec() == old(self).op_spec(),
            final(self).tag_spec() == old(self).tag_spec(),
    {
        let mut log: Vec<String> = Vec::new();
        std::mem::swap(&mut log, &mut self.log);
        log
    }
}

impl<O: Op> Op for DebugOp<O> {}

impl<O: PullOp> PullOp for DebugOp<O> where O::Outdomain: Debug {
    type Outflow = O::Outflow;
    type Outdomain = O::Outdomain;

    /// Items pass unchanged; a line is recorded for each.
    open spec fn pulled(pre: Self, post: Self, out: Poll<Option<O::Outdomain>>) -> bool {
        &&& O::pulled(pre.op_spec(), post.op_spec(), out)
        &&& post.tag_spec() == pre.tag_spec()
        &&& logged_after(pre.log_spec(), post.log_spec(), pre.tag_spec()@, out matches Poll::Ready(Some(_)))
    }

    fn poll_next(&mut self, ctx: &mut Context<'_>) -> (out: Poll<Option<O::Outdomain>>) {
        let polled = self.op.poll_next(ctx);
        match &polled {
            Poll::Ready(Some(item)) => record_line(&mut self.log, self.tag, item),
            _ => {},
        }
        polled
    }
}

impl<O: PushOp> PushOp for DebugOp<O> where O::Indomain: Debug {
    type Inflow = O::Inflow;
    type Indomain = O::Indomain;
    type Feedback = O::Feedback;

    /// The item passes unchanged; a line is recorded for it.
    open spec fn pushed(pre: Self, item: O::Indomain, post: Self) -> bool {
        &&& O::pushed(pre.op_spec(), item, post.op_spec())
        &&& post.tag_spec() == pre.tag_spec()
        &&& logged_after(pre.log_spec(), post.log_spec(), pre.tag_spec()@, true)
    }

    fn push(&mut self, item: O::Indomain) -> (fb: O::Feedback) {
        record_line(&mut self.log, self.tag, &item);
        self.op.push(item)
    }
}

} // verus!
