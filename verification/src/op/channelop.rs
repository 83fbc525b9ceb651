//! The receiving half of a channel as a pulling operator.
use vstd::prelude::*;
use std::task::Context;
use tokio::sync::mpsc::Receiver;
use crate::channel::receiver_poll_recv;
use crate::task::Poll;
use super::flow::DF;
use super::op::{Op, PullOp};

verus! {

/// Pulls the messages of a channel, in the order they were sent.
#[verifier::reject_recursive_types(T)]
pub struct ChannelPullOp<T> {
    recv: Receiver<T>,
}

impl<T> ChannelPullOp<T> {
    /// The receiving half this operator pulls from.
    pub closed spec fn receiver_spec(&self) -> Receiver<T> {
        self.recv
    }

    /// Pulls from `recv`.
    pub fn new(recv: Receiver<T>) -> (r: Self)
        ensures
            r.receiver_spec() == recv,
    {
        ChannelPullOp { recv }
    }
}

impl<T> Op for ChannelPullOp<T> {}

impl<T> PullOp for ChannelPullOp<T> {
    type Outflow = DF<T>;
    type Outdomain = T;

    /// What a pull yields depends on the senders; any outcome may come.
    open spec fn pulled(pre: Self, post: Self, out: Poll<Option<T>>) -> bool {
        true
    }

    fn poll_next(&mut self, ctx: &mut Context<'_>) -> (out: Poll<Option<T>>) {
        receiver_poll_recv(&mut self.recv, ctx)
    }
}

} // verus!
