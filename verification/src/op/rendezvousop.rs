//! Pairing each dataflow item with the current reactive value.
use vstd::prelude::*;
use std::task::Context;
use crate::task::Poll;
use super::op::{Op, PullOp};

verus! {

/// An operator which pairs dataflow items with the reactive value: it first
/// gets a reactive value, then a dataflow item.
pub struct RendezvousOp<O: PullOp, P: PullOp> {
    op_df: O,
    op_rx: P,
}

/// One poll of a rendezvous, once the reactive side gave `rx`: only with a
/// reactive value is the dataflow side polled.
pub open spec fn rendezvous_step<A, B>(rx: Poll<Option<B>>, df: Poll<Option<A>>) -> Poll<Option<(A, B)>> {
    match rx {
        Poll::Ready(Some(b)) => match df {
            Poll::Ready(Some(a)) => Poll::Ready(Some((a, b))),
            Poll::Ready(None) => Poll::Ready(None),
            Poll::Pending => Poll::Pending,
        },
        Poll::Ready(None) => Poll::Ready(None),
        Poll::Pending => Poll::Pending,
    }
}

impl<O: PullOp, P: PullOp> RendezvousOp<O, P> {
    pub closed spec fn op_df_spec(&self) -> O {
        self.op_df
    }

    pub closed spec fn op_rx_spec(&self) -> P {
        self.op_rx
    }

    pub fn new(op_df: O, op_rx: P) -> (r: Self)
        ensures
            r.op_df_spec() == op_df,
            r.op_rx_spec() == op_rx,
    {
        RendezvousOp { op_df, op_rx }
    }
}

impl<O: PullOp, P: PullOp> Op for RendezvousOp<O, P> {}

impl<O: PullOp, P: PullOp> PullOp for RendezvousOp<O, P> {
    type Outflow = O::Outflow;
    type Outdomain = (O::Outdomain, P::Outdomain);

    open spec fn pulled(pre: Self, post: Self, out: Poll<Option<(O::Outdomain, P::Outdomain)>>) -> bool {
        exists|rx: Poll<Option<P::Outdomain>>|
            #[trigger] P::pulled(pre.op_rx_spec(), post.op_rx_spec(), rx) && if rx matches Poll::Ready(
                Some(_),
            ) {
                exists|df: Poll<Option<O::Outdomain>>|
                    #[trigger] O::pulled(pre.op_df_spec(), post.op_df_spec(), df) && out
                        == rendezvous_step(rx, df)
            } else {
                post.op_df_spec() == pre.op_df_spec() && out == rendezvous_step(
                    rx,
                    Poll::<Option<O::Outdomain>>::Pending,
                )
            }
    }

    fn poll_next(&mut self, ctx: &mut Context<'_>) -> (out: Poll<Option<(O::Outdomain, P::Outdomain)>>) {
        let ghost pre = *self;
        let rx_poll = self.op_rx.poll_next(ctx);
        let ghost rxg = rx_poll;
        match rx_poll {
            Poll::Ready(Some(rx_item)) => {
                let df_poll = self.op_df.poll_next(ctx);
                let ghost dfg = df_poll;
                let out = match df_poll {
                    Poll::Ready(Some(df_item)) => Poll::Ready(Some((df_item, rx_item))),
                    Poll::Ready(None) => Poll::Ready(None),
                    Poll::Pending => Poll::Pending,
                };
                assert(P::pulled(pre.op_rx_spec(), self.op_rx_spec(), rxg));
                assert(O::pulled(pre.op_df_spec(), self.op_df_spec(), dfg));
                out
            },
            Poll::Ready(None) => {
                assert(P::pulled(pre.op_rx_spec(), self.op_rx_spec(), rxg));
                Poll::Ready(None)
            },
            Poll::Pending => {
                assert(P::pulled(pre.op_rx_spec(), self.op_rx_spec(), rxg));
                Poll::Pending
            },
        }
    }
}

} // verus!
