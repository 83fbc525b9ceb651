//! Map-flatten over pairs of a dataflow item and a reactive value.
use vstd::prelude::*;
use std::task::Context;
use crate::func::RendezvousFn;
use crate::task::{Poll, context_waker, waker_wake_by_ref};
use super::op::{Op, PullOp};

verus! {

/// Map-flatten for owned values over rendezvous pairs: each pair becomes
/// the items of `func`'s output. The items beyond the first are kept in
/// `out` and handed out first by the following pulls. When `func` gives
/// nothing, the task is woken to be polled again at once.
#[verifier::reject_recursive_types(T)]
pub struct MapFlattenMoveRendezvousOp<O: Op, F: RendezvousFn<Outdomain = Vec<T>>, T> {
    op: O,
    func: F,
    out: Vec<T>,
}

impl<O: Op, F: RendezvousFn<Outdomain = Vec<T>>, T> MapFlattenMoveRendezvousOp<O, F, T> {
    pub closed spec fn op_spec(&self) -> O {
        self.op
    }

    pub closed spec fn func_spec(&self) -> F {
        self.func
    }

    pub closed spec fn out_spec(&self) -> Seq<T> {
        self.out@
    }

    pub fn new(op: O, func: F) -> (r: Self)
        ensures
            r.op_spec() == op,
            r.func_spec() == func,
            r.out_spec() == Seq::<T>::empty(),
    {
        MapFlattenMoveRendezvousOp { op, func, out: Vec::new() }
    }
}

impl<O: Op, F: RendezvousFn<Outdomain = Vec<T>>, T> Op for MapFlattenMoveRendezvousOp<O, F, T> {}

impl<
    O: PullOp<Outdomain = (F::InDf, F::InRx)>,
    F: RendezvousFn<Outdomain = Vec<T>>,
    T,
> PullOp for MapFlattenMoveRendezvousOp<O, F, T> {
    type Outflow = O::Outflow;
    type Outdomain = T;

    open spec fn pulled(pre: Self, post: Self, out: Poll<Option<T>>) -> bool {
        &&& post.func_spec() == pre.func_spec()
        &&& if pre.out_spec().len() > 0 {
            &&& post.op_spec() == pre.op_spec()
            &&& out == Poll::Ready(Some(pre.out_spec()[0]))
            &&& post.out_spec() == pre.out_spec().drop_first()
        } else {
            exists|r: Poll<Option<(F::InDf, F::InRx)>>|
                #[trigger] O::pulled(pre.op_spec(), post.op_spec(), r) && match r {
                    Poll::Ready(Some(x)) => {
                        let ys = pre.func_spec().call_spec(x)@;
                        if ys.len() > 0 {
                            out == Poll::Ready(Some(ys[0])) && post.out_spec() == ys.drop_first()
                        } else {
                            out is Pending && post.out_spec() == pre.out_spec()
                        }
                    },
                    Poll::Ready(None) => out == Poll::<Option<T>>::Ready(None)
                        && post.out_spec() == pre.out_spec(),
                    Poll::Pending => out is Pending && post.out_spec() == pre.out_spec(),
                }
        }
    }

    fn poll_next(&mut self, ctx: &mut Context<'_>) -> (out: Poll<Option<T>>) {
        if self.out.len() > 0 {
            let item = self.out.remove(0);
            return Poll::Ready(Some(item));
        }
        let ghost pre = *self;
        let r = self.op.poll_next(ctx);
        let ghost rg = r;
        let out = match r {
            Poll::Pending => Poll::Pending,
            Poll::Ready(None) => Poll::Ready(None),
            Poll::Ready(Some(item)) => {
                let mut newout = self.func.call(item);
                if newout.len() > 0 {
                    let first = newout.remove(0);
                    self.out = newout;
                    Poll::Ready(Some(first))
                } else {
                    waker_wake_by_ref(context_waker(ctx));
                    Poll::Pending
                }
            },
        };
        assert(O::pulled(pre.op_spec(), self.op_spec(), rg));
        out
    }
}

} // verus!
