//! Map, filter and flatten operators over pure functions.
use vstd::prelude::*;
use std::task::Context;
use crate::feedback::{Joined, join_feedbacks};
use crate::func::{PureFn, PureRefFn, PureRefRefFn};
use crate::task::Poll;
use super::op::{Op, PullOp, PushOp, RefPushOp, pushed_all, lemma_pushed_all_empty, lemma_pushed_all_push};

verus! {

/// Pushes each of `items` into `op`, in order, and joins the futures of
/// the pushes: one per item, in order.
pub fn push_each<O: PushOp>(op: &mut O, items: Vec<O::Indomain>) -> (fb: Joined<O::Feedback>)
    ensures
        pushed_all(*old(op), items@, *final(op)),
        fb.parts().len() == items@.len(),
{
    let ghost pre = *op;
    let ghost all = items@;
    let mut items = items;
    let mut futs: Vec<O::Feedback> = Vec::new();
    let mut k: usize = 0;
    let n = items.len();
    assert(all.len() == n);
    assert(items@ =~= all.skip(0));
    proof {
        lemma_pushed_all_empty(pre);
        assert(all.take(0) =~= Seq::<O::Indomain>::empty());
    }
    while items.len() > 0
        invariant
            pre == *old(op),
            k <= all.len(),
            all.len() <= usize::MAX,
            items@ == all.skip(k as int),
            pushed_all(pre, all.take(k as int), *op),
            futs@.len() == k,
        decreases items.len(),
    {
        let item = items.remove(0);
        let ghost mid = *op;
        let fb = op.push(item);
        futs.push(fb);
        proof {
            lemma_pushed_all_push(pre, all.take(k as int), mid, item, *op);
            assert(all.take(k as int).push(item) =~= all.take(k + 1));
            assert(items@ =~= all.skip(k + 1));
        }
        k = k + 1;
    }
    assert(all.take(k as int) =~= all);
    join_feedbacks(futs)
}

/// Map-flatten for owned values: each item becomes the items of `func`'s
/// output. When pulled, the items beyond the first are kept in `out` and
/// handed out first by the following pulls.
#[verifier::reject_recursive_types(T)]
pub struct MapFlattenMoveOp<O: Op, F: PureFn<Outdomain = Vec<T>>, T> {
    op: O,
    func: F,
    out: Vec<T>,
}

impl<O: Op, F: PureFn<Outdomain = Vec<T>>, T> MapFlattenMoveOp<O, F, T> {
    pub closed spec fn op_spec(&self) -> O {
        self.op
    }

    pub closed spec fn func_spec(&self) -> F {
        self.func
    }

    /// The items produced and not yet handed out.
    pub closed spec fn out_spec(&self) -> Seq<T> {
        self.out@
    }

    pub fn new(op: O, func: F) -> (r: Self)
        ensures
            r.op_spec() == op,
            r.func_spec() == func,
            r.out_spec() == Seq::<T>::empty(),
    {
        MapFlattenMoveOp { op, func, out: Vec::new() }
    }
}

impl<O: Op, F: PureFn<Outdomain = Vec<T>>, T> Op for MapFlattenMoveOp<O, F, T> {}

impl<O: PullOp<Outdomain = F::Indomain>, F: PureFn<Outdomain = Vec<T>>, T> PullOp for MapFlattenMoveOp<
    O,
    F,
    T,
> {
    type Outflow = O::Outflow;
    type Outdomain = T;

    open spec fn pulled(pre: Self, post: Self, out: Poll<Option<T>>) -> bool {
        &&& post.func_spec() == pre.func_spec()
        &&& if pre.out_spec().len() > 0 {
            &&& post.op_spec() == pre.op_spec()
            &&& out == Poll::Ready(Some(pre.out_spec()[0]))
            &&& post.out_spec() == pre.out_spec().drop_first()
        } else {
            exists|r: Poll<Option<F::Indomain>>|
                #[trigger] O::pulled(pre.op_spec(), post.op_spec(), r) && match r {
                    Poll::Ready(Some(x)) => {
                        let ys = pre.func_spec().call_spec(x)@;
                        if ys.len() > 0 {
                            out == Poll::Ready(Some(ys[0])) && post.out_spec() == ys.drop_first()
                        } else {
                            out is Pending && post.out_spec() == pre.out_spec()
                        }
                    },
                    Poll::Ready(None) => out == Poll::<Option<T>>::Ready(None)
                        && post.out_spec() == pre.out_spec(),
                    Poll::Pending => out is Pending && post.out_spec() == pre.out_spec(),
                }
        }
    }

    fn poll_next(&mut self, ctx: &mut Context<'_>) -> (out: Poll<Option<T>>) {
        if self.out.len() > 0 {
            let item = self.out.remove(0);
            return Poll::Ready(Some(item));
        }
        let ghost pre = *self;
        let r = self.op.poll_next(ctx);
        let ghost rg = r;
        let out = match r {
            Poll::Pending => Poll::Pending,
            Poll::Ready(None) => Poll::Ready(None),
            Poll::Ready(Some(item)) => {
                let mut newout = self.func.call(item);
                if newout.len() > 0 {
                    let first = newout.remove(0);
                    self.out = newout;
                    Poll::Ready(Some(first))
                } else {
                    Poll::Pending
                }
            },
        };
        assert(O::pulled(pre.op_spec(), self.op_spec(), rg));
        out
    }
}

impl<O: PushOp<Indomain = T>, F: PureFn<Outdomain = Vec<T>>, T> PushOp for MapFlattenMoveOp<
    O,
    F,
    T,
> {
    type Inflow = O::Inflow;
    type Indomain = F::Indomain;
    type Feedback = Joined<O::Feedback>;

    /// Every item of `func`'s output is pushed, in order.
    open spec fn pushed(pre: Self, item: F::Indomain, post: Self) -> bool {
        &&& post.func_spec() == pre.func_spec()
        &&& post.out_spec() == pre.out_spec()
        &&& pushed_all(pre.op_spec(), pre.func_spec().call_spec(item)@, post.op_spec())
    }

    /// The feedback joins the futures of the pushes of every item `func`
    /// produced, one per item, in order.
    fn push(&mut self, item: F::Indomain) -> (fb: Joined<O::Feedback>)
        ensures
            fb.parts().len() == old(self).func_spec().call_spec(item)@.len(),
    {
        let items = self.func.call(item);
        push_each(&mut self.op, items)
    }
}

/// Map-filter for owned values: each item becomes `func`'s output if there
/// is one, and is dropped otherwise.
pub struct MapFilterMoveOp<O: Op, F: PureFn> {
    op: O,
    func: F,
}

impl<O: Op, F: PureFn> MapFilterMoveOp<O, F> {
    pub closed spec fn op_spec(&self) -> O {
        self.op
    }

    pub closed spec fn func_spec(&self) -> F {
        self.func
    }

    pub fn new(op: O, func: F) -> (r: Self)
        ensures
            r.op_spec() == op,
            r.func_spec() == func,
    {
        MapFilterMoveOp { op, func }
    }
}

impl<O: Op, F: PureFn> Op for MapFilterMoveOp<O, F> {}

impl<T, O: PullOp<Outdomain = F::Indomain>, F: PureFn<Outdomain = Option<T>>> PullOp for MapFilterMoveOp<
    O,
    F,
> {
    type Outflow = O::Outflow;
    type Outdomain = T;

    /// A dropped item leaves this pull pending.
    open spec fn pulled(pre: Self, post: Self, out: Poll<Option<T>>) -> bool {
        &&& post.func_spec() == pre.func_spec()
        &&& exists|r: Poll<Option<F::Indomain>>|
            #[trigger] O::pulled(pre.op_spec(), post.op_spec(), r) && match r {
                Poll::Ready(Some(x)) => match pre.func_spec().call_spec(x) {
                    Some(y) => out == Poll::Ready(Some(y)),
                    None => out is Pending,
                },
                Poll::Ready(None) => out == Poll::<Option<T>>::Ready(None),
                Poll::Pending => out is Pending,
            }
    }

    fn poll_next(&mut self, ctx: &mut Context<'_>) -> (out: Poll<Option<T>>) {
        let ghost pre = *self;
        let r = self.op.poll_next(ctx);
        let ghost rg = r;
        let out = match r {
            Poll::Pending => Poll::Pending,
            Poll::Ready(None) => Poll::Ready(None),
            Poll::Ready(Some(item)) => match self.func.call(item) {
                Some(item) => Poll::Ready(Some(item)),
                None => Poll::Pending,
            },
        };
        assert(O::pulled(pre.op_spec(), self.op_spec(), rg));
        out
    }
}

impl<T, O: PushOp<Indomain = T>, F: PureFn<Outdomain = Option<T>>> PushOp for MapFilterMoveOp<O, F> {
    type Inflow = O::Inflow;
    type Indomain = F::Indomain;
    type Feedback = Joined<O::Feedback>;

    /// `func`'s output, if any, is pushed.
    open spec fn pushed(pre: Self, item: F::Indomain, post: Self) -> bool {
        &&& post.func_spec() == pre.func_spec()
        &&& match pre.func_spec().call_spec(item) {
            Some(y) => O::pushed(pre.op_spec(), y, post.op_spec()),
            None => post.op_spec() == pre.op_spec(),
        }
    }

    /// The feedback joins the future of the push of `func`'s output, if
    /// there is one, and nothing otherwise.
    fn push(&mut self, item: F::Indomain) -> (fb: Joined<O::Feedback>)
        ensures
            fb.parts().len() == (if old(self).func_spec().call_spec(item) is Some {
                1int
            } else {
                0int
            }),
    {
        let ghost pre = *self;
        let mut items: Vec<T> = Vec::new();
        match self.func.call(item) {
            Some(y) => items.push(y),
            None => {},
        }
        let ghost ys = items@;
        let fb = push_each(&mut self.op, items);
        proof {
            let states = choose|states: Seq<O>|
                #[trigger] crate::op::op::push_run(states, ys) && states[0] == pre.op_spec()
                    && states.last() == self.op_spec();
            if ys.len() == 1 {
                assert(O::pushed(states[0], ys[0], states[1]));
            }
        }
        fb
    }
}

/// Map-fold from references to owned values: each referenced item becomes
/// the items of `func`'s output.
pub struct MapFoldRefOp<O: Op, F: PureRefFn> {
    op: O,
    func: F,
}

impl<O: Op, F: PureRefFn> MapFoldRefOp<O, F> {
    pub closed spec fn op_spec(&self) -> O {
        self.op
    }

    pub closed spec fn func_spec(&self) -> F {
        self.func
    }

    pub fn new(op: O, func: F) -> (r: Self)
        ensures
            r.op_spec() == op,
            r.func_spec() == func,
    {
        MapFoldRefOp { op, func }
    }
}

impl<O: Op, F: PureRefFn> Op for MapFoldRefOp<O, F> {}

impl<O: PushOp, F: PureRefFn<Outdomain = Vec<O::Indomain>>> RefPushOp for MapFoldRefOp<O, F> {
    type Inflow = O::Inflow;
    type Indomain = F::Indomain;
    type Feedback = Joined<O::Feedback>;

    /// Every item of `func`'s output is pushed, in order.
    open spec fn ref_pushed(pre: Self, item: F::Indomain, post: Self) -> bool {
        &&& post.func_spec() == pre.func_spec()
        &&& pushed_all(pre.op_spec(), pre.func_spec().call_spec(item)@, post.op_spec())
    }

    /// The feedback joins the futures of the pushes of every item `func`
    /// produced, one per item, in order.
    fn push(&mut self, item: &F::Indomain) -> (fb: Joined<O::Feedback>)
        ensures
            fb.parts().len() == old(self).func_spec().call_spec(*item)@.len(),
    {
        let items = self.func.call(item);
        push_each(&mut self.op, items)
    }
}

/// Map from references to references: each referenced item is pushed as
/// the part of it that `func` picks.
pub struct MapRefRefOp<O: RefPushOp<Indomain = F::Outdomain>, F: PureRefRefFn> {
    op: O,
    func: F,
}

impl<O: RefPushOp<Indomain = F::Outdomain>, F: PureRefRefFn> MapRefRefOp<O, F> {
    pub closed spec fn op_spec(&self) -> O {
        self.op
    }

    pub closed spec fn func_spec(&self) -> F {
        self.func
    }

    pub fn new(op: O, func: F) -> (r: Self)
        ensures
            r.op_spec() == op,
            r.func_spec() == func,
    {
        MapRefRefOp { op, func }
    }
}

impl<O: RefPushOp<Indomain = F::Outdomain>, F: PureRefRefFn> Op for MapRefRefOp<O, F> {}

impl<O: RefPushOp<Indomain = F::Outdomain>, F: PureRefRefFn> RefPushOp for MapRefRefOp<O, F> {
    type Inflow = O::Inflow;
    type Indomain = F::Indomain;
    type Feedback = O::Feedback;

    open spec fn ref_pushed(pre: Self, item: F::Indomain, post: Self) -> bool {
        &&& post.func_spec() == pre.func_spec()
        &&& O::ref_pushed(pre.op_spec(), pre.func_spec().call_spec(item), post.op_spec())
    }

    fn push(&mut self, item: &F::Indomain) -> (fb: O::Feedback) {
        let out = self.func.call(item);
        self.op.push(out)
    }
}

} // verus!
