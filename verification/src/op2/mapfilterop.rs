//! Map, filter and flatten operators over pure functions.
use vstd::prelude::*;
use std::marker::PhantomData;
use std::task::Context;
use crate::feedback::{Joined, join_feedbacks};
use crate::task::Poll;
use super::op::{
    Op, PullOp, PushOp, MovePullOp, MovePushOp, RefPushOp, move_pushed_all, move_push_run,
    lemma_move_pushed_all_empty, lemma_move_pushed_all_push,
};
use super::util::{PureFn, PureRefFn};

verus! {

/// Pushes each of `items` into `op`, in order, and joins the futures of
/// the pushes: one per item, in order.
pub fn move_push_each<O: MovePushOp>(op: &mut O, items: Vec<O::Indomain>) -> (fb: Joined<
    O::Feedback,
>)
    ensures
        move_pushed_all(*old(op), items@, *final(op)),
        fb.parts().len() == items@.len(),
{
    let ghost pre = *op;
    let ghost all = items@;
    let mut items = items;
    let mut futs: Vec<O::Feedback> = Vec::new();
    let mut k: usize = 0;
    let n = items.len();
    assert(all.len() == n);
    assert(items@ =~= all.skip(0));
    proof {
        lemma_move_pushed_all_empty(pre);
        assert(all.take(0) =~= Seq::<O::Indomain>::empty());
    }
    while items.len() > 0
        invariant
            pre == *old(op),
            k <= all.len(),
            all.len() <= usize::MAX,
            items@ == all.skip(k as int),
            move_pushed_all(pre, all.take(k as int), *op),
            futs@.len() == k,
        decreases items.len(),
    {
        let item = items.remove(0);
        let ghost mid = *op;
        let fb = op.push(item);
        futs.push(fb);
        proof {
            lemma_move_pushed_all_push(pre, all.take(k as int), mid, item, *op);
            assert(all.take(k as int).push(item) =~= all.take(k + 1));
            assert(items@ =~= all.skip(k + 1));
        }
        k = k + 1;
    }
    assert(all.take(k as int) =~= all);
    join_feedbacks(futs)
}

/// Map-flatten for owned values: each item becomes the items of `func`'s
/// output. When pulled, the items beyond the first are kept in `out` and
/// handed out first by the following pulls.
#[verifier::reject_recursive_types(T)]
pub struct MapFlattenMoveOp<O: Op, F: PureFn<Outdomain = Vec<T>>, T> {
    op: O,
    func: F,
    out: Vec<T>,
    _phantom: PhantomData<T>,
}

impl<O: Op, F: PureFn<Outdomain = Vec<T>>, T> MapFlattenMoveOp<O, F, T> {
    pub closed spec fn op_spec(&self) -> O {
        self.op
    }

    pub closed spec fn func_spec(&self) -> F {
        self.func
    }

    pub closed spec fn out_spec(&self) -> Seq<T> {
        self.out@
    }

    pub fn new(op: O, func: F) -> (r: Self)
        ensures
            r.op_spec() == op,
            r.func_spec() == func,
            r.out_spec() == Seq::<T>::empty(),
    {
        MapFlattenMoveOp { op, func, out: Vec::new(), _phantom: PhantomData }
    }
}

impl<O: Op, F: PureFn<Outdomain = Vec<T>>, T> Op for MapFlattenMoveOp<O, F, T> {}

impl<O: PullOp<Outdomain = F::Indomain>, F: PureFn<Outdomain = Vec<T>>, T> PullOp for MapFlattenMoveOp<
    O,
    F,
    T,
> {
    type Outflow = O::Outflow;
    type Outdomain = T;
}

impl<O: PushOp<Indomain = T>, F: PureFn<Outdomain = Vec<T>>, T> PushOp for MapFlattenMoveOp<O, F, T> {
    type Inflow = O::Inflow;
    type Indomain = F::Indomain;
}

impl<O: MovePullOp<Outdomain = F::Indomain>, F: PureFn<Outdomain = Vec<T>>, T> MovePullOp for MapFlattenMoveOp<
    O,
    F,
    T,
> {
    open spec fn move_polled(pre: Self, post: Self, out: Poll<Option<T>>) -> bool {
        &&& post.func_spec() == pre.func_spec()
        &&& if pre.out_spec().len() > 0 {
            &&& post.op_spec() == pre.op_spec()
            &&& out == Poll::Ready(Some(pre.out_spec()[0]))
            &&& post.out_spec() == pre.out_spec().drop_first()
        } else {
            exists|r: Poll<Option<F::Indomain>>|
                #[trigger] O::move_polled(pre.op_spec(), post.op_spec(), r) && match r {
                    Poll::Ready(Some(x)) => {
                        let ys = pre.func_spec().call_spec(x)@;
                        if ys.len() > 0 {
                            out == Poll::Ready(Some(ys[0])) && post.out_spec() == ys.drop_first()
                        } else {
                            out is Pending && post.out_spec() == pre.out_spec()
                        }
                    },
                    Poll::Ready(None) => out == Poll::<Option<T>>::Ready(None)
                        && post.out_spec() == pre.out_spec(),
                    Poll::Pending => out is Pending && post.out_spec() == pre.out_spec(),
                }
        }
    }

    fn poll_next(&mut self, ctx: &mut Context<'_>) -> (out: Poll<Option<T>>) {
        if self.out.len() > 0 {
            let item = self.out.remove(0);
            return Poll::Ready(Some(item));
        }
        let ghost pre = *self;
        let r = self.op.poll_next(ctx);
        let ghost rg = r;
        let out = match r {
            Poll::Pending => Poll::Pending,
            Poll::Ready(None) => Poll::Ready(None),
            Poll::Ready(Some(item)) => {
                let mut newout = self.func.call(item);
                if newout.len() > 0 {
                    let first = newout.remove(0);
                    self.out = newout;
                    Poll::Ready(Some(first))
                } else {
                    Poll::Pending
                }
            },
        };
        assert(O::move_polled(pre.op_spec(), self.op_spec(), rg));
        out
    }
}

impl<O: MovePushOp<Indomain = T>, F: PureFn<Outdomain = Vec<T>>, T> MovePushOp for MapFlattenMoveOp<
    O,
    F,
    T,
> {
    type Feedback = Joined<O::Feedback>;

    /// Every item of `func`'s output is pushed, in order.
    open spec fn move_pushed(pre: Self, item: F::Indomain, post: Self) -> bool {
        &&& post.func_spec() == pre.func_spec()
        &&& post.out_spec() == pre.out_spec()
        &&& move_pushed_all(pre.op_spec(), pre.func_spec().call_spec(item)@, post.op_spec())
    }

    /// The feedback joins the futures of the pushes of every item `func`
    /// produced, one per item, in order.
    fn push(&mut self, item: F::Indomain) -> (fb: Joined<O::Feedback>)
        ensures
            fb.parts().len() == old(self).func_spec().call_spec(item)@.len(),
    {
        let items = self.func.call(item);
        move_push_each(&mut self.op, items)
    }
}

/// Map-filter for owned values: each item becomes `func`'s output if there
/// is one, and is dropped otherwise.
#[verifier::reject_recursive_types(T)]
pub struct MapFilterMoveOp<O: Op, F: PureFn, T> {
    op: O,
    func: F,
    _phantom: PhantomData<T>,
}

impl<O: Op, F: PureFn, T> MapFilterMoveOp<O, F, T> {
    pub closed spec fn op_spec(&self) -> O {
        self.op
    }

    pub closed spec fn func_spec(&self) -> F {
        self.func
    }

    pub fn new(op: O, func: F) -> (r: Self)
        ensures
            r.op_spec() == op,
            r.func_spec() == func,
    {
        MapFilterMoveOp { op, func, _phantom: PhantomData }
    }
}

impl<O: Op, F: PureFn, T> Op for MapFilterMoveOp<O, F, T> {}

impl<O: PullOp<Outdomain = F::Indomain>, F: PureFn<Outdomain = Option<T>>, T> PullOp for MapFilterMoveOp<
    O,
    F,
    T,
> {
    type Outflow = O::Outflow;
    type Outdomain = T;
}

impl<O: PushOp, F: PureFn<Indomain = T, Outdomain = Option<O::Indomain>>, T> PushOp for MapFilterMoveOp<
    O,
    F,
    T,
> {
    type Inflow = O::Inflow;
    type Indomain = T;
}

impl<O: MovePullOp<Outdomain = F::Indomain>, F: PureFn<Outdomain = Option<T>>, T> MovePullOp for MapFilterMoveOp<
    O,
    F,
    T,
> {
    /// A dropped item leaves this pull pending.
    open spec fn move_polled(pre: Self, post: Self, out: Poll<Option<T>>) -> bool {
        &&& post.func_spec() == pre.func_spec()
        &&& exists|r: Poll<Option<F::Indomain>>|
            #[trigger] O::move_polled(pre.op_spec(), post.op_spec(), r) && match r {
                Poll::Ready(Some(x)) => match pre.func_spec().call_spec(x) {
                    Some(y) => out == Poll::Ready(Some(y)),
                    None => out is Pending,
                },
                Poll::Ready(None) => out == Poll::<Option<T>>::Ready(None),
                Poll::Pending => out is Pending,
            }
    }

    fn poll_next(&mut self, ctx: &mut Context<'_>) -> (out: Poll<Option<T>>) {
        let ghost pre = *self;
        let r = self.op.poll_next(ctx);
        let ghost rg = r;
        let out = match r {
            Poll::Pending => Poll::Pending,
            Poll::Ready(None) => Poll::Ready(None),
            Poll::Ready(Some(item)) => match self.func.call(item) {
                Some(item) => Poll::Ready(Some(item)),
                None => Poll::Pending,
            },
        };
        assert(O::move_polled(pre.op_spec(), self.op_spec(), rg));
        out
    }
}

impl<O: MovePushOp, F: PureFn<Indomain = T, Outdomain = Option<O::Indomain>>, T> MovePushOp for MapFilterMoveOp<
    O,
    F,
    T,
> {
    type Feedback = Joined<O::Feedback>;

    /// `func`'s output, if any, is pushed.
    open spec fn move_pushed(pre: Self, item: T, post: Self) -> bool {
        &&& post.func_spec() == pre.func_spec()
        &&& match pre.func_spec().call_spec(item) {
            Some(y) => O::move_pushed(pre.op_spec(), y, post.op_spec()),
            None => post.op_spec() == pre.op_spec(),
        }
    }

    /// The feedback joins the future of the push of `func`'s output, if
    /// there is one, and nothing otherwise.
    fn push(&mut self, item: T) -> (fb: Joined<O::Feedback>)
        ensures
            fb.parts().len() == (if old(self).func_spec().call_spec(item) is Some {
                1int
            } else {
                0int
            }),
    {
        let ghost pre = *self;
        let mut items: Vec<O::Indomain> = Vec::new();
        match self.func.call(item) {
            Some(y) => items.push(y),
            None => {},
        }
        let ghost ys = items@;
        let fb = move_push_each(&mut self.op, items);
        proof {
            let states = choose|states: Seq<O>|
                #[trigger] move_push_run(states, ys) && states[0] == pre.op_spec() && states.last()
                    == self.op_spec();
            if ys.len() == 1 {
                assert(O::move_pushed(states[0], ys[0], states[1]));
            }
        }
        fb
    }
}

/// Map-fold from references to owned values: each referenced item becomes
/// the items of `func`'s output.
#[verifier::reject_recursive_types(T)]
pub struct MapFoldRefOp<O: Op, F: PureRefFn, T> {
    op: O,
    func: F,
    _phantom: PhantomData<T>,
}

impl<O: Op, F: PureRefFn, T> MapFoldRefOp<O, F, T> {
    pub closed spec fn op_spec(&self) -> O {
        self.op
    }

    pub closed spec fn func_spec(&self) -> F {
        self.func
    }

    pub fn new(op: O, func: F) -> (r: Self)
        ensures
            r.op_spec() == op,
            r.func_spec() == func,
    {
        MapFoldRefOp { op, func, _phantom: PhantomData }
    }
}

impl<O: Op, F: PureRefFn, T> Op for MapFoldRefOp<O, F, T> {}

impl<O: PushOp, F: PureRefFn<Indomain = T, Outdomain = Vec<O::Indomain>>, T> PushOp for MapFoldRefOp<
    O,
    F,
    T,
> {
    type Inflow = O::Inflow;
    type Indomain = T;
}

impl<O: MovePushOp, F: PureRefFn<Indomain = T, Outdomain = Vec<O::Indomain>>, T> RefPushOp for MapFoldRefOp<
    O,
    F,
    T,
> {
    type Feedback = Joined<O::Feedback>;

    /// Every item of `func`'s output is pushed, in order.
    open spec fn ref_pushed(pre: Self, item: T, post: Self) -> bool {
        &&& post.func_spec() == pre.func_spec()
        &&& move_pushed_all(pre.op_spec(), pre.func_spec().call_spec(item)@, post.op_spec())
    }

    /// The feedback joins the futures of the pushes of every item `func`
    /// produced, one per item, in order.
    fn push(&mut self, item: &T) -> (fb: Joined<O::Feedback>)
        ensures
            fb.parts().len() == old(self).func_spec().call_spec(*item)@.len(),
    {
        let items = self.func.call(item);
        move_push_each(&mut self.op, items)
    }
}

} // verus!
