//! A reactive pulling operator whose every value is pushed, by reference,
//! into each of several pushing operators.
use vstd::prelude::*;
use std::future::Future;
use std::pin::Pin;
use std::task::Context;
use crate::feedback::{Joined, join_feedbacks};
use crate::task::{Poll, box_pin, pin_get_mut, push_settled, poll_push};
use crate::op2::op::{PullOp, PushOp, RefPullOp, RefPushOp, deref_poll};
use crate::op2::types::RX;

verus! {

/// Pulls reactive values and pushes each one into every pushing operator it
/// holds.
pub struct DynSplitComp<
    I: PullOp<Outflow = RX>,
    O: PushOp<Inflow = RX, Indomain = I::Outdomain>,
> {
    pull: I,
    pushes: Vec<O>,
}

/// Each of `pre` took a push of `item` by reference, giving `post`.
pub open spec fn each_ref_pushed<O: RefPushOp>(pre: Seq<O>, item: O::Indomain, post: Seq<O>) -> bool {
    &&& post.len() == pre.len()
    &&& forall|i: int| 0 <= i < pre.len() ==> #[trigger] O::ref_pushed(pre[i], item, post[i])
}

impl<I: PullOp<Outflow = RX>, O: PushOp<Inflow = RX, Indomain = I::Outdomain>> DynSplitComp<I, O> {
    pub closed spec fn pull_spec(&self) -> I {
        self.pull
    }

    pub closed spec fn pushes_spec(&self) -> Seq<O> {
        self.pushes@
    }

    /// `pull` with no pushing operator yet.
    pub fn new(pull: I) -> (r: Self)
        ensures
            r.pull_spec() == pull,
            r.pushes_spec() == Seq::<O>::empty(),
    {
        DynSplitComp { pull, pushes: Vec::new() }
    }
}

impl<I: RefPullOp<Outflow = RX>, O: RefPushOp<Inflow = RX, Indomain = I::Outdomain>> DynSplitComp<
    I,
    O,
> {
    /// One step: pulls a value and pushes a reference to it into every
    /// pushing operator, in order. It returns the joined futures of the
    /// pushes, `None` when the pull ended, and `Pending` while upstream has
    /// nothing.
    pub fn step_ref(&mut self, ctx: &mut Context<'_>) -> (r: Poll<Option<Joined<O::Feedback>>>)
        ensures
            exists|p: Poll<Option<I::Outdomain>>|
                #[trigger] I::ref_polled(old(self).pull_spec(), final(self).pull_spec(), p) && match p {
                    Poll::Ready(Some(x)) => r matches Poll::Ready(Some(_)) && each_ref_pushed(
                        old(self).pushes_spec(),
                        x,
                        final(self).pushes_spec(),
                    ),
                    Poll::Ready(None) => r matches Poll::Ready(None) && final(self).pushes_spec()
                        == old(self).pushes_spec(),
                    Poll::Pending => r is Pending && final(self).pushes_spec()
                        == old(self).pushes_spec(),
                },
            r matches Poll::Ready(Some(j)) ==> j.parts().len() == old(self).pushes_spec().len(),
    {
        let ghost pre = *self;
        let pull = &mut self.pull;
        let pushes = &mut self.pushes;
        let p = pull.poll_next(ctx);
        let ghost pg = deref_poll(p);
        let r = match p {
            Poll::Ready(Some(item)) => {
                let mut futs: Vec<O::Feedback> = Vec::new();
                let n = pushes.len();
                let mut i: usize = 0;
                while i < n
                    invariant
                        n == pushes.len(),
                        n == pre.pushes@.len(),
                        i <= n,
                        futs@.len() == i,
                        pg == Poll::Ready(Some(*item)),
                        forall|j: int| i <= j < n ==> pushes@[j] == pre.pushes@[j],
                        forall|j: int|
                            0 <= j < i ==> #[trigger] O::ref_pushed(
                                pre.pushes@[j],
                                *item,
                                pushes@[j],
                            ),
                    decreases n - i,
                {
                    let fb = pushes[i].push(item);
                    futs.push(fb);
                    i = i + 1;
                }
                Poll::Ready(Some(join_feedbacks(futs)))
            },
            Poll::Ready(None) => Poll::Ready(None),
            Poll::Pending => Poll::Pending,
        };
        assert(I::ref_polled(pre.pull_spec(), self.pull_spec(), pg));
        r
    }

    /// A future of one pull-and-push-to-all by references.
    pub fn tick_ref(&mut self) -> (r: RefStaticCompFuture<'_, I, O>)
        ensures
            r.comp_view() == *old(self),
            r.idle(),
    {
        RefStaticCompFuture::new(self)
    }
}

/// The future of one step of a `DynSplitComp`: it completes with the
/// outputs of all the pushes, or `None` once the pull has ended.
pub struct RefStaticCompFuture<
    'a,
    I: RefPullOp<Outflow = RX>,
    O: RefPushOp<Inflow = RX, Indomain = I::Outdomain>,
> {
    comp_op: &'a mut DynSplitComp<I, O>,
    push_fut: Option<Pin<Box<Joined<O::Feedback>>>>,
}

impl<'a, I: RefPullOp<Outflow = RX>, O: RefPushOp<Inflow = RX, Indomain = I::Outdomain>> RefStaticCompFuture<
    'a,
    I,
    O,
> {
    /// The composition the future works on, as it is now.
    pub closed spec fn comp_view(&self) -> DynSplitComp<I, O> {
        *self.comp_op
    }

    /// No push is under way yet.
    pub closed spec fn idle(&self) -> bool {
        self.push_fut is None
    }

    pub fn new(comp_op: &'a mut DynSplitComp<I, O>) -> (r: Self)
        ensures
            r.comp_view() == *old(comp_op),
            r.idle(),
    {
        RefStaticCompFuture { comp_op, push_fut: None }
    }

    /// One poll of the future. With no push under way it steps: the end of
    /// the pull completes it with `None`, nothing pulled leaves it pending,
    /// and a reference to a pulled value is pushed into every pushing
    /// operator and the joined future of the pushes polled at once. With a
    /// push under way only that future is polled. Its output completes the
    /// step; while it is pending the push stays under way.
    pub fn poll_once(&mut self, ctx: &mut Context<'_>) -> (r: Poll<Option<Vec<<O::Feedback as Future>::Output>>>)
        ensures
            old(self).idle() ==> exists|p: Poll<Option<I::Outdomain>>|
                #[trigger] I::ref_polled(old(self).comp_view().pull_spec(), final(self).comp_view().pull_spec(), p)
                    && match p {
                    Poll::Ready(Some(x)) => each_ref_pushed(
                        old(self).comp_view().pushes_spec(),
                        x,
                        final(self).comp_view().pushes_spec(),
                    ) && push_settled(r, final(self).idle()),
                    Poll::Ready(None) => r matches Poll::Ready(None) && final(self).idle()
                        && final(self).comp_view().pushes_spec() == old(self).comp_view().pushes_spec(),
                    Poll::Pending => r is Pending && final(self).idle()
                        && final(self).comp_view().pushes_spec() == old(self).comp_view().pushes_spec(),
                },
            !old(self).idle() ==> final(self).comp_view() == old(self).comp_view() && push_settled(
                r,
                final(self).idle(),
            ),
    {
        if self.push_fut.is_none() {
            let ghost pre = self.comp_view();
            let st = self.comp_op.step_ref(ctx);
            assert(pre == old(self).comp_view());
            match st {
                Poll::Ready(Some(fut)) => {
                    self.push_fut = Some(box_pin(fut));
                },
                Poll::Ready(None) => {
                    assert(self.comp_view().pushes_spec() == pre.pushes_spec());
                    return Poll::Ready(None);
                },
                Poll::Pending => {
                    assert(self.comp_view().pushes_spec() == pre.pushes_spec());
                    return Poll::Pending;
                },
            }
        }
        let ghost mid = *self;
        let r = poll_push(&mut self.push_fut, ctx);
        assert(self.comp_view() == mid.comp_view());
        r
    }
}

impl<'a, I: RefPullOp<Outflow = RX>, O: RefPushOp<Inflow = RX, Indomain = I::Outdomain>> Unpin for RefStaticCompFuture<
    'a,
    I,
    O,
> {}

impl<'a, I: RefPullOp<Outflow = RX>, O: RefPushOp<Inflow = RX, Indomain = I::Outdomain>> Future for RefStaticCompFuture<
    'a,
    I,
    O,
> {
    type Output = Option<Vec<<O::Feedback as Future>::Output>>;

    fn poll(self: Pin<&mut Self>, ctx: &mut Context<'_>) -> std::task::Poll<Self::Output> {
        let this = pin_get_mut(self);
        this.poll_once(ctx).into_std()
    }
}

} // verus!
