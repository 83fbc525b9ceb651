//! Connecting a pulling operator to a pushing operator.
use vstd::prelude::*;
use std::future::Future;
use std::pin::Pin;
use std::task::Context;
use crate::task::{Poll, box_pin, pin_get_mut, push_settled, poll_push};
use super::op::{Op, PullOp, PushOp, MovePullOp, RefPullOp, MovePushOp, RefPushOp};

verus! {

/// A pulling operator whose items are pushed into a pushing operator.
pub struct StaticComp<I: PullOp, O: PushOp<Indomain = I::Outdomain>> {
    pull: I,
    push: O,
}

impl<I: PullOp, O: PushOp<Indomain = I::Outdomain>> StaticComp<I, O> {
    pub closed spec fn pull_spec(&self) -> I {
        self.pull
    }

    pub closed spec fn push_spec(&self) -> O {
        self.push
    }

    pub fn new(pull: I, push: O) -> (r: Self)
        ensures
            r.pull_spec() == pull,
            r.push_spec() == push,
    {
        StaticComp { pull, push }
    }
}

impl<I: MovePullOp, O: MovePushOp<Indomain = I::Outdomain>> StaticComp<I, O> {
    /// One step by owned items: pulls, and pushes what it got. It returns
    /// the push's future, `None` when the pull ended, and `Pending` while
    /// upstream has nothing.
    pub fn step_move(&mut self, ctx: &mut Context<'_>) -> (r: Poll<Option<O::Feedback>>)
        ensures
            exists|p: Poll<Option<I::Outdomain>>|
                #[trigger] I::move_polled(old(self).pull_spec(), final(self).pull_spec(), p) && match p {
                    Poll::Ready(Some(x)) => r matches Poll::Ready(Some(_)) && O::move_pushed(
                        old(self).push_spec(),
                        x,
                        final(self).push_spec(),
                    ),
                    Poll::Ready(None) => r matches Poll::Ready(None) && final(self).push_spec()
                        == old(self).push_spec(),
                    Poll::Pending => r is Pending && final(self).push_spec() == old(self).push_spec(),
                },
    {
        let ghost pre = *self;
        let p = self.pull.poll_next(ctx);
        let ghost pg = p;
        let r = match p {
            Poll::Ready(Some(item)) => Poll::Ready(Some(self.push.push(item))),
            Poll::Ready(None) => Poll::Ready(None),
            Poll::Pending => Poll::Pending,
        };
        assert(I::move_polled(pre.pull_spec(), self.pull_spec(), pg));
        r
    }
}

impl<I: RefPullOp, O: RefPushOp<Indomain = I::Outdomain>> StaticComp<I, O> {
    /// One step by references: pulls, and pushes what it got. It returns
    /// the push's future, `None` when the pull ended, and `Pending` while
    /// upstream has nothing.
    pub fn step_ref(&mut self, ctx: &mut Context<'_>) -> (r: Poll<Option<O::Feedback>>)
        ensures
            exists|p: Poll<Option<I::Outdomain>>|
                #[trigger] I::ref_polled(old(self).pull_spec(), final(self).pull_spec(), p) && match p {
                    Poll::Ready(Some(x)) => r matches Poll::Ready(Some(_)) && O::ref_pushed(
                        old(self).push_spec(),
                        x,
                        final(self).push_spec(),
                    ),
                    Poll::Ready(None) => r matches Poll::Ready(None) && final(self).push_spec()
                        == old(self).push_spec(),
                    Poll::Pending => r is Pending && final(self).push_spec() == old(self).push_spec(),
                },
    {
        let ghost pre = *self;
        let p = self.pull.poll_next(ctx);
        let ghost pg = super::op::deref_poll(p);
        let r = match p {
            Poll::Ready(Some(item)) => Poll::Ready(Some(self.push.push(item))),
            Poll::Ready(None) => Poll::Ready(None),
            Poll::Pending => Poll::Pending,
        };
        assert(I::ref_polled(pre.pull_spec(), self.pull_spec(), pg));
        r
    }

    /// A future of one pull-and-push by references.
    pub fn tick_ref(&mut self) -> (r: RefStaticCompFuture<'_, I, O>)
        ensures
            r.comp_view() == *old(self),
            r.idle(),
    {
        RefStaticCompFuture::new(self)
    }
}

/// The future of one pull-and-push by references: it completes with the
/// push's output, or `None` once the pull has ended.
pub struct RefStaticCompFuture<'a, I: RefPullOp, O: RefPushOp<Indomain = I::Outdomain>> {
    comp_op: &'a mut StaticComp<I, O>,
    push_fut: Option<Pin<Box<O::Feedback>>>,
}

impl<'a, I: RefPullOp, O: RefPushOp<Indomain = I::Outdomain>> RefStaticCompFuture<'a, I, O> {
    /// The composition the future works on, as it is now.
    pub closed spec fn comp_view(&self) -> StaticComp<I, O> {
        *self.comp_op
    }

    /// No push is under way yet.
    pub closed spec fn idle(&self) -> bool {
        self.push_fut is None
    }

    pub fn new(comp_op: &'a mut StaticComp<I, O>) -> (r: Self)
        ensures
            r.comp_view() == *old(comp_op),
            r.idle(),
    {
        RefStaticCompFuture { comp_op, push_fut: None }
    }

    /// One poll of the future. With no push under way it steps: the end of
    /// the pull completes it with `None`, nothing pulled leaves it pending,
    /// and a reference to a pulled value is pushed and the future of the
    /// push polled at once. With a push under way only that future is
    /// polled. Its output completes the step; while it is pending the push
    /// stays under way.
    pub fn poll_once(&mut self, ctx: &mut Context<'_>) -> (r: Poll<Option<<O::Feedback as Future>::Output>>)
        ensures
            old(self).idle() ==> exists|p: Poll<Option<I::Outdomain>>|
                #[trigger] I::ref_polled(old(self).comp_view().pull_spec(), final(self).comp_view().pull_spec(), p)
                    && match p {
                    Poll::Ready(Some(x)) => O::ref_pushed(
                        old(self).comp_view().push_spec(),
                        x,
                        final(self).comp_view().push_spec(),
                    ) && push_settled(r, final(self).idle()),
                    Poll::Ready(None) => r matches Poll::Ready(None) && final(self).idle()
                        && final(self).comp_view().push_spec() == old(self).comp_view().push_spec(),
                    Poll::Pending => r is Pending && final(self).idle()
                        && final(self).comp_view().push_spec() == old(self).comp_view().push_spec(),
                },
            !old(self).idle() ==> final(self).comp_view() == old(self).comp_view() && push_settled(
                r,
                final(self).idle(),
            ),
    {
        if self.push_fut.is_none() {
            let ghost pre = self.comp_view();
            let st = self.comp_op.step_ref(ctx);
            assert(pre == old(self).comp_view());
            match st {
                Poll::Ready(Some(fut)) => {
                    self.push_fut = Some(box_pin(fut));
                },
                Poll::Ready(None) => {
                    assert(self.comp_view().push_spec() == pre.push_spec());
                    return Poll::Ready(None);
                },
                Poll::Pending => {
                    assert(self.comp_view().push_spec() == pre.push_spec());
                    return Poll::Pending;
                },
            }
        }
        let ghost mid = *self;
        let r = poll_push(&mut self.push_fut, ctx);
        assert(self.comp_view() == mid.comp_view());
        r
    }
}

impl<'a, I: RefPullOp, O: RefPushOp<Indomain = I::Outdomain>> Unpin for RefStaticCompFuture<'a, I, O> {}

impl<'a, I: RefPullOp, O: RefPushOp<Indomain = I::Outdomain>> Future for RefStaticCompFuture<'a, I, O> {
    type Output = Option<<O::Feedback as Future>::Output>;

    fn poll(self: Pin<&mut Self>, ctx: &mut Context<'_>) -> std::task::Poll<Self::Output> {
        let this = pin_get_mut(self);
        this.poll_once(ctx).into_std()
    }
}

} // verus!
