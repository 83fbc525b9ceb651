//! Connecting pulling operators to pushing operators.
use vstd::prelude::*;
use std::future::Future;
use std::marker::PhantomData;
use std::pin::Pin;
use std::task::Context;
use crate::feedback::{Joined, join_feedbacks};
use crate::lattice::Merge;
use crate::task::{Poll, box_pin, poll_push, poll_unpin, pin_get_mut, push_settled};
use super::flow::RX;
use super::op::{Op, PullOp, PushOp, RefPullOp, RefPushOp, deref_poll};

verus! {

/// A pulling operator whose items are pushed into a pushing operator.
pub struct StaticComp<I: Op, O: Op> {
    pull: I,
    push: O,
}

impl<I: Op, O: Op> StaticComp<I, O> {
    pub closed spec fn pull_spec(&self) -> I {
        self.pull
    }

    pub closed spec fn push_spec(&self) -> O {
        self.push
    }

    pub fn new(pull: I, push: O) -> (r: Self)
        ensures
            r.pull_spec() == pull,
            r.push_spec() == push,
    {
        StaticComp { pull, push }
    }
}

impl<I: PullOp, O: PushOp<Indomain = I::Outdomain>> StaticComp<I, O> {
    /// One step by owned items: pulls, and pushes what it got. It returns
    /// the push's future, `None` when the pull ended, and `Pending` while
    /// upstream has nothing.
    pub fn step(&mut self, ctx: &mut Context<'_>) -> (r: Poll<Option<O::Feedback>>)
        ensures
            exists|p: Poll<Option<I::Outdomain>>|
                #[trigger] I::pulled(old(self).pull_spec(), final(self).pull_spec(), p) && match p {
                    Poll::Ready(Some(x)) => r matches Poll::Ready(Some(_)) && O::pushed(
                        old(self).push_spec(),
                        x,
                        final(self).push_spec(),
                    ),
                    Poll::Ready(None) => r matches Poll::Ready(None) && final(self).push_spec()
                        == old(self).push_spec(),
                    Poll::Pending => r is Pending && final(self).push_spec() == old(self).push_spec(),
                },
    {
        let ghost pre = *self;
        let p = self.pull.poll_next(ctx);
        let ghost pg = p;
        let r = match p {
            Poll::Ready(Some(item)) => Poll::Ready(Some(self.push.push(item))),
            Poll::Ready(None) => Poll::Ready(None),
            Poll::Pending => Poll::Pending,
        };
        assert(I::pulled(pre.pull_spec(), self.pull_spec(), pg));
        r
    }

    /// A future of one pull-and-push: it completes with the push's output,
    /// or `None` once the pull has ended.
    pub fn tick_moveop(&mut self) -> (r: CompTick<'_, I, O>)
        ensures
            r.comp_view() == *old(self),
            r.idle(),
    {
        CompTick { comp: self, push_fut: None }
    }
}

impl<I: RefPullOp, O: RefPushOp<Indomain = I::Outdomain>> StaticComp<I, O> {
    /// A future of one pull-and-push by reference: it completes with the
    /// push's output, or `None` once the pull has ended.
    pub fn tick_refop(&mut self) -> (r: FirstOutput<RefCompFuture<'_, I, O>, <O::Feedback as Future>::Output>)
        ensures
            r.inner_view().pull_view() == old(self).pull_spec(),
            r.inner_view().pushes_view() == seq![old(self).push_spec()],
            r.inner_view().idle(),
    {
        let fut = RefCompFuture::new(&mut self.pull, PushTargets::One(&mut self.push));
        FirstOutput { fut, _phantom: PhantomData }
    }
}

/// The future of one pull-and-push of a `StaticComp`.
pub struct CompTick<'a, I: PullOp, O: PushOp<Indomain = I::Outdomain>> {
    comp: &'a mut StaticComp<I, O>,
    push_fut: Option<Pin<Box<O::Feedback>>>,
}

impl<'a, I: PullOp, O: PushOp<Indomain = I::Outdomain>> CompTick<'a, I, O> {
    /// The composition the tick works on, as it is now.
    pub closed spec fn comp_view(&self) -> StaticComp<I, O> {
        *self.comp
    }

    /// No push is under way yet.
    pub closed spec fn idle(&self) -> bool {
        self.push_fut is None
    }

    /// One poll of the future. With no push under way it steps: the end of
    /// the pull completes it with `None`, nothing pulled leaves it pending,
    /// and a pulled value is pushed and the future of the push polled at
    /// once. With a push under way only that future is polled. Its output
    /// completes the step; while it is pending the push stays under way.
    pub fn poll_once(&mut self, ctx: &mut Context<'_>) -> (r: Poll<Option<<O::Feedback as Future>::Output>>)
        ensures
            old(self).idle() ==> exists|p: Poll<Option<I::Outdomain>>|
                #[trigger] I::pulled(old(self).comp_view().pull_spec(), final(self).comp_view().pull_spec(), p)
                    && match p {
                    Poll::Ready(Some(x)) => O::pushed(old(self).comp_view().push_spec(), x, final(self).comp_view().push_spec())
                        && push_settled(r, final(self).idle()),
                    Poll::Ready(None) => r matches Poll::Ready(None) && final(self).idle()
                        && final(self).comp_view().push_spec() == old(self).comp_view().push_spec(),
                    Poll::Pending => r is Pending && final(self).idle()
                        && final(self).comp_view().push_spec() == old(self).comp_view().push_spec(),
                },
            !old(self).idle() ==> final(self).comp_view() == old(self).comp_view() && push_settled(
                r,
                final(self).idle(),
            ),
    {
        if self.push_fut.is_none() {
            let ghost pre = self.comp_view();
            let st = self.comp.step(ctx);
            assert(pre == old(self).comp_view());
            match st {
                Poll::Ready(Some(fut)) => {
                    self.push_fut = Some(box_pin(fut));
                },
                Poll::Ready(None) => {
                    assert(self.comp_view().push_spec() == pre.push_spec());
                    return Poll::Ready(None);
                },
                Poll::Pending => {
                    assert(self.comp_view().push_spec() == pre.push_spec());
                    return Poll::Pending;
                },
            }
        }
        let ghost mid = *self;
        let r = poll_push(&mut self.push_fut, ctx);
        assert(self.comp_view() == mid.comp_view());
        r
    }
}

impl<'a, I: PullOp, O: PushOp<Indomain = I::Outdomain>> Unpin for CompTick<'a, I, O> {}

impl<'a, I: PullOp, O: PushOp<Indomain = I::Outdomain>> Future for CompTick<'a, I, O> {
    type Output = Option<<O::Feedback as Future>::Output>;

    fn poll(self: Pin<&mut Self>, ctx: &mut Context<'_>) -> std::task::Poll<Self::Output> {
        let this = pin_get_mut(self);
        this.poll_once(ctx).into_std()
    }
}

/// A reactive pulling operator whose values are pushed into every one of a
/// growing set of pushing operators.
#[verifier::reject_recursive_types(F)]
pub struct DynComp<F: Merge, I: Op, O: Op> {
    pull: I,
    pushes: Vec<O>,
    _phantom: PhantomData<F>,
}

/// `pre` took one push of a value standing for the element `x`, giving
/// `post`.
pub open spec fn pushed_as<F: Merge, O: PushOp<Indomain = F::Domain>>(
    pre: O,
    x: F::Lattice,
    post: O,
) -> bool {
    exists|c: F::Domain| F::lattice(c) == x && #[trigger] O::pushed(pre, c, post)
}

/// Each of `pre` took one push of a value standing for the element `x`,
/// giving `post`.
pub open spec fn each_pushed<F: Merge, O: PushOp<Indomain = F::Domain>>(
    pre: Seq<O>,
    x: F::Lattice,
    post: Seq<O>,
) -> bool {
    &&& post.len() == pre.len()
    &&& forall|i: int| 0 <= i < pre.len() ==> #[trigger] pushed_as::<F, O>(pre[i], x, post[i])
}

impl<F: Merge, I: Op, O: Op> DynComp<F, I, O> {
    pub closed spec fn pull_spec(&self) -> I {
        self.pull
    }

    pub closed spec fn pushes_spec(&self) -> Seq<O> {
        self.pushes@
    }

    /// `pull` with no pushing operator yet.
    pub fn new(pull: I) -> (r: Self)
        ensures
            r.pull_spec() == pull,
            r.pushes_spec() == Seq::<O>::empty(),
    {
        DynComp { pull, pushes: Vec::new(), _phantom: PhantomData }
    }
}

impl<
    F: Merge,
    I: PullOp<Outflow = RX<F>, Outdomain = F::Domain>,
    O: PushOp<Inflow = RX<F>, Indomain = F::Domain>,
> DynComp<F, I, O> {
    /// One step: pulls, and pushes a copy of the value into every pushing
    /// operator, in order. It returns the joined futures of the pushes,
    /// `None` when the pull ended, and `Pending` while upstream has nothing.
    pub fn step(&mut self, ctx: &mut Context<'_>) -> (r: Poll<Option<Joined<O::Feedback>>>)
        ensures
            exists|p: Poll<Option<F::Domain>>|
                #[trigger] I::pulled(old(self).pull_spec(), final(self).pull_spec(), p) && match p {
                    Poll::Ready(Some(x)) => r matches Poll::Ready(Some(_)) && each_pushed::<F, O>(
                        old(self).pushes_spec(),
                        F::lattice(x),
                        final(self).pushes_spec(),
                    ),
                    Poll::Ready(None) => r matches Poll::Ready(None) && final(self).pushes_spec()
                        == old(self).pushes_spec(),
                    Poll::Pending => r is Pending && final(self).pushes_spec()
                        == old(self).pushes_spec(),
                },
            r matches Poll::Ready(Some(j)) ==> j.parts().len() == old(self).pushes_spec().len(),
    {
        let ghost pre = *self;
        let p = self.pull.poll_next(ctx);
        let ghost pg = p;
        let r = match p {
            Poll::Ready(Some(item)) => {
                let mut futs: Vec<O::Feedback> = Vec::new();
                let n = self.pushes.len();
                let mut i: usize = 0;
                while i < n
                    invariant
                        n == self.pushes.len(),
                        n == pre.pushes@.len(),
                        I::pulled(pre.pull_spec(), self.pull_spec(), pg),
                        i <= n,
                        futs@.len() == i,
                        forall|j: int| i <= j < n ==> self.pushes@[j] == pre.pushes@[j],
                        forall|j: int|
                            0 <= j < i ==> #[trigger] pushed_as::<F, O>(
                                pre.pushes@[j],
                                F::lattice(item),
                                self.pushes@[j],
                            ),
                    decreases n - i,
                {
                    let c = F::copy(&item);
                    let ghost cg = c;
                    let ghost before = self.pushes@[i as int];
                    let fb = self.pushes[i].push(c);
                    assert(O::pushed(before, cg, self.pushes@[i as int]));
                    assert(pushed_as::<F, O>(before, F::lattice(item), self.pushes@[i as int]));
                    futs.push(fb);
                    i = i + 1;
                }
                Poll::Ready(Some(join_feedbacks(futs)))
            },
            Poll::Ready(None) => Poll::Ready(None),
            Poll::Pending => Poll::Pending,
        };
        assert(I::pulled(pre.pull_spec(), self.pull_spec(), pg));
        r
    }

    /// A future of one step: it completes with the outputs of all the
    /// pushes, or `None` once the pull has ended.
    pub fn tick_moveop(&mut self) -> (r: DynCompTick<'_, F, I, O>)
        ensures
            r.comp_view() == *old(self),
            r.idle(),
    {
        DynCompTick { comp: self, push_fut: None }
    }
}

impl<
    F: Merge,
    I: RefPullOp<Outflow = RX<F>, Outdomain = F::Domain>,
    O: RefPushOp<Inflow = RX<F>, Indomain = F::Domain>,
> DynComp<F, I, O> {
    /// Adds a split off, and returns the future of one step by reference
    /// over all the pushing operators, the new one last.
    pub fn add_split(&mut self, push: O) -> (r: RefCompFuture<'_, I, O>)
        ensures
            r.pull_view() == old(self).pull_spec(),
            r.pushes_view() == old(self).pushes_spec().push(push),
    {
        self.pushes.push(push);
        self.tick_refop()
    }

    /// The future of one step by reference: it completes with the outputs
    /// of all the pushes, or `None` once the pull has ended.
    pub fn tick_refop(&mut self) -> (r: RefCompFuture<'_, I, O>)
        ensures
            r.pull_view() == old(self).pull_spec(),
            r.pushes_view() == old(self).pushes_spec(),
    {
        RefCompFuture::new(&mut self.pull, PushTargets::Many(&mut self.pushes))
    }
}

/// The future of one step of a `DynComp` by owned values.
#[verifier::reject_recursive_types(F)]
pub struct DynCompTick<
    'a,
    F: Merge,
    I: PullOp<Outflow = RX<F>, Outdomain = F::Domain>,
    O: PushOp<Inflow = RX<F>, Indomain = F::Domain>,
> {
    comp: &'a mut DynComp<F, I, O>,
    push_fut: Option<Pin<Box<Joined<O::Feedback>>>>,
}

impl<
    'a,
    F: Merge,
    I: PullOp<Outflow = RX<F>, Outdomain = F::Domain>,
    O: PushOp<Inflow = RX<F>, Indomain = F::Domain>,
> DynCompTick<'a, F, I, O> {
    /// The composition the tick works on, as it is now.
    pub closed spec fn comp_view(&self) -> DynComp<F, I, O> {
        *self.comp
    }

    /// No push is under way yet.
    pub closed spec fn idle(&self) -> bool {
        self.push_fut is None
    }

    /// One poll of the future. With no push under way it steps: the end of
    /// the pull completes it with `None`, nothing pulled leaves it pending,
    /// and a pulled value is pushed into every pushing operator and the
    /// joined future of the pushes polled at once. With a push under way
    /// only that future is polled. Its output completes the step; while it
    /// is pending the push stays under way.
    pub fn poll_once(&mut self, ctx: &mut Context<'_>) -> (r: Poll<Option<Vec<<O::Feedback as Future>::Output>>>)
        ensures
            old(self).idle() ==> exists|p: Poll<Option<F::Domain>>|
                #[trigger] I::pulled(old(self).comp_view().pull_spec(), final(self).comp_view().pull_spec(), p)
                    && match p {
                    Poll::Ready(Some(x)) => each_pushed::<F, O>(
                        old(self).comp_view().pushes_spec(),
                        F::lattice(x),
                        final(self).comp_view().pushes_spec(),
                    ) && push_settled(r, final(self).idle()),
                    Poll::Ready(None) => r matches Poll::Ready(None) && final(self).idle()
                        && final(self).comp_view().pushes_spec() == old(self).comp_view().pushes_spec(),
                    Poll::Pending => r is Pending && final(self).idle()
                        && final(self).comp_view().pushes_spec() == old(self).comp_view().pushes_spec(),
                },
            !old(self).idle() ==> final(self).comp_view() == old(self).comp_view() && push_settled(
                r,
                final(self).idle(),
            ),
    {
        if self.push_fut.is_none() {
            let ghost pre = self.comp_view();
            let st = self.comp.step(ctx);
            assert(pre == old(self).comp_view());
            match st {
                Poll::Ready(Some(fut)) => {
                    self.push_fut = Some(box_pin(fut));
                },
                Poll::Ready(None) => {
                    return Poll::Ready(None);
                },
                Poll::Pending => {
                    return Poll::Pending;
                },
            }
        }
        let ghost mid = *self;
        let r = poll_push(&mut self.push_fut, ctx);
        assert(self.comp_view() == mid.comp_view());
        r
    }
}

impl<
    'a,
    F: Merge,
    I: PullOp<Outflow = RX<F>, Outdomain = F::Domain>,
    O: PushOp<Inflow = RX<F>, Indomain = F::Domain>,
> Unpin for DynCompTick<'a, F, I, O> {}

impl<
    'a,
    F: Merge,
    I: PullOp<Outflow = RX<F>, Outdomain = F::Domain>,
    O: PushOp<Inflow = RX<F>, Indomain = F::Domain>,
> Future for DynCompTick<'a, F, I, O> {
    type Output = Option<Vec<<O::Feedback as Future>::Output>>;

    fn poll(self: Pin<&mut Self>, ctx: &mut Context<'_>) -> std::task::Poll<Self::Output> {
        let this = pin_get_mut(self);
        this.poll_once(ctx).into_std()
    }
}

/// The pushing operators a step by reference pushes into.
pub enum PushTargets<'a, O: RefPushOp> {
    One(&'a mut O),
    Many(&'a mut Vec<O>),
}

/// The pushing operators, in order.
pub open spec fn targets_view<'a, O: RefPushOp>(t: PushTargets<'a, O>) -> Seq<O> {
    match t {
        PushTargets::One(r) => seq![*r],
        PushTargets::Many(v) => v@,
    }
}

/// Each of `pre` took a push of `item` by reference, giving `post`.
pub open spec fn each_ref_pushed<O: RefPushOp>(pre: Seq<O>, item: O::Indomain, post: Seq<O>) -> bool {
    &&& post.len() == pre.len()
    &&& forall|i: int| 0 <= i < pre.len() ==> #[trigger] O::ref_pushed(pre[i], item, post[i])
}

/// Pushes `item` into every target, in order, and collects the futures.
fn push_targets<'a, O: RefPushOp>(t: &mut PushTargets<'a, O>, item: &O::Indomain) -> (futs: Vec<
    O::Feedback,
>)
    ensures
        each_ref_pushed(targets_view(*old(t)), *item, targets_view(*final(t))),
        futs@.len() == targets_view(*old(t)).len(),
{
    match t {
        PushTargets::One(r) => {
            let f = r.push(item);
            vec![f]
        },
        PushTargets::Many(v) => {
            let ghost pre = v@;
            let mut futs: Vec<O::Feedback> = Vec::new();
            let n = v.len();
            let mut i: usize = 0;
            while i < n
                invariant
                    n == v.len(),
                    n == pre.len(),
                    i <= n,
                    futs@.len() == i,
                    forall|j: int| i <= j < n ==> v@[j] == pre[j],
                    forall|j: int| 0 <= j < i ==> #[trigger] O::ref_pushed(pre[j], *item, v@[j]),
                decreases n - i,
            {
                let f = v[i].push(item);
                futs.push(f);
                i = i + 1;
            }
            futs
        },
    }
}

/// The future of one step by reference: pulls a value, pushes a reference
/// to it into every target, and completes with the outputs of the pushes,
/// or `None` once the pull has ended.
pub struct RefCompFuture<'a, I: RefPullOp, O: RefPushOp<Indomain = I::Outdomain>> {
    pull: &'a mut I,
    pushes: PushTargets<'a, O>,
    push_fut: Option<Pin<Box<Joined<O::Feedback>>>>,
}

impl<'a, I: RefPullOp, O: RefPushOp<Indomain = I::Outdomain>> RefCompFuture<'a, I, O> {
    pub closed spec fn pull_view(&self) -> I {
        *self.pull
    }

    pub closed spec fn pushes_view(&self) -> Seq<O> {
        targets_view(self.pushes)
    }

    /// No push is under way yet.
    pub closed spec fn idle(&self) -> bool {
        self.push_fut is None
    }

    pub fn new(pull: &'a mut I, pushes: PushTargets<'a, O>) -> (r: Self)
        ensures
            r.pull_view() == *old(pull),
            r.pushes_view() == targets_view(pushes),
            r.idle(),
    {
        RefCompFuture { pull, pushes, push_fut: None }
    }

    /// One step: pulls, and pushes a reference to the value into every
    /// target, in order. It returns the joined futures of the pushes,
    /// `None` when the pull ended, and `Pending` while upstream has nothing.
    pub fn step(&mut self, ctx: &mut Context<'_>) -> (r: Poll<Option<Joined<O::Feedback>>>)
        ensures
            exists|p: Poll<Option<I::Outdomain>>|
                #[trigger] I::ref_pulled(old(self).pull_view(), final(self).pull_view(), p) && match p {
                    Poll::Ready(Some(x)) => r matches Poll::Ready(Some(_)) && each_ref_pushed(
                        old(self).pushes_view(),
                        x,
                        final(self).pushes_view(),
                    ),
                    Poll::Ready(None) => r matches Poll::Ready(None) && final(self).pushes_view()
                        == old(self).pushes_view(),
                    Poll::Pending => r is Pending && final(self).pushes_view()
                        == old(self).pushes_view(),
                },
            r matches Poll::Ready(Some(j)) ==> j.parts().len() == old(self).pushes_view().len(),
            final(self).idle() == old(self).idle(),
    {
        let ghost pre = *self;
        let p = self.pull.poll_next(ctx);
        let ghost pg = deref_poll(p);
        let r = match p {
            Poll::Ready(Some(item)) => {
                let futs = push_targets(&mut self.pushes, item);
                Poll::Ready(Some(join_feedbacks(futs)))
            },
            Poll::Ready(None) => Poll::Ready(None),
            Poll::Pending => Poll::Pending,
        };
        assert(I::ref_pulled(pre.pull_view(), self.pull_view(), pg));
        r
    }

    /// One poll of the future. With no push under way it steps: the end of
    /// the pull completes it with `None`, nothing pulled leaves it pending,
    /// and a reference to a pulled value is pushed into every target and
    /// the joined future of the pushes polled at once. With a push under
    /// way only that future is polled. Its output completes the step; while
    /// it is pending the push stays under way.
    pub fn poll_once(&mut self, ctx: &mut Context<'_>) -> (r: Poll<Option<Vec<<O::Feedback as Future>::Output>>>)
        ensures
            old(self).idle() ==> exists|p: Poll<Option<I::Outdomain>>|
                #[trigger] I::ref_pulled(old(self).pull_view(), final(self).pull_view(), p) && match p {
                    Poll::Ready(Some(x)) => each_ref_pushed(old(self).pushes_view(), x, final(self).pushes_view())
                        && push_settled(r, final(self).idle()),
                    Poll::Ready(None) => r matches Poll::Ready(None) && final(self).idle()
                        && final(self).pushes_view() == old(self).pushes_view(),
                    Poll::Pending => r is Pending && final(self).idle()
                        && final(self).pushes_view() == old(self).pushes_view(),
                },
            !old(self).idle() ==> final(self).pull_view() == old(self).pull_view()
                && final(self).pushes_view() == old(self).pushes_view() && push_settled(
                r,
                final(self).idle(),
            ),
    {
        if self.push_fut.is_none() {
            match self.step(ctx) {
                Poll::Ready(Some(fut)) => {
                    self.push_fut = Some(box_pin(fut));
                },
                Poll::Ready(None) => {
                    return Poll::Ready(None);
                },
                Poll::Pending => {
                    return Poll::Pending;
                },
            }
        }
        let ghost mid = *self;
        let r = poll_push(&mut self.push_fut, ctx);
        assert(self.pull_view() == mid.pull_view() && self.pushes_view() == mid.pushes_view());
        r
    }
}

impl<'a, I: RefPullOp, O: RefPushOp<Indomain = I::Outdomain>> Unpin for RefCompFuture<'a, I, O> {}

impl<'a, I: RefPullOp, O: RefPushOp<Indomain = I::Outdomain>> Future for RefCompFuture<'a, I, O> {
    type Output = Option<Vec<<O::Feedback as Future>::Output>>;

    fn poll(self: Pin<&mut Self>, ctx: &mut Context<'_>) -> std::task::Poll<Self::Output> {
        let this = pin_get_mut(self);
        this.poll_once(ctx).into_std()
    }
}

/// A future of a list of outputs, completing with the first of them.
#[verifier::reject_recursive_types(T)]
#[verifier::reject_recursive_types(Fut)]
pub struct FirstOutput<Fut: Future<Output = Option<Vec<T>>> + Unpin, T> {
    fut: Fut,
    _phantom: PhantomData<T>,
}

impl<Fut: Future<Output = Option<Vec<T>>> + Unpin, T> FirstOutput<Fut, T> {
    /// The future of the list of outputs.
    pub closed spec fn inner_view(&self) -> Fut {
        self.fut
    }
}

/// The first element of `v`, or `None` when it is empty.
pub fn first_of<T>(v: Vec<T>) -> (r: Option<T>)
    ensures
        v@.len() == 0 ==> r is None,
        v@.len() > 0 ==> r == Some(v@[0]),
{
    let mut v = v;
    if v.len() == 0 {
        None
    } else {
        Some(v.swap_remove(0))
    }
}

/// What a future of the first output gives once a poll of the future of
/// the list gave `outcome`: the first element of a completed list, `None`
/// for an empty list or where the list's future completed with `None`, and
/// pending while it is pending.
pub fn first_outcome<T>(outcome: Option<Option<Vec<T>>>) -> (r: Poll<Option<T>>)
    ensures
        match outcome {
            Some(Some(v)) => r == Poll::Ready(if v@.len() > 0 {
                Some(v@[0])
            } else {
                None
            }),
            Some(None) => r == Poll::<Option<T>>::Ready(None),
            None => r is Pending,
        },
{
    match outcome {
        Some(Some(outs)) => Poll::Ready(first_of(outs)),
        Some(None) => Poll::Ready(None),
        None => Poll::Pending,
    }
}

impl<Fut: Future<Output = Option<Vec<T>>> + Unpin, T> Unpin for FirstOutput<Fut, T> {}

impl<Fut: Future<Output = Option<Vec<T>>> + Unpin, T> Future for FirstOutput<Fut, T> {
    type Output = Option<T>;

    fn poll(self: Pin<&mut Self>, ctx: &mut Context<'_>) -> std::task::Poll<Option<T>> {
        let this = pin_get_mut(self);
        let outcome = poll_unpin(&mut this.fut, ctx);
        first_outcome(outcome).into_std()
    }
}

} // verus!
