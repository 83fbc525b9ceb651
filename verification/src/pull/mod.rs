//! Pull-based operators: each is polled for its next item.
use vstd::prelude::*;
use std::future::Future;
use std::marker::PhantomData;
use std::pin::Pin;
use std::task::Context;
use crate::func::TotalFn;
use crate::lattice::{Merge, below, lemma_below_join, lemma_rising_run};
use crate::op2::op::deref_poll;
use tokio::sync::mpsc::Receiver;
use crate::channel::receiver_poll_recv;
use crate::task::{Poll, pin_get_mut, context_waker, waker_wake_by_ref};




pub mod latticeop2;
pub use latticeop2::LatticeOp2;

verus! {

pub trait PullOp {
    type Domain;
}

/// Pulling owned items.
pub trait MovePullOp: PullOp + Sized {
    /// `out` is a possible outcome of a pull that takes `pre` to `post`.
    spec fn polled(pre: Self, post: Self, out: Poll<Option<Self::Domain>>) -> bool;

    fn poll_next(&mut self, ctx: &mut Context<'_>) -> (out: Poll<Option<Self::Domain>>)
        ensures
            Self::polled(*old(self), *final(self), out),
    ;
}

/// Pulling references to items the operator holds.
pub trait RefPullOp: PullOp + Sized {
    /// `out`, its item taken by value, is a possible outcome of a pull that
    /// takes `pre` to `post`.
    spec fn ref_polled(pre: Self, post: Self, out: Poll<Option<Self::Domain>>) -> bool;

    fn poll_next(&mut self, ctx: &mut Context<'_>) -> (out: Poll<Option<&Self::Domain>>)
        ensures
            Self::ref_polled(*old(self), *final(self), deref_poll(out)),
    ;
}

/// A future that completes with the next item pulled from an operator.
pub struct MoveNext<'a, O: MovePullOp> {
    op: &'a mut O,
}

impl<'a, O: MovePullOp> MoveNext<'a, O> {
    pub closed spec fn op_spec(self) -> O {
        *self.op
    }

    /// A future for the next item of `op`.
    pub fn new(op: &'a mut O) -> (r: Self)
        ensures
            r.op_spec() == *old(op),
    {
        MoveNext { op }
    }

    /// One poll of the future: one pull of the operator, whose outcome is
    /// handed on unchanged. An item or the end completes the future.
    pub fn poll_once(&mut self, ctx: &mut Context<'_>) -> (r: Poll<Option<O::Domain>>)
        ensures
            O::polled(old(self).op_spec(), final(self).op_spec(), r),
    {
        self.op.poll_next(ctx)
    }
}

impl<'a, O: MovePullOp> Unpin for MoveNext<'a, O> {}

impl<'a, O: MovePullOp> Future for MoveNext<'a, O> {
    type Output = Option<O::Domain>;

    fn poll(self: Pin<&mut Self>, ctx: &mut Context<'_>) -> std::task::Poll<Option<O::Domain>> {
        let this = pin_get_mut(self);
        this.poll_once(ctx).into_std()
    }
}

/// An operator that never yields: every pull is pending.
#[verifier::reject_recursive_types(T)]
pub struct NoOp<T> {
    _phantom: PhantomData<T>,
}

impl<T> NoOp<T> {
    pub fn new() -> (r: Self) {
        NoOp { _phantom: PhantomData }
    }
}

impl<T> PullOp for NoOp<T> {
    type Domain = T;
}

impl<T> MovePullOp for NoOp<T> {
    open spec fn polled(pre: Self, post: Self, out: Poll<Option<T>>) -> bool {
        post == pre && out is Pending
    }

    fn poll_next(&mut self, _ctx: &mut Context<'_>) -> (out: Poll<Option<T>>) {
        Poll::Pending
    }
}

impl<T> RefPullOp for NoOp<T> {
    open spec fn ref_polled(pre: Self, post: Self, out: Poll<Option<T>>) -> bool {
        post == pre && out is Pending
    }

    fn poll_next(&mut self, _ctx: &mut Context<'_>) -> (out: Poll<Option<&T>>) {
        Poll::Pending
    }
}

/// Turns a pull of references into a pull of clones.
pub struct CloneOp<O: RefPullOp> where O::Domain: Clone {
    op: O,
}

impl<O: RefPullOp> CloneOp<O> where O::Domain: Clone {
    pub closed spec fn op_spec(&self) -> O {
        self.op
    }

    pub fn new(op: O) -> (r: Self)
        ensures
            r.op_spec() == op,
    {
        CloneOp { op }
    }
}

impl<O: RefPullOp> PullOp for CloneOp<O> where O::Domain: Clone {
    type Domain = O::Domain;
}

/// `out` is `r` with its item, if any, replaced by a clone.
pub open spec fn cloned_poll<T: Clone>(r: Poll<Option<T>>, out: Poll<Option<T>>) -> bool {
    match r {
        Poll::Ready(Some(x)) => out matches Poll::Ready(Some(y)) && cloned(x, y),
        Poll::Ready(None) => out == Poll::<Option<T>>::Ready(None),
        Poll::Pending => out is Pending,
    }
}

impl<O: RefPullOp> MovePullOp for CloneOp<O> where O::Domain: Clone {
    /// Each referenced item is handed on as a clone.
    open spec fn polled(pre: Self, post: Self, out: Poll<Option<O::Domain>>) -> bool {
        exists|r: Poll<Option<O::Domain>>|
            #[trigger] O::ref_polled(pre.op_spec(), post.op_spec(), r) && cloned_poll(r, out)
    }

    fn poll_next(&mut self, ctx: &mut Context<'_>) -> (out: Poll<Option<O::Domain>>) {
        let ghost pre = *self;
        let polled = self.op.poll_next(ctx);
        let ghost pg = deref_poll(polled);
        let out = match polled {
            Poll::Ready(Some(item)) => Poll::Ready(Some(item.clone())),
            Poll::Ready(None) => Poll::Ready(None),
            Poll::Pending => Poll::Pending,
        };
        assert(O::ref_polled(pre.op_spec(), self.op_spec(), pg));
        out
    }
}

/// Maps each pulled item through a closure that may drop it. A dropped item
/// does not end the stream: the pull is pending, and the task is woken to
/// pull the next item.
#[verifier::reject_recursive_types(T)]
pub struct MapFilterOp<O: PullOp, F: Fn(O::Domain) -> Option<T>, T> {
    op: O,
    func: TotalFn<O::Domain, Option<T>, F>,
}

impl<O: PullOp, F: Fn(O::Domain) -> Option<T>, T> MapFilterOp<O, F, T> {
    pub closed spec fn op_spec(&self) -> O {
        self.op
    }

    pub closed spec fn func_spec(&self) -> F {
        self.func.func()
    }

    /// `func` must accept every item.
    pub fn new(op: O, func: F) -> (r: Self)
        requires
            forall|x: O::Domain| call_requires(func, (x,)),
        ensures
            r.op_spec() == op,
            r.func_spec() == func,
    {
        MapFilterOp { op, func: TotalFn::new(func) }
    }
}

impl<O: PullOp, F: Fn(O::Domain) -> Option<T>, T> PullOp for MapFilterOp<O, F, T> {
    type Domain = T;
}

/// `out` is the outcome `p` of the inner pull with its item passed through
/// `f`.
pub open spec fn mapped_poll<A, T, F: Fn(A) -> Option<T>>(
    f: F,
    p: Poll<Option<A>>,
    out: Poll<Option<T>>,
) -> bool {
    match p {
        Poll::Ready(Some(x)) => exists|y: Option<T>|
            #[trigger] call_ensures(f, (x,), y) && match y {
                Some(z) => out == Poll::Ready(Some(z)),
                None => out is Pending,
            },
        Poll::Ready(None) => out == Poll::<Option<T>>::Ready(None),
        Poll::Pending => out is Pending,
    }
}

impl<O: MovePullOp, F: Fn(O::Domain) -> Option<T>, T> MovePullOp for MapFilterOp<O, F, T> {
    open spec fn polled(pre: Self, post: Self, out: Poll<Option<T>>) -> bool {
        &&& post.func_spec() == pre.func_spec()
        &&& exists|p: Poll<Option<O::Domain>>|
            #[trigger] O::polled(pre.op_spec(), post.op_spec(), p) && mapped_poll(
                pre.func_spec(),
                p,
                out,
            )
    }

    fn poll_next(&mut self, ctx: &mut Context<'_>) -> (out: Poll<Option<T>>) {
        let ghost pre = *self;
        let val = self.op.poll_next(ctx);
        let ghost pg = val;
        let out = match val {
            Poll::Ready(Some(x)) => {
                let y = self.func.call(x);
                let ghost yg = y;
                assert(call_ensures(pre.func_spec(), (x,), yg));
                match y {
                    Some(z) => Poll::Ready(Some(z)),
                    None => {
                        waker_wake_by_ref(context_waker(ctx));
                        Poll::Pending
                    },
                }
            },
            Poll::Ready(None) => Poll::Ready(None),
            Poll::Pending => Poll::Pending,
        };
        assert(O::polled(pre.op_spec(), self.op_spec(), pg));
        out
    }
}

/// Accumulates pulled deltas into a lattice value; each pull yields a
/// reference to the value so far.
#[verifier::reject_recursive_types(F)]
pub struct LatticeOp<O: MovePullOp, F: Merge<Domain = O::Domain>> {
    op: O,
    state: F::Domain,
}

impl<O: MovePullOp, F: Merge<Domain = O::Domain>> LatticeOp<O, F> {
    pub closed spec fn op_spec(&self) -> O {
        self.op
    }

    pub closed spec fn state_spec(&self) -> F::Domain {
        self.state
    }

    /// Starts from `bottom`.
    pub fn new(op: O, bottom: F::Domain) -> (r: Self)
        ensures
            r.op_spec() == op,
            r.state_spec() == bottom,
    {
        LatticeOp { op, state: bottom }
    }
}

impl<O: MovePullOp, F: Merge<Domain = O::Domain>> PullOp for LatticeOp<O, F> {
    type Domain = O::Domain;
}

impl<O: MovePullOp, F: Merge<Domain = O::Domain>> RefPullOp for LatticeOp<O, F> {
    /// A delta is merged in and the value yielded; the end of upstream ends
    /// this stream; while upstream has nothing the unchanged value is
    /// yielded again.
    open spec fn ref_polled(pre: Self, post: Self, out: Poll<Option<O::Domain>>) -> bool {
        exists|p: Poll<Option<O::Domain>>|
            #[trigger] O::polled(pre.op_spec(), post.op_spec(), p) && match p {
                Poll::Ready(Some(d)) => F::lattice(post.state_spec()) == F::join(
                    F::lattice(pre.state_spec()),
                    F::lattice(d),
                ) && out == Poll::Ready(Some(post.state_spec())),
                Poll::Ready(None) => post.state_spec() == pre.state_spec() && out
                    == Poll::<Option<O::Domain>>::Ready(None),
                Poll::Pending => post.state_spec() == pre.state_spec() && out == Poll::Ready(
                    Some(post.state_spec()),
                ),
            }
    }

    fn poll_next(&mut self, ctx: &mut Context<'_>) -> (out: Poll<Option<&O::Domain>>) {
        let ghost pre = *self;
        let p = self.op.poll_next(ctx);
        let ghost pg = p;
        match p {
            Poll::Ready(Some(delta)) => {
                F::merge_in(&mut self.state, delta);
            },
            Poll::Ready(None) => {
                assert(O::polled(pre.op_spec(), self.op_spec(), pg));
                return Poll::Ready(None);
            },
            Poll::Pending => {},
        }
        assert(O::polled(pre.op_spec(), self.op_spec(), pg));
        Poll::Ready(Some(&self.state))
    }
}

/// Over any run of pulls of a lattice operator, the value only moves up:
/// each value it holds is below every later one.
pub proof fn lemma_lattice_op_value_rises<O: MovePullOp, F: Merge<Domain = O::Domain>>(
    states: Seq<LatticeOp<O, F>>,
    outs: Seq<Poll<Option<O::Domain>>>,
)
    requires
        states.len() == outs.len() + 1,
        forall|i: int|
            0 <= i < outs.len() ==> #[trigger] LatticeOp::<O, F>::ref_polled(states[i], states[i + 1], outs[i]),
    ensures
        forall|i: int, j: int|
            0 <= i <= j < states.len() ==> below::<F>(
                F::lattice(#[trigger] states[i].state_spec()),
                F::lattice(#[trigger] states[j].state_spec()),
            ),
{
    let vals = states.map_values(|s: LatticeOp<O, F>| F::lattice(s.state_spec()));
    assert forall|i: int| 0 <= i < vals.len() - 1 implies #[trigger] below::<F>(vals[i], vals[i + 1]) by {
        assert(LatticeOp::<O, F>::ref_polled(states[i], states[i + 1], outs[i]));
        let p = choose|p: Poll<Option<O::Domain>>|
            #[trigger] O::polled(states[i].op_spec(), states[i + 1].op_spec(), p) && match p {
                Poll::Ready(Some(d)) => F::lattice(states[i + 1].state_spec()) == F::join(
                    F::lattice(states[i].state_spec()),
                    F::lattice(d),
                ) && outs[i] == Poll::Ready(Some(states[i + 1].state_spec())),
                Poll::Ready(None) => states[i + 1].state_spec() == states[i].state_spec() && outs[i]
                    == Poll::<Option<O::Domain>>::Ready(None),
                Poll::Pending => states[i + 1].state_spec() == states[i].state_spec() && outs[i]
                    == Poll::Ready(Some(states[i + 1].state_spec())),
            };
        match p {
            Poll::Ready(Some(d)) => lemma_below_join::<F>(vals[i], F::lattice(d)),
            _ => lemma_below_join::<F>(vals[i], vals[i]),
        }
    }
    lemma_rising_run::<F>(vals);
    assert forall|i: int, j: int| 0 <= i <= j < states.len() implies below::<F>(
        F::lattice(#[trigger] states[i].state_spec()),
        F::lattice(#[trigger] states[j].state_spec()),
    ) by {
        assert(below::<F>(vals[i], vals[j]));
    }
}

/// Pulls the messages of a channel, in the order they were sent.
#[verifier::reject_recursive_types(T)]
pub struct ChannelOp<T> {
    receiver: Receiver<T>,
}

impl<T> ChannelOp<T> {
    /// The receiving half this operator pulls from.
    pub closed spec fn receiver_spec(&self) -> Receiver<T> {
        self.receiver
    }

    /// Pulls from `receiver`.
    pub fn new(receiver: Receiver<T>) -> (r: Self)
        ensures
            r.receiver_spec() == receiver,
    {
        ChannelOp { receiver }
    }
}

impl<T> PullOp for ChannelOp<T> {
    type Domain = T;
}

impl<T> MovePullOp for ChannelOp<T> {
    /// What a pull yields depends on the senders; any outcome may come.
    open spec fn polled(pre: Self, post: Self, out: Poll<Option<T>>) -> bool {
        true
    }

    fn poll_next(&mut self, ctx: &mut Context<'_>) -> (out: Poll<Option<T>>) {
        receiver_poll_recv(&mut self.receiver, ctx)
    }
}

} // verus!
