//! The pull and push operator traits. Pulling produces the next item of a
//! flow; pushing hands an item to the operator and returns a future to
//! await.
//!
//! An operator states, as a relation between its value before and after
//! the call, what a pull or a push does; composite operators state theirs in
//! terms of those of the operators they wrap.
use vstd::prelude::*;
use std::future::Future;
use std::task::Context;
use crate::task::Poll;
use super::flow::Flow;

verus! {

/// The view of a pulled reference as the value it points to.
pub open spec fn deref_poll<T>(p: Poll<Option<&T>>) -> Poll<Option<T>> {
    match p {
        Poll::Ready(Some(r)) => Poll::Ready(Some(*r)),
        Poll::Ready(None) => Poll::Ready(None),
        Poll::Pending => Poll::Pending,
    }
}

pub trait Op {}

/// Pulling owned items.
pub trait PullOp: Op + Sized {
    type Outflow: Flow;
    type Outdomain;

    /// `out` is a possible outcome of a pull that takes `pre` to `post`.
    spec fn pulled(pre: Self, post: Self, out: Poll<Option<Self::Outdomain>>) -> bool;

    fn poll_next(&mut self, ctx: &mut Context<'_>) -> (out: Poll<Option<Self::Outdomain>>)
        ensures
            Self::pulled(*old(self), *final(self), out),
    ;
}

/// Pulling references to items the operator holds.
pub trait RefPullOp: Op + Sized {
    type Outflow: Flow;
    type Outdomain;

    spec fn ref_pulled(pre: Self, post: Self, out: Poll<Option<Self::Outdomain>>) -> bool;

    fn poll_next(&mut self, ctx: &mut Context<'_>) -> (out: Poll<Option<&Self::Outdomain>>)
        ensures
            Self::ref_pulled(*old(self), *final(self), deref_poll(out)),
    ;
}

/// Pushing owned items.
pub trait PushOp: Op + Sized {
    type Inflow: Flow;
    type Indomain;
    type Feedback: Future;

    /// Pushing `item` may take `pre` to `post`.
    spec fn pushed(pre: Self, item: Self::Indomain, post: Self) -> bool;

    fn push(&mut self, item: Self::Indomain) -> (fb: Self::Feedback)
        ensures
            Self::pushed(*old(self), item, *final(self)),
    ;
}

/// Pushing items by reference.
pub trait RefPushOp: Op + Sized {
    type Inflow: Flow;
    type Indomain;
    type Feedback: Future;

    spec fn ref_pushed(pre: Self, item: Self::Indomain, post: Self) -> bool;

    fn push(&mut self, item: &Self::Indomain) -> (fb: Self::Feedback)
        ensures
            Self::ref_pushed(*old(self), *item, *final(self)),
    ;
}

/// `states` is a run of pushes of `items`, in order, from its first state to
/// its last.
pub open spec fn push_run<O: PushOp>(states: Seq<O>, items: Seq<O::Indomain>) -> bool {
    &&& states.len() == items.len() + 1
    &&& forall|i: int|
        0 <= i < items.len() ==> #[trigger] O::pushed(states[i], items[i], states[i + 1])
}

/// Pushing all of `items`, in order, may take `pre` to `post`.
pub open spec fn pushed_all<O: PushOp>(pre: O, items: Seq<O::Indomain>, post: O) -> bool {
    exists|states: Seq<O>| #[trigger] push_run(states, items) && states[0] == pre && states.last() == post
}

/// Pushing nothing leaves the operator as it was.
pub proof fn lemma_pushed_all_empty<O: PushOp>(op: O)
    ensures
        pushed_all(op, Seq::<O::Indomain>::empty(), op),
{
    let states = seq![op];
    assert(push_run(states, Seq::<O::Indomain>::empty()));
}

/// Pushing one more item extends a run of pushes.
pub proof fn lemma_pushed_all_push<O: PushOp>(
    pre: O,
    items: Seq<O::Indomain>,
    mid: O,
    item: O::Indomain,
    post: O,
)
    requires
        pushed_all(pre, items, mid),
        O::pushed(mid, item, post),
    ensures
        pushed_all(pre, items.push(item), post),
{
    let states = choose|states: Seq<O>| #[trigger] push_run(states, items) && states[0] == pre && states.last() == mid;
    let states2 = states.push(post);
    assert forall|i: int| 0 <= i < items.push(item).len() implies #[trigger] O::pushed(
        states2[i],
        items.push(item)[i],
        states2[i + 1],
    ) by {
        if i < items.len() {
            assert(O::pushed(states[i], items[i], states[i + 1]));
        }
    }
    assert(push_run(states2, items.push(item)));
}

} // verus!
