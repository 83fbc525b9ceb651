//! The operator traits. Pulling produces the next item of a flow; pushing
//! hands an item to the operator and returns a future to await.
//!
//! An operator states, as a relation between its value before and after
//! the call, what a pull or a push does; composite operators state theirs in
//! terms of those of the operators they wrap.
use vstd::prelude::*;
use std::future::Future;
use std::task::Context;
use crate::task::Poll;
use super::types::Flow;

verus! {

/// The view of a pulled reference as the value it points to.
pub open spec fn deref_poll<T>(p: Poll<Option<&T>>) -> Poll<Option<T>> {
    match p {
        Poll::Ready(Some(r)) => Poll::Ready(Some(*r)),
        Poll::Ready(None) => Poll::Ready(None),
        Poll::Pending => Poll::Pending,
    }
}

pub trait Op {}

pub trait PullOp: Op {
    type Outflow: Flow;
    type Outdomain;
}

pub trait PushOp: Op {
    type Inflow: Flow;
    type Indomain;
}

/// Pulling owned items.
pub trait MovePullOp: PullOp + Sized {
    /// `out` is a possible outcome of a pull that takes `pre` to `post`.
    spec fn move_polled(pre: Self, post: Self, out: Poll<Option<Self::Outdomain>>) -> bool;

    fn poll_next(&mut self, ctx: &mut Context<'_>) -> (out: Poll<Option<Self::Outdomain>>)
        ensures
            Self::move_polled(*old(self), *final(self), out),
    ;
}

/// Pulling references to items the operator holds.
pub trait RefPullOp: PullOp + Sized {
    spec fn ref_polled(pre: Self, post: Self, out: Poll<Option<Self::Outdomain>>) -> bool;

    fn poll_next(&mut self, ctx: &mut Context<'_>) -> (out: Poll<Option<&Self::Outdomain>>)
        ensures
            Self::ref_polled(*old(self), *final(self), deref_poll(out)),
    ;
}

/// Pushing items by reference.
pub trait RefPushOp: PushOp + Sized {
    type Feedback: Future;

    /// Pushing `item` may take `pre` to `post`.
    spec fn ref_pushed(pre: Self, item: Self::Indomain, post: Self) -> bool;

    fn push(&mut self, item: &Self::Indomain) -> (fb: Self::Feedback)
        ensures
            Self::ref_pushed(*old(self), *item, *final(self)),
    ;
}

/// Pushing owned items.
pub trait MovePushOp: PushOp + Sized {
    type Feedback: Future;

    spec fn move_pushed(pre: Self, item: Self::Indomain, post: Self) -> bool;

    fn push(&mut self, item: Self::Indomain) -> (fb: Self::Feedback)
        ensures
            Self::move_pushed(*old(self), item, *final(self)),
    ;
}

/// `states` is a run of pushes of `items`, in order, from its first state to
/// its last.
pub open spec fn move_push_run<O: MovePushOp>(states: Seq<O>, items: Seq<O::Indomain>) -> bool {
    &&& states.len() == items.len() + 1
    &&& forall|i: int|
        0 <= i < items.len() ==> #[trigger] O::move_pushed(states[i], items[i], states[i + 1])
}

/// Pushing all of `items`, in order, may take `pre` to `post`.
pub open spec fn move_pushed_all<O: MovePushOp>(pre: O, items: Seq<O::Indomain>, post: O) -> bool {
    exists|states: Seq<O>|
        #[trigger] move_push_run(states, items) && states[0] == pre && states.last() == post
}

/// Pushing nothing leaves the operator as it was.
pub proof fn lemma_move_pushed_all_empty<O: MovePushOp>(op: O)
    ensures
        move_pushed_all(op, Seq::<O::Indomain>::empty(), op),
{
    let states = seq![op];
    assert(move_push_run(states, Seq::<O::Indomain>::empty()));
}

/// Pushing one more item extends a run of pushes.
pub proof fn lemma_move_pushed_all_push<O: MovePushOp>(
    pre: O,
    items: Seq<O::Indomain>,
    mid: O,
    item: O::Indomain,
    post: O,
)
    requires
        move_pushed_all(pre, items, mid),
        O::move_pushed(mid, item, post),
    ensures
        move_pushed_all(pre, items.push(item), post),
{
    let states = choose|states: Seq<O>|
        #[trigger] move_push_run(states, items) && states[0] == pre && states.last() == mid;
    let states2 = states.push(post);
    assert forall|i: int| 0 <= i < items.push(item).len() implies #[trigger] O::move_pushed(
        states2[i],
        items.push(item)[i],
        states2[i + 1],
    ) by {
        if i < items.len() {
            assert(O::move_pushed(states[i], items[i], states[i + 1]));
        }
    }
    assert(move_push_run(states2, items.push(item)));
}

} // verus!
