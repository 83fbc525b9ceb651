//! A pipe which merges each element of its items.
use vstd::prelude::*;
use std::marker::PhantomData;
use super::{Pipe, PipeConstructor};

verus! {

/// `states` is a run of merges of `items`, in order, from its first state
/// to its last.
pub open spec fn merge_run<P: Pipe>(states: Seq<P>, items: Seq<P::Item>) -> bool {
    &&& states.len() == items.len() + 1
    &&& forall|i: int| 0 <= i < items.len() ==> #[trigger] P::merged(states[i], items[i], states[i + 1])
}

/// Merging all of `items`, in order, may take `pre` to `post`.
pub open spec fn merged_all<P: Pipe>(pre: P, items: Seq<P::Item>, post: P) -> bool {
    exists|states: Seq<P>| #[trigger] merge_run(states, items) && states[0] == pre && states.last() == post
}

/// Merging nothing leaves the pipe as it was.
pub proof fn lemma_merged_all_empty<P: Pipe>(p: P)
    ensures
        merged_all(p, Seq::<P::Item>::empty(), p),
{
    let states = seq![p];
    assert(merge_run(states, Seq::<P::Item>::empty()));
}

/// Merging one more item extends a run of merges.
pub proof fn lemma_merged_all_push<P: Pipe>(pre: P, items: Seq<P::Item>, mid: P, item: P::Item, post: P)
    requires
        merged_all(pre, items, mid),
        P::merged(mid, item, post),
    ensures
        merged_all(pre, items.push(item), post),
{
    let states = choose|states: Seq<P>|
        #[trigger] merge_run(states, items) && states[0] == pre && states.last() == mid;
    let states2 = states.push(post);
    assert forall|i: int| 0 <= i < items.push(item).len() implies #[trigger] P::merged(
        states2[i],
        items.push(item)[i],
        states2[i + 1],
    ) by {
        if i < items.len() {
            assert(P::merged(states[i], items[i], states[i + 1]));
        }
    }
    assert(merge_run(states2, items.push(item)));
}

/// Merges each element of an item into the next pipe, in order.
#[verifier::reject_recursive_types(I)]
pub struct FlattenPipe<I, P: Pipe<Item = I>> {
    pipe: P,
    _phantom: PhantomData<I>,
}

impl<I, P: Pipe<Item = I>> FlattenPipe<I, P> {
    pub closed spec fn pipe_spec(&self) -> P {
        self.pipe
    }

    pub fn new(pipe: P) -> (r: Self)
        ensures
            r.pipe_spec() == pipe,
    {
        FlattenPipe { pipe, _phantom: PhantomData }
    }

    /// The pipe this one feeds.
    pub fn pipe(&self) -> (r: &P)
        ensures
            *r == self.pipe_spec(),
    {
        &self.pipe
    }
}

impl<I, P: Pipe<Item = I>> Pipe for FlattenPipe<I, P> {
    type Item = Vec<I>;

    /// The elements are merged into the next pipe in order.
    open spec fn merged(pre: Self, input: Vec<I>, post: Self) -> bool {
        merged_all(pre.pipe_spec(), input@, post.pipe_spec())
    }

    fn merge_in(&mut self, input: Vec<I>) {
        let ghost pre = self.pipe;
        let ghost all = input@;
        let mut items = input;
        let mut k: usize = 0;
        assert(all.len() == items.len());
        proof {
            lemma_merged_all_empty(pre);
            assert(all.take(0) =~= Seq::<I>::empty());
            assert(items@ =~= all.skip(0));
        }
        while items.len() > 0
            invariant
                k <= all.len(),
                all.len() <= usize::MAX,
                items@ == all.skip(k as int),
                merged_all(pre, all.take(k as int), self.pipe),
            decreases items.len(),
        {
            let item = items.remove(0);
            let ghost mid = self.pipe;
            self.pipe.merge_in(item);
            proof {
                lemma_merged_all_push(pre, all.take(k as int), mid, item, self.pipe);
                assert(all.take(k as int).push(item) =~= all.take(k + 1));
                assert(items@ =~= all.skip(k + 1));
            }
            k = k + 1;
        }
        assert(all.take(k as int) =~= all);
    }
}

impl<I, P: Pipe<Item = I>> PipeConstructor for FlattenPipe<I, P> {
    type Pipe = P;
    type Args = ();

    open spec fn args_ok(args: ()) -> bool {
        true
    }

    open spec fn constructed(pipe: P, args: (), r: Self) -> bool {
        r.pipe_spec() == pipe
    }

    fn new(pipe: P, _args: ()) -> (r: Self) {
        FlattenPipe::new(pipe)
    }
}

} // verus!
