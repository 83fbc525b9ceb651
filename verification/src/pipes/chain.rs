//! Pipes that each push into the next one, taking items by reference
//! (`Pipe`) or by value (`MovePipe`).
use vstd::prelude::*;
use std::fmt::Debug;
use std::future::{Future, Ready};
use std::marker::PhantomData;
use futures::future::OptionFuture;
use tokio::sync::mpsc::Receiver;
use crate::channel::drain_into;
use crate::feedback::{Joined, join_feedbacks, option_future};
use crate::lattice::{Merge, join_fold, lemma_join_run};
use crate::convert::{logged_after, record_line};
use crate::task::future_ready;
pub use super::UnaryFn;

verus! {

/// A pipe taking items by reference.
pub trait Pipe: Sized {
    type Item;
    type Feedback: Future;

    /// Pushing `item` may take `pre` to `post` and return `fb`.
    spec fn pipe_pushed(pre: Self, item: Self::Item, post: Self, fb: Self::Feedback) -> bool;

    fn push(&mut self, item: &Self::Item) -> (fb: Self::Feedback)
        ensures
            Self::pipe_pushed(*old(self), *item, *final(self), fb),
    ;
}

/// A pipe taking items by value.
pub trait MovePipe: Sized {
    type Item;
    type Feedback: Future;

    spec fn move_pipe_pushed(pre: Self, item: Self::Item, post: Self, fb: Self::Feedback) -> bool;

    fn push(&mut self, item: Self::Item) -> (fb: Self::Feedback)
        ensures
            Self::move_pipe_pushed(*old(self), item, *final(self), fb),
    ;
}

/// Every pipe taking references takes values too, by lending them.
impl<P: Pipe> MovePipe for P {
    type Item = P::Item;
    type Feedback = P::Feedback;

    open spec fn move_pipe_pushed(pre: Self, item: P::Item, post: Self, fb: P::Feedback) -> bool {
        P::pipe_pushed(pre, item, post, fb)
    }

    fn push(&mut self, item: P::Item) -> (fb: P::Feedback) {
        Pipe::push(self, &item)
    }
}

/// Takes every item and does nothing with it.
#[verifier::reject_recursive_types(T)]
pub struct NullPipe<T> {
    _phantom: PhantomData<T>,
}

impl<T> NullPipe<T> {
    pub fn new() -> (r: Self) {
        NullPipe { _phantom: PhantomData }
    }
}

impl<T> Pipe for NullPipe<T> {
    type Item = T;
    type Feedback = Ready<()>;

    open spec fn pipe_pushed(pre: Self, item: T, post: Self, fb: Ready<()>) -> bool {
        post == pre
    }

    fn push(&mut self, _item: &T) -> (fb: Ready<()>) {
        future_ready(())
    }
}

/// Records a line `tag: item` for each item and passes the item on. The
/// lines are handed out by `take_log`, to be printed.
pub struct DebugPipe<P: Pipe> where P::Item: Debug {
    tag: &'static str,
    next_pipe: P,
    log: Vec<String>,
}

impl<P: Pipe> DebugPipe<P> where P::Item: Debug {
    pub closed spec fn tag_spec(&self) -> &'static str {
        self.tag
    }

    pub closed spec fn next_spec(&self) -> P {
        self.next_pipe
    }

    /// The lines recorded and not yet taken.
    pub closed spec fn log_spec(&self) -> Seq<String> {
        self.log@
    }

    pub fn new(tag: &'static str, next_pipe: P) -> (r: Self)
        ensures
            r.tag_spec() == tag,
            r.next_spec() == next_pipe,
            r.log_spec() == Seq::<String>::empty(),
    {
        DebugPipe { tag, next_pipe, log: Vec::new() }
    }

    /// The lines recorded since the last call, oldest first.
    pub fn take_log(&mut self) -> (r: Vec<String>)
        ensures
            r@ == old(self).log_spec(),
            final(self).log_spec() == Seq::<String>::empty(),
            final(self).tag_spec() == old(self).tag_spec(),
            final(self).next_spec() == old(self).next_spec(),
    {
        let mut log: Vec<String> = Vec::new();
        std::mem::swap(&mut log, &mut self.log);
        log
    }
}

impl<P: Pipe> Pipe for DebugPipe<P> where P::Item: Debug {
    type Item = P::Item;
    type Feedback = P::Feedback;

    /// A line is recorded and the item passed on.
    open spec fn pipe_pushed(pre: Self, item: P::Item, post: Self, fb: P::Feedback) -> bool {
        &&& post.tag_spec() == pre.tag_spec()
        &&& logged_after(pre.log_spec(), post.log_spec(), pre.tag_spec()@, true)
        &&& P::pipe_pushed(pre.next_spec(), item, post.next_spec(), fb)
    }

    fn push(&mut self, item: &P::Item) -> (fb: P::Feedback) {
        record_line(&mut self.log, self.tag, item);
        self.next_pipe.push(item)
    }
}

/// Takes items by reference and pushes clones of them on.
pub struct ClonePipe<P: MovePipe> where P::Item: Clone {
    next_pipe: P,
}

impl<P: MovePipe> ClonePipe<P> where P::Item: Clone {
    pub closed spec fn next_spec(&self) -> P {
        self.next_pipe
    }

    pub fn new(next_pipe: P) -> (r: Self)
        ensures
            r.next_spec() == next_pipe,
    {
        ClonePipe { next_pipe }
    }
}

impl<P: MovePipe> Pipe for ClonePipe<P> where P::Item: Clone {
    type Item = P::Item;
    type Feedback = P::Feedback;

    open spec fn pipe_pushed(pre: Self, item: P::Item, post: Self, fb: P::Feedback) -> bool {
        exists|c: P::Item|
            cloned(item, c) && #[trigger] P::move_pipe_pushed(
                pre.next_spec(),
                c,
                post.next_spec(),
                fb,
            )
    }

    fn push(&mut self, item: &P::Item) -> (fb: P::Feedback) {
        let ghost pre = *self;
        let c = item.clone();
        let ghost cg = c;
        let fb = self.next_pipe.push(c);
        assert(P::move_pipe_pushed(pre.next_spec(), cg, self.next_spec(), fb));
        fb
    }
}

/// Merges each item into a lattice value and pushes a reference to the
/// value on.
#[verifier::reject_recursive_types(F)]
pub struct LatticePipe<F: Merge, P: Pipe<Item = F::Domain>> {
    value: F::Domain,
    next_pipe: P,
}

impl<F: Merge, P: Pipe<Item = F::Domain>> LatticePipe<F, P> {
    pub closed spec fn value_spec(&self) -> F::Domain {
        self.value
    }

    pub closed spec fn next_spec(&self) -> P {
        self.next_pipe
    }

    /// Starts from `bottom`.
    pub fn new(bottom: F::Domain, next_pipe: P) -> (r: Self)
        ensures
            r.value_spec() == bottom,
            r.next_spec() == next_pipe,
    {
        LatticePipe { value: bottom, next_pipe }
    }
}

impl<F: Merge, P: Pipe<Item = F::Domain>> MovePipe for LatticePipe<F, P> {
    type Item = F::Domain;
    type Feedback = P::Feedback;

    /// The value moves to its join with the item, and the new value is
    /// pushed on.
    open spec fn move_pipe_pushed(pre: Self, item: F::Domain, post: Self, fb: P::Feedback) -> bool {
        &&& F::lattice(post.value_spec()) == F::join(F::lattice(pre.value_spec()), F::lattice(item))
        &&& P::pipe_pushed(pre.next_spec(), post.value_spec(), post.next_spec(), fb)
    }

    fn push(&mut self, item: F::Domain) -> (fb: P::Feedback) {
        F::merge_in(&mut self.value, item);
        Pipe::push(&mut self.next_pipe, &self.value)
    }
}

/// Pushing items into a lattice pipe, one push at a time, leaves it holding
/// the join of its starting value with every item, in the order pushed.
pub proof fn lemma_lattice_pipe_accumulates<F: Merge, P: Pipe<Item = F::Domain>>(
    states: Seq<LatticePipe<F, P>>,
    items: Seq<F::Domain>,
    fbs: Seq<P::Feedback>,
)
    requires
        states.len() == items.len() + 1,
        fbs.len() == items.len(),
        forall|i: int|
            0 <= i < items.len() ==> #[trigger] LatticePipe::<F, P>::move_pipe_pushed(states[i], items[i], states[i + 1], fbs[i]),
    ensures
        F::lattice(states.last().value_spec()) == join_fold::<F>(F::lattice(states[0].value_spec()), items),
{
    let vals = states.map_values(|s: LatticePipe<F, P>| F::lattice(s.value_spec()));
    assert forall|i: int| 0 <= i < items.len() implies vals[i + 1] == F::join(
        vals[i],
        F::lattice(#[trigger] items[i]),
    ) by {
        assert(LatticePipe::<F, P>::move_pipe_pushed(states[i], items[i], states[i + 1], fbs[i]));
    }
    lemma_join_run::<F>(vals, items);
}

/// `pre` took a push of `item` and became `post`.
pub open spec fn pipe_took<P: Pipe>(pre: P, item: P::Item, post: P) -> bool {
    exists|f: P::Feedback| #[trigger] P::pipe_pushed(pre, item, post, f)
}

/// Pushing `item` into each of `pre` gave `post`.
pub open spec fn each_pipe_took<P: Pipe>(pre: Seq<P>, item: P::Item, post: Seq<P>) -> bool {
    &&& post.len() == pre.len()
    &&& forall|i: int| 0 <= i < pre.len() ==> #[trigger] pipe_took(pre[i], item, post[i])
}

/// Pushes each item into every pipe registered so far. New pipes arrive on
/// a channel; each push first takes in those that have arrived, so every
/// pipe registered before a push receives its item.
#[verifier::reject_recursive_types(P)]
pub struct SplitPipe<P: MovePipe> where P::Item: Clone {
    pipe_receiver: Receiver<P>,
    pipes: Vec<P>,
}

impl<P: MovePipe> SplitPipe<P> where P::Item: Clone {
    pub closed spec fn pipes_spec(&self) -> Seq<P> {
        self.pipes@
    }

    /// No pipe yet; new ones are taken from `pipe_receiver`.
    pub fn new(pipe_receiver: Receiver<P>) -> (r: Self)
        ensures
            r.pipes_spec() == Seq::<P>::empty(),
    {
        SplitPipe { pipe_receiver, pipes: Vec::new() }
    }
}

impl<P: Pipe> Pipe for SplitPipe<P> where P::Item: Clone {
    type Item = P::Item;
    type Feedback = Joined<P::Feedback>;

    /// The pipes held before, then those that arrived, each took the item,
    /// in that order; the future joins one future per pipe.
    open spec fn pipe_pushed(pre: Self, item: P::Item, post: Self, fb: Self::Feedback) -> bool {
        &&& fb.parts().len() == post.pipes_spec().len()
        &&& exists|mid: Seq<P>|
            #![trigger each_pipe_took(mid, item, post.pipes_spec())]
            mid.len() >= pre.pipes_spec().len() && mid.take(pre.pipes_spec().len() as int)
                == pre.pipes_spec() && each_pipe_took(mid, item, post.pipes_spec())
    }

    fn push(&mut self, item: &P::Item) -> (fb: Self::Feedback) {
        let ghost pre = *self;
        drain_into(&mut self.pipe_receiver, &mut self.pipes);
        let ghost mid = self.pipes@;
        let mut futs: Vec<P::Feedback> = Vec::new();
        let n = self.pipes.len();
        let mut i: usize = 0;
        while i < n
            invariant
                n == self.pipes.len(),
                n == mid.len(),
                i <= n,
                futs@.len() == i,
                forall|j: int| i <= j < n ==> self.pipes@[j] == mid[j],
                forall|j: int| 0 <= j < i ==> #[trigger] pipe_took(mid[j], *item, self.pipes@[j]),
            decreases n - i,
        {
            let ghost before = self.pipes@[i as int];
            let f = Pipe::push(&mut self.pipes[i], item);
            assert(P::pipe_pushed(before, *item, self.pipes@[i as int], f));
            assert(pipe_took(before, *item, self.pipes@[i as int]));
            futs.push(f);
            i = i + 1;
        }
        assert(each_pipe_took(mid, *item, self.pipes_spec()));
        assert(mid.take(pre.pipes_spec().len() as int) == pre.pipes_spec());
        join_feedbacks(futs)
    }
}

/// Maps each item through a function that may drop it, and pushes what it
/// keeps on. The future completes with `None` for a dropped item.
#[verifier::reject_recursive_types(T)]
pub struct MapFilterPipe<T, F: for<'a> UnaryFn<&'a T, Output = Option<P::Item>>, P: MovePipe> {
    mapfilter: F,
    next_pipe: P,
    _phantom: PhantomData<T>,
}

impl<T, F: for<'a> UnaryFn<&'a T, Output = Option<P::Item>>, P: MovePipe> MapFilterPipe<T, F, P> {
    pub closed spec fn mapfilter_spec(&self) -> F {
        self.mapfilter
    }

    pub closed spec fn next_spec(&self) -> P {
        self.next_pipe
    }

    pub fn new(mapfilter: F, next_pipe: P) -> (r: Self)
        ensures
            r.mapfilter_spec() == mapfilter,
            r.next_spec() == next_pipe,
    {
        MapFilterPipe { mapfilter, next_pipe, _phantom: PhantomData }
    }
}

impl<T, F: for<'a> UnaryFn<&'a T, Output = Option<P::Item>>, P: MovePipe> Pipe for MapFilterPipe<
    T,
    F,
    P,
> {
    type Item = T;
    type Feedback = OptionFuture<P::Feedback>;

    /// A kept item was pushed on; a dropped one changed nothing.
    open spec fn pipe_pushed(pre: Self, item: T, post: Self, fb: Self::Feedback) -> bool {
        &&& post.mapfilter_spec() == pre.mapfilter_spec()
        &&& match pre.mapfilter_spec().call_spec(&item) {
            Some(x) => exists|f: P::Feedback|
                #[trigger] P::move_pipe_pushed(pre.next_spec(), x, post.next_spec(), f),
            None => post.next_spec() == pre.next_spec(),
        }
    }

    fn push(&mut self, item: &T) -> (fb: Self::Feedback) {
        let ghost pre = *self;
        match self.mapfilter.call(item) {
            Some(x) => {
                let ghost xg = x;
                let f = self.next_pipe.push(x);
                assert(P::move_pipe_pushed(pre.next_spec(), xg, self.next_spec(), f));
                option_future(Some(f))
            },
            None => option_future(None),
        }
    }
}

} // verus!
