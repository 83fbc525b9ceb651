//! The standard push operators.
use vstd::prelude::*;
use std::cell::RefCell;
use std::fmt::Debug;
use std::future::Ready;
use std::marker::PhantomData;
use futures::future::{Join, OptionFuture};
use tokio::sync::mpsc::Receiver;
use crate::channel::drain_into;
use crate::convert::record_line;
use crate::feedback::{Joined, join2, join_feedbacks, option_future};
use crate::lattice::{Merge, join_fold, lemma_join_run};
use crate::task::{future_ready, refcell_new, refcell_replace};
use super::{Op, SharedRefOp, ExclRefOp, SharedMoveOp, ExclMoveOp, UnaryFn};

verus! {

/// Takes every item and does nothing with it.
#[verifier::reject_recursive_types(T)]
pub struct NullOp<T> {
    _phantom: PhantomData<T>,
}

impl<T> NullOp<T> {
    pub fn new() -> (r: Self) {
        NullOp { _phantom: PhantomData }
    }
}

impl<T> Op for NullOp<T> {
    type Item = T;
}

impl<T> SharedRefOp for NullOp<T> {
    type Feedback = Ready<()>;

    open spec fn shared_ref_pushed(op: Self, item: T, fb: Ready<()>) -> bool {
        true
    }

    fn push(&self, _item: &T) -> (fb: Ready<()>) {
        future_ready(())
    }
}

impl<T> ExclRefOp for NullOp<T> {
    type Feedback = Ready<()>;

    open spec fn excl_ref_pushed(pre: Self, item: T, post: Self, fb: Ready<()>) -> bool {
        post == pre
    }

    fn push(&mut self, _item: &T) -> (fb: Ready<()>) {
        future_ready(())
    }
}

impl<T> SharedMoveOp for NullOp<T> {
    type Feedback = Ready<()>;

    open spec fn shared_move_pushed(op: Self, item: T, fb: Ready<()>) -> bool {
        true
    }

    fn push(&self, _item: T) -> (fb: Ready<()>) {
        future_ready(())
    }
}

impl<T> ExclMoveOp for NullOp<T> {
    type Feedback = Ready<()>;

    open spec fn excl_move_pushed(pre: Self, item: T, post: Self, fb: Ready<()>) -> bool {
        post == pre
    }

    fn push(&mut self, _item: T) -> (fb: Ready<()>) {
        future_ready(())
    }
}

/// Records a line `tag: item` for each item and passes the item on. The
/// lines are handed out by `take_log`, to be printed.
pub struct DebugOp<P: Op> where P::Item: Debug {
    tag: &'static str,
    next_pipe: P,
    log: RefCell<Vec<String>>,
}

impl<P: Op> DebugOp<P> where P::Item: Debug {
    pub closed spec fn tag_spec(&self) -> &'static str {
        self.tag
    }

    pub closed spec fn next_spec(&self) -> P {
        self.next_pipe
    }

    pub fn new(tag: &'static str, next_pipe: P) -> (r: Self)
        ensures
            r.tag_spec() == tag,
            r.next_spec() == next_pipe,
    {
        DebugOp { tag, next_pipe, log: refcell_new(Vec::new()) }
    }

    /// The lines recorded since the last call, oldest first.
    pub fn take_log(&self) -> Vec<String> {
        refcell_replace(&self.log, Vec::new())
    }

    fn record(&self, item: &P::Item) {
        let mut lines = refcell_replace(&self.log, Vec::new());
        record_line(&mut lines, self.tag, item);
        let _ = refcell_replace(&self.log, lines);
    }
}

impl<P: Op> Op for DebugOp<P> where P::Item: Debug {
    type Item = P::Item;
}

impl<P: SharedRefOp> SharedRefOp for DebugOp<P> where P::Item: Debug {
    type Feedback = P::Feedback;

    open spec fn shared_ref_pushed(op: Self, item: P::Item, fb: P::Feedback) -> bool {
        P::shared_ref_pushed(op.next_spec(), item, fb)
    }

    fn push(&self, item: &P::Item) -> (fb: P::Feedback) {
        self.record(item);
        self.next_pipe.push(item)
    }
}

impl<P: ExclRefOp> ExclRefOp for DebugOp<P> where P::Item: Debug {
    type Feedback = P::Feedback;

    open spec fn excl_ref_pushed(pre: Self, item: P::Item, post: Self, fb: P::Feedback) -> bool {
        post.tag_spec() == pre.tag_spec() && P::excl_ref_pushed(
            pre.next_spec(),
            item,
            post.next_spec(),
            fb,
        )
    }

    fn push(&mut self, item: &P::Item) -> (fb: P::Feedback) {
        self.record(item);
        self.next_pipe.push(item)
    }
}

impl<P: SharedMoveOp> SharedMoveOp for DebugOp<P> where P::Item: Debug {
    type Feedback = P::Feedback;

    open spec fn shared_move_pushed(op: Self, item: P::Item, fb: P::Feedback) -> bool {
        P::shared_move_pushed(op.next_spec(), item, fb)
    }

    fn push(&self, item: P::Item) -> (fb: P::Feedback) {
        self.record(&item);
        self.next_pipe.push(item)
    }
}

impl<P: ExclMoveOp> ExclMoveOp for DebugOp<P> where P::Item: Debug {
    type Feedback = P::Feedback;

    open spec fn excl_move_pushed(pre: Self, item: P::Item, post: Self, fb: P::Feedback) -> bool {
        post.tag_spec() == pre.tag_spec() && P::excl_move_pushed(
            pre.next_spec(),
            item,
            post.next_spec(),
            fb,
        )
    }

    fn push(&mut self, item: P::Item) -> (fb: P::Feedback) {
        self.record(&item);
        self.next_pipe.push(item)
    }
}

/// Takes items by reference and pushes clones of them on.
pub struct CloneOp<P: Op> where P::Item: Clone {
    next_pipe: P,
}

impl<P: Op> CloneOp<P> where P::Item: Clone {
    pub closed spec fn next_spec(&self) -> P {
        self.next_pipe
    }

    pub fn new(next_pipe: P) -> (r: Self)
        ensures
            r.next_spec() == next_pipe,
    {
        CloneOp { next_pipe }
    }
}

impl<P: Op> Op for CloneOp<P> where P::Item: Clone {
    type Item = P::Item;
}

impl<P: SharedMoveOp> SharedRefOp for CloneOp<P> where P::Item: Clone {
    type Feedback = P::Feedback;

    open spec fn shared_ref_pushed(op: Self, item: P::Item, fb: P::Feedback) -> bool {
        exists|c: P::Item| cloned(item, c) && #[trigger] P::shared_move_pushed(op.next_spec(), c, fb)
    }

    fn push(&self, item: &P::Item) -> (fb: P::Feedback) {
        let c = item.clone();
        let ghost cg = c;
        let fb = self.next_pipe.push(c);
        assert(P::shared_move_pushed(self.next_spec(), cg, fb));
        fb
    }
}

impl<P: ExclMoveOp> ExclRefOp for CloneOp<P> where P::Item: Clone {
    type Feedback = P::Feedback;

    open spec fn excl_ref_pushed(pre: Self, item: P::Item, post: Self, fb: P::Feedback) -> bool {
        exists|c: P::Item|
            cloned(item, c) && #[trigger] P::excl_move_pushed(
                pre.next_spec(),
                c,
                post.next_spec(),
                fb,
            )
    }

    fn push(&mut self, item: &P::Item) -> (fb: P::Feedback) {
        let ghost pre = *self;
        let c = item.clone();
        let ghost cg = c;
        let fb = self.next_pipe.push(c);
        assert(P::excl_move_pushed(pre.next_spec(), cg, self.next_spec(), fb));
        fb
    }
}

/// Merges each item into a lattice value and pushes a reference to the
/// value on.
#[verifier::reject_recursive_types(F)]
pub struct LatticeOp<F: Merge, P: ExclRefOp<Item = F::Domain>> {
    value: F::Domain,
    next_pipe: P,
}

impl<F: Merge, P: ExclRefOp<Item = F::Domain>> LatticeOp<F, P> {
    pub closed spec fn value_spec(&self) -> F::Domain {
        self.value
    }

    pub closed spec fn next_spec(&self) -> P {
        self.next_pipe
    }

    /// Starts from `bottom`.
    pub fn new(bottom: F::Domain, next_pipe: P) -> (r: Self)
        ensures
            r.value_spec() == bottom,
            r.next_spec() == next_pipe,
    {
        LatticeOp { value: bottom, next_pipe }
    }
}

impl<F: Merge, P: ExclRefOp<Item = F::Domain>> Op for LatticeOp<F, P> {
    type Item = F::Domain;
}

impl<F: Merge, P: ExclRefOp<Item = F::Domain>> ExclMoveOp for LatticeOp<F, P> {
    type Feedback = P::Feedback;

    /// The value moves to its join with the item, and the new value is
    /// pushed on.
    open spec fn excl_move_pushed(pre: Self, item: F::Domain, post: Self, fb: P::Feedback) -> bool {
        &&& F::lattice(post.value_spec()) == F::join(F::lattice(pre.value_spec()), F::lattice(item))
        &&& P::excl_ref_pushed(pre.next_spec(), post.value_spec(), post.next_spec(), fb)
    }

    fn push(&mut self, item: F::Domain) -> (fb: P::Feedback) {
        F::merge_in(&mut self.value, item);
        self.next_pipe.push(&self.value)
    }
}

/// Pushing items into a lattice operator, one push at a time, leaves it
/// holding the join of its starting value with every item, in the order
/// pushed.
pub proof fn lemma_lattice_op_accumulates<F: Merge, P: ExclRefOp<Item = F::Domain>>(
    states: Seq<LatticeOp<F, P>>,
    items: Seq<F::Domain>,
    fbs: Seq<P::Feedback>,
)
    requires
        states.len() == items.len() + 1,
        fbs.len() == items.len(),
        forall|i: int|
            0 <= i < items.len() ==> #[trigger] LatticeOp::<F, P>::excl_move_pushed(states[i], items[i], states[i + 1], fbs[i]),
    ensures
        F::lattice(states.last().value_spec()) == join_fold::<F>(F::lattice(states[0].value_spec()), items),
{
    let vals = states.map_values(|s: LatticeOp<F, P>| F::lattice(s.value_spec()));
    assert forall|i: int| 0 <= i < items.len() implies vals[i + 1] == F::join(
        vals[i],
        F::lattice(#[trigger] items[i]),
    ) by {
        assert(LatticeOp::<F, P>::excl_move_pushed(states[i], items[i], states[i + 1], fbs[i]));
    }
    lemma_join_run::<F>(vals, items);
}

/// Pushes each item into both of two operators.
pub struct TeeOp<P0: Op, P1: Op<Item = P0::Item>> {
    pipe0: P0,
    pipe1: P1,
}

impl<P0: Op, P1: Op<Item = P0::Item>> TeeOp<P0, P1> {
    pub closed spec fn pipe0_spec(&self) -> P0 {
        self.pipe0
    }

    pub closed spec fn pipe1_spec(&self) -> P1 {
        self.pipe1
    }

    pub fn new(pipe0: P0, pipe1: P1) -> (r: Self)
        ensures
            r.pipe0_spec() == pipe0,
            r.pipe1_spec() == pipe1,
    {
        TeeOp { pipe0, pipe1 }
    }
}

impl<P0: Op, P1: Op<Item = P0::Item>> Op for TeeOp<P0, P1> {
    type Item = P0::Item;
}

impl<P0: SharedRefOp, P1: Op<Item = P0::Item> + SharedRefOp> SharedRefOp for TeeOp<P0, P1> {
    type Feedback = Join<P0::Feedback, P1::Feedback>;

    /// Both operators took the item.
    open spec fn shared_ref_pushed(op: Self, item: P0::Item, fb: Self::Feedback) -> bool {
        (exists|f0: P0::Feedback| #[trigger] P0::shared_ref_pushed(op.pipe0_spec(), item, f0))
            && (exists|f1: P1::Feedback| #[trigger] P1::shared_ref_pushed(op.pipe1_spec(), item, f1))
    }

    fn push(&self, item: &P0::Item) -> (fb: Self::Feedback) {
        let f0 = self.pipe0.push(item);
        let f1 = self.pipe1.push(item);
        assert(P0::shared_ref_pushed(self.pipe0_spec(), *item, f0));
        assert(P1::shared_ref_pushed(self.pipe1_spec(), *item, f1));
        join2(f0, f1)
    }
}

impl<P0: ExclRefOp, P1: Op<Item = P0::Item> + ExclRefOp> ExclRefOp for TeeOp<P0, P1> {
    type Feedback = Join<P0::Feedback, P1::Feedback>;

    /// Both operators took the item.
    open spec fn excl_ref_pushed(pre: Self, item: P0::Item, post: Self, fb: Self::Feedback) -> bool {
        (exists|f0: P0::Feedback|
            #[trigger] P0::excl_ref_pushed(pre.pipe0_spec(), item, post.pipe0_spec(), f0)) && (exists|
            f1: P1::Feedback,
        | #[trigger] P1::excl_ref_pushed(pre.pipe1_spec(), item, post.pipe1_spec(), f1))
    }

    fn push(&mut self, item: &P0::Item) -> (fb: Self::Feedback) {
        let ghost pre = *self;
        let f0 = self.pipe0.push(item);
        let ghost mid = *self;
        let f1 = self.pipe1.push(item);
        assert(P0::excl_ref_pushed(pre.pipe0_spec(), *item, mid.pipe0_spec(), f0));
        assert(P1::excl_ref_pushed(mid.pipe1_spec(), *item, self.pipe1_spec(), f1));
        assert(mid.pipe0_spec() == self.pipe0_spec());
        assert(mid.pipe1_spec() == pre.pipe1_spec());
        join2(f0, f1)
    }
}

/// `pre` took a push of `item` and became `post`.
pub open spec fn took_ref<P: ExclRefOp>(pre: P, item: P::Item, post: P) -> bool {
    exists|f: P::Feedback| #[trigger] P::excl_ref_pushed(pre, item, post, f)
}

/// Pushing `item` into each of `pre` gave `post`.
pub open spec fn each_took_ref<P: ExclRefOp>(pre: Seq<P>, item: P::Item, post: Seq<P>) -> bool {
    &&& post.len() == pre.len()
    &&& forall|i: int| 0 <= i < pre.len() ==> #[trigger] took_ref(pre[i], item, post[i])
}

/// Pushes into each of `pipes`, in order, and joins the futures of the
/// pushes: one per operator, in order.
pub fn push_ref_each<P: ExclRefOp>(pipes: &mut Vec<P>, item: &P::Item) -> (fb: Joined<P::Feedback>)
    ensures
        each_took_ref(old(pipes)@, *item, final(pipes)@),
        fb.parts().len() == old(pipes)@.len(),
{
    let ghost pre = pipes@;
    let mut futs: Vec<P::Feedback> = Vec::new();
    let n = pipes.len();
    let mut i: usize = 0;
    while i < n
        invariant
            n == pipes.len(),
            n == pre.len(),
            i <= n,
            futs@.len() == i,
            forall|j: int| i <= j < n ==> pipes@[j] == pre[j],
            forall|j: int| 0 <= j < i ==> #[trigger] took_ref(pre[j], *item, pipes@[j]),
        decreases n - i,
    {
        let ghost before = pipes@[i as int];
        let fb = pipes[i].push(item);
        assert(P::excl_ref_pushed(before, *item, pipes@[i as int], fb));
        assert(took_ref(before, *item, pipes@[i as int]));
        futs.push(fb);
        i = i + 1;
    }
    join_feedbacks(futs)
}

/// Pushes each item into every operator registered so far. New operators
/// arrive on a channel; each push first takes in those that have arrived,
/// so every operator registered before a push receives its item.
#[verifier::reject_recursive_types(P)]
pub struct SplitOp<P: Op> {
    pipe_receiver: Receiver<P>,
    pipes: Vec<P>,
}

impl<P: Op> SplitOp<P> {
    pub closed spec fn pipes_spec(&self) -> Seq<P> {
        self.pipes@
    }

    /// No operator yet; new ones are taken from `pipe_receiver`.
    pub fn new(pipe_receiver: Receiver<P>) -> (r: Self)
        ensures
            r.pipes_spec() == Seq::<P>::empty(),
    {
        SplitOp { pipe_receiver, pipes: Vec::new() }
    }
}

impl<P: Op> Op for SplitOp<P> {
    type Item = P::Item;
}

impl<P: ExclRefOp> ExclRefOp for SplitOp<P> {
    type Feedback = Joined<P::Feedback>;

    /// The operators held before, then those that arrived, each took the
    /// item, in that order; the future joins one future per operator.
    open spec fn excl_ref_pushed(pre: Self, item: P::Item, post: Self, fb: Self::Feedback) -> bool {
        &&& fb.parts().len() == post.pipes_spec().len()
        &&& exists|mid: Seq<P>|
            #![trigger each_took_ref(mid, item, post.pipes_spec())]
            mid.len() >= pre.pipes_spec().len() && mid.take(pre.pipes_spec().len() as int)
                == pre.pipes_spec() && each_took_ref(mid, item, post.pipes_spec())
    }

    fn push(&mut self, item: &P::Item) -> (fb: Self::Feedback) {
        let ghost pre = *self;
        drain_into(&mut self.pipe_receiver, &mut self.pipes);
        let ghost mid = self.pipes@;
        let fb = push_ref_each(&mut self.pipes, item);
        assert(each_took_ref(mid, *item, self.pipes_spec()));
        assert(mid.len() >= pre.pipes_spec().len());
        assert(mid.take(pre.pipes_spec().len() as int) == pre.pipes_spec());
        fb
    }
}

/// Maps each item through a function that may drop it, and pushes what it
/// keeps on. The future completes with `None` for a dropped item.
#[verifier::reject_recursive_types(T)]
pub struct MapFilterOp<T, F: for<'a> UnaryFn<&'a T, Output = Option<P::Item>>, P: Op> {
    mapfilter: F,
    next_pipe: P,
    _phantom: PhantomData<T>,
}

impl<T, F: for<'a> UnaryFn<&'a T, Output = Option<P::Item>>, P: Op> MapFilterOp<T, F, P> {
    pub closed spec fn mapfilter_spec(&self) -> F {
        self.mapfilter
    }

    pub closed spec fn next_spec(&self) -> P {
        self.next_pipe
    }

    pub fn new(mapfilter: F, next_pipe: P) -> (r: Self)
        ensures
            r.mapfilter_spec() == mapfilter,
            r.next_spec() == next_pipe,
    {
        MapFilterOp { mapfilter, next_pipe, _phantom: PhantomData }
    }
}

impl<T, F: for<'a> UnaryFn<&'a T, Output = Option<P::Item>>, P: Op> Op for MapFilterOp<T, F, P> {
    type Item = T;
}

impl<
    T,
    F: for<'a> UnaryFn<&'a T, Output = Option<P::Item>>,
    P: SharedMoveOp,
> SharedRefOp for MapFilterOp<T, F, P> {
    type Feedback = OptionFuture<P::Feedback>;

    /// A kept item was pushed on; a dropped one went nowhere.
    open spec fn shared_ref_pushed(op: Self, item: T, fb: Self::Feedback) -> bool {
        match op.mapfilter_spec().call_spec(&item) {
            Some(x) => exists|f: P::Feedback| #[trigger] P::shared_move_pushed(op.next_spec(), x, f),
            None => true,
        }
    }

    fn push(&self, item: &T) -> (fb: Self::Feedback) {
        match self.mapfilter.call(item) {
            Some(x) => {
                let ghost xg = x;
                let f = self.next_pipe.push(x);
                assert(P::shared_move_pushed(self.next_spec(), xg, f));
                option_future(Some(f))
            },
            None => option_future(None),
        }
    }
}

impl<
    T,
    F: for<'a> UnaryFn<&'a T, Output = Option<P::Item>>,
    P: ExclMoveOp,
> ExclRefOp for MapFilterOp<T, F, P> {
    type Feedback = OptionFuture<P::Feedback>;

    /// A kept item was pushed on; a dropped one changed nothing.
    open spec fn excl_ref_pushed(pre: Self, item: T, post: Self, fb: Self::Feedback) -> bool {
        &&& post.mapfilter_spec() == pre.mapfilter_spec()
        &&& match pre.mapfilter_spec().call_spec(&item) {
            Some(x) => exists|f: P::Feedback|
                #[trigger] P::excl_move_pushed(pre.next_spec(), x, post.next_spec(), f),
            None => post.next_spec() == pre.next_spec(),
        }
    }

    fn push(&mut self, item: &T) -> (fb: Self::Feedback) {
        let ghost pre = *self;
        match self.mapfilter.call(item) {
            Some(x) => {
                let ghost xg = x;
                let f = self.next_pipe.push(x);
                assert(P::excl_move_pushed(pre.next_spec(), xg, self.next_spec(), f));
                option_future(Some(f))
            },
            None => option_future(None),
        }
    }
}

} // verus!
