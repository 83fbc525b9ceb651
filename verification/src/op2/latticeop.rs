//! A state-accumulating lattice operator: every item that arrives is merged
//! into its value, and the value is what flows on.
use vstd::prelude::*;
use std::task::Context;
use crate::lattice::{Merge, join_fold, lemma_join_run};
use crate::task::{Poll, delivered};
use super::op::{Op, PullOp, PushOp, MovePullOp, RefPullOp, MovePushOp, RefPushOp, move_push_run, move_pushed_all};
use super::types::{DF, RX};

verus! {

/// The lattice value after merging what a pull of upstream gave.
pub open spec fn merged_after<F: Merge>(state: F::Domain, r: Poll<Option<F::Domain>>, post: F::Domain) -> bool {
    match r {
        Poll::Ready(Some(d)) => F::lattice(post) == F::join(F::lattice(state), F::lattice(d)),
        _ => post == state,
    }
}

#[verifier::reject_recursive_types(F)]
pub struct LatticeOp<O: Op, F: Merge> {
    op: O,
    state: F::Domain,
}

impl<O: Op, F: Merge> LatticeOp<O, F> {
    pub closed spec fn op_spec(&self) -> O {
        self.op
    }

    pub closed spec fn state_spec(&self) -> F::Domain {
        self.state
    }

    /// Accumulates into a value starting at `bottom`.
    pub fn new(op: O, bottom: F::Domain) -> (r: Self)
        ensures
            r.op_spec() == op,
            r.state_spec() == bottom,
    {
        LatticeOp { op, state: bottom }
    }
}

impl<O: Op, F: Merge> LatticeOp<O, F> where F::Domain: Default {
    /// Accumulates into a value starting at the default value: one that
    /// the `Default` impl of the value's type returns.
    pub fn new_default(op: O) -> (r: Self)
        ensures
            r.op_spec() == op,
            call_ensures(F::Domain::default, (), r.state_spec()),
    {
        let state = F::Domain::default();
        LatticeOp { op, state }
    }
}

impl<O: Op, F: Merge> Op for LatticeOp<O, F> {}

impl<O: PullOp<Outflow = DF, Outdomain = F::Domain>, F: Merge> PullOp for LatticeOp<O, F> {
    type Outflow = RX;
    type Outdomain = F::Domain;
}

impl<O: PushOp<Inflow = RX, Indomain = F::Domain>, F: Merge> PushOp for LatticeOp<O, F> {
    type Inflow = DF;
    type Indomain = F::Domain;
}

impl<I: MovePullOp<Outflow = DF, Outdomain = F::Domain>, F: Merge> RefPullOp for LatticeOp<I, F> {
    /// An item of upstream is merged in; the value is always handed out,
    /// even after upstream has ended.
    open spec fn ref_polled(pre: Self, post: Self, out: Poll<Option<F::Domain>>) -> bool {
        &&& out == Poll::Ready(Some(post.state_spec()))
        &&& exists|r: Poll<Option<F::Domain>>|
            #[trigger] I::move_polled(pre.op_spec(), post.op_spec(), r) && merged_after::<F>(
                pre.state_spec(),
                r,
                post.state_spec(),
            )
    }

    fn poll_next(&mut self, ctx: &mut Context<'_>) -> (out: Poll<Option<&F::Domain>>) {
        let ghost pre = *self;
        let r = self.op.poll_next(ctx);
        let ghost rg = r;
        match r {
            Poll::Ready(Some(item)) => F::merge_in(&mut self.state, item),
            _ => {},
        }
        assert(I::move_polled(pre.op_spec(), self.op_spec(), rg));
        Poll::Ready(Some(&self.state))
    }
}

impl<O: RefPushOp<Inflow = RX, Indomain = F::Domain>, F: Merge> MovePushOp for LatticeOp<O, F> {
    type Feedback = O::Feedback;

    /// The item is merged in, and the new value is pushed on.
    open spec fn move_pushed(pre: Self, item: F::Domain, post: Self) -> bool {
        &&& F::lattice(post.state_spec()) == F::join(F::lattice(pre.state_spec()), F::lattice(item))
        &&& O::ref_pushed(pre.op_spec(), post.state_spec(), post.op_spec())
    }

    fn push(&mut self, item: F::Domain) -> (fb: O::Feedback) {
        F::merge_in(&mut self.state, item);
        self.op.push(&self.state)
    }
}

/// Pushing items into a lattice operator, one push at a time, leaves it
/// holding the join of its starting value with every item, in the order
/// pushed.
pub proof fn lemma_lattice_op_accumulates<O: RefPushOp<Inflow = RX, Indomain = F::Domain>, F: Merge>(
    pre: LatticeOp<O, F>,
    items: Seq<F::Domain>,
    post: LatticeOp<O, F>,
)
    requires
        move_pushed_all(pre, items, post),
    ensures
        F::lattice(post.state_spec()) == join_fold::<F>(F::lattice(pre.state_spec()), items),
{
    let states = choose|states: Seq<LatticeOp<O, F>>|
        #[trigger] move_push_run(states, items) && states[0] == pre && states.last() == post;
    let vals = states.map_values(|s: LatticeOp<O, F>| F::lattice(s.state_spec()));
    assert forall|i: int| 0 <= i < items.len() implies vals[i + 1] == F::join(
        vals[i],
        F::lattice(#[trigger] items[i]),
    ) by {
        assert(LatticeOp::<O, F>::move_pushed(states[i], items[i], states[i + 1]));
    }
    lemma_join_run::<F>(vals, items);
}

/// Pulling a lattice operator, one pull at a time, leaves its value the
/// join of its starting value with every item upstream gave, in order:
/// `states` are the values it holds along the pulls, and `upstream` what
/// each pull of upstream gave.
pub proof fn lemma_lattice_op_pulls_accumulate<F: Merge>(
    states: Seq<F::Domain>,
    upstream: Seq<Poll<Option<F::Domain>>>,
)
    requires
        states.len() == upstream.len() + 1,
        forall|i: int|
            0 <= i < upstream.len() ==> #[trigger] merged_after::<F>(states[i], upstream[i], states[i + 1]),
    ensures
        F::lattice(states.last()) == join_fold::<F>(F::lattice(states[0]), delivered(upstream)),
    decreases upstream.len(),
{
    if upstream.len() > 0 {
        let n = upstream.len() as int;
        let st = states.drop_last();
        let us = upstream.drop_last();
        assert forall|i: int| 0 <= i < us.len() implies #[trigger] merged_after::<F>(st[i], us[i], st[i + 1]) by {
            assert(merged_after::<F>(states[i], upstream[i], states[i + 1]));
        }
        lemma_lattice_op_pulls_accumulate::<F>(st, us);
        assert(merged_after::<F>(states[n - 1], upstream[n - 1], states[n]));
        assert(upstream.last() == upstream[n - 1]);
        match upstream.last() {
            Poll::Ready(Some(d)) => {
                assert(delivered(upstream).drop_last() =~= delivered(us));
            },
            _ => {},
        }
    }
}

} // verus!
