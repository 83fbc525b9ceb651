//! A state-accumulating lattice operator: every delta that passes through
//! is merged into its value.
use vstd::prelude::*;
use std::task::Context;
use crate::lattice::{Merge, join_fold};
use crate::task::{Poll, delivered};
use super::optrait::{Op, OpDelta, OpValue, delta_run};

verus! {

#[verifier::reject_recursive_types(Lr)]
pub struct LatticeOp<O: Op<LatRepr = Lr>, Lr: Merge> {
    op: O,
    state: Lr::Domain,
}

impl<O: Op<LatRepr = Lr>, Lr: Merge> LatticeOp<O, Lr> {
    pub closed spec fn op_spec(&self) -> O {
        self.op
    }

    pub closed spec fn state_spec(&self) -> Lr::Domain {
        self.state
    }

    /// Accumulates the deltas of `op`, starting from `bottom`.
    pub fn new(op: O, bottom: Lr::Domain) -> (r: Self)
        ensures
            r.op_spec() == op,
            r.state_spec() == bottom,
    {
        LatticeOp { op, state: bottom }
    }
}

impl<O: Op<LatRepr = Lr>, Lr: Merge> Op for LatticeOp<O, Lr> {
    type LatRepr = Lr;
}

impl<O: OpDelta<LatRepr = Lr>, Lr: Merge> OpDelta for LatticeOp<O, Lr> {
    /// Deltas pass through unchanged, and each is merged into the value.
    open spec fn delta_polled(pre: Self, post: Self, out: Poll<Option<Lr::Domain>>) -> bool {
        &&& O::delta_polled(pre.op_spec(), post.op_spec(), out)
        &&& match out {
            Poll::Ready(Some(d)) => Lr::lattice(post.state_spec()) == Lr::join(
                Lr::lattice(pre.state_spec()),
                Lr::lattice(d),
            ),
            _ => post.state_spec() == pre.state_spec(),
        }
    }

    fn poll_delta(&mut self, ctx: &mut Context<'_>) -> (out: Poll<Option<Lr::Domain>>) {
        match self.op.poll_delta(ctx) {
            Poll::Ready(Some(delta)) => {
                let copy = Lr::copy(&delta);
                Lr::merge_in(&mut self.state, copy);
                Poll::Ready(Some(delta))
            },
            Poll::Ready(None) => Poll::Ready(None),
            Poll::Pending => Poll::Pending,
        }
    }
}

impl<O: Op<LatRepr = Lr>, Lr: Merge> OpValue for LatticeOp<O, Lr> {
    open spec fn value_lattice(&self) -> Lr::Lattice {
        Lr::lattice(self.state_spec())
    }

    /// A copy of the accumulated value.
    fn get_value(&self) -> (r: Lr::Domain)
        ensures
            Lr::copy_of(self.state_spec(), r),
    {
        Lr::copy(&self.state)
    }
}

/// Polling a lattice operator, one poll at a time, leaves its value the
/// join of its starting value with every delta that passed, in order.
pub proof fn lemma_lattice_op_accumulates<O: OpDelta<LatRepr = Lr>, Lr: Merge>(
    states: Seq<LatticeOp<O, Lr>>,
    outs: Seq<Poll<Option<Lr::Domain>>>,
)
    requires
        delta_run(states, outs),
    ensures
        states.last().value_lattice() == join_fold::<Lr>(states[0].value_lattice(), delivered(outs)),
    decreases outs.len(),
{
    if outs.len() > 0 {
        let n = outs.len() as int;
        let st = states.drop_last();
        let os = outs.drop_last();
        assert forall|i: int| 0 <= i < os.len() implies #[trigger] LatticeOp::<O, Lr>::delta_polled(
            st[i],
            st[i + 1],
            os[i],
        ) by {
            assert(LatticeOp::<O, Lr>::delta_polled(states[i], states[i + 1], outs[i]));
        }
        lemma_lattice_op_accumulates(st, os);
        assert(LatticeOp::<O, Lr>::delta_polled(states[n - 1], states[n], outs[n - 1]));
        match outs.last() {
            Poll::Ready(Some(d)) => {
                assert(delivered(outs) == delivered(os).push(d));
                assert(delivered(outs).drop_last() =~= delivered(os));
            },
            _ => {},
        }
    }
}

} // verus!
