//! The lattice operator traits: an operator yields deltas of its lattice
//! representation, and may expose the value accumulated so far.
use vstd::prelude::*;
use std::task::Context;
use crate::lattice::Merge;
use crate::task::Poll;

verus! {

pub trait Op {
    /// The lattice representation of what this operator yields.
    type LatRepr: Merge;
}

/// An operator that yields deltas.
pub trait OpDelta: Op + Sized {
    /// `out` is a possible outcome of a poll that takes `pre` to `post`.
    spec fn delta_polled(
        pre: Self,
        post: Self,
        out: Poll<Option<<Self::LatRepr as Merge>::Domain>>,
    ) -> bool;

    fn poll_delta(&mut self, ctx: &mut Context<'_>) -> (out: Poll<
        Option<<Self::LatRepr as Merge>::Domain>,
    >)
        ensures
            Self::delta_polled(*old(self), *final(self), out),
    ;
}

/// An operator with a current value.
pub trait OpValue: Op + Sized {
    /// The lattice element of the current value.
    spec fn value_lattice(&self) -> <Self::LatRepr as Merge>::Lattice;

    fn get_value(&self) -> (r: <Self::LatRepr as Merge>::Domain)
        ensures
            Self::LatRepr::lattice(r) == self.value_lattice(),
    ;
}

/// `states` is a run of delta polls of an operator, from its first state to
/// its last, giving `outs` in order.
pub open spec fn delta_run<O: OpDelta>(
    states: Seq<O>,
    outs: Seq<Poll<Option<<O::LatRepr as Merge>::Domain>>>,
) -> bool {
    &&& states.len() == outs.len() + 1
    &&& forall|i: int| 0 <= i < outs.len() ==> #[trigger] O::delta_polled(states[i], states[i + 1], outs[i])
}

} // verus!
