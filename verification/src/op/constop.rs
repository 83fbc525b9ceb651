//! An operator with a constant value and no deltas.
use vstd::prelude::*;
use std::task::Context;
use crate::lattice::Merge;
use crate::task::Poll;
use super::optrait::{Op, OpDelta, OpValue};

verus! {

#[verifier::reject_recursive_types(Lr)]
pub struct ConstOp<Lr: Merge> {
    value: Lr::Domain,
}

impl<Lr: Merge> ConstOp<Lr> {
    pub closed spec fn value_spec(&self) -> Lr::Domain {
        self.value
    }

    pub fn new(value: Lr::Domain) -> (r: Self)
        ensures
            r.value_spec() == value,
    {
        ConstOp { value }
    }
}

impl<Lr: Merge> Op for ConstOp<Lr> {
    type LatRepr = Lr;
}

impl<Lr: Merge> OpDelta for ConstOp<Lr> {
    open spec fn delta_polled(pre: Self, post: Self, out: Poll<Option<Lr::Domain>>) -> bool {
        post == pre && out is Pending
    }

    fn poll_delta(&mut self, _ctx: &mut Context<'_>) -> (out: Poll<Option<Lr::Domain>>) {
        Poll::Pending
    }
}

impl<Lr: Merge> OpValue for ConstOp<Lr> {
    open spec fn value_lattice(&self) -> Lr::Lattice {
        Lr::lattice(self.value_spec())
    }

    /// A copy of the constant value.
    fn get_value(&self) -> (r: Lr::Domain)
        ensures
            Lr::copy_of(self.value_spec(), r),
    {
        Lr::copy(&self.value)
    }
}

} // verus!
