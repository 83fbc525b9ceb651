//! An operator that never yields a delta.
use vstd::prelude::*;
use std::marker::PhantomData;
use std::task::Context;
use crate::lattice::Merge;
use crate::task::Poll;
use super::optrait::{Op, OpDelta};

verus! {

pub struct NullOp<Lr: Merge> {
    _phantom: PhantomData<Lr>,
}

impl<Lr: Merge> NullOp<Lr> {
    pub fn new() -> Self {
        NullOp { _phantom: PhantomData }
    }
}

impl<Lr: Merge> Op for NullOp<Lr> {
    type LatRepr = Lr;
}

impl<Lr: Merge> OpDelta for NullOp<Lr> {
    open spec fn delta_polled(pre: Self, post: Self, out: Poll<Option<Lr::Domain>>) -> bool {
        post == pre && out is Pending
    }

    fn poll_delta(&mut self, _ctx: &mut Context<'_>) -> (out: Poll<Option<Lr::Domain>>) {
        Poll::Pending
    }
}

} // verus!
