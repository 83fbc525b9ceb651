//! An operator that maps deltas and values through a lattice morphism.
use vstd::prelude::*;
use std::task::Context;
use crate::func::Morphism;
use crate::lattice::Merge;
use crate::task::Poll;
use super::optrait::{Op, OpDelta, OpValue};

verus! {

#[verifier::reject_recursive_types(Lr)]
pub struct MorphOp<O: Op, Lr: Merge, F: Morphism<Inmerge = O::LatRepr, Outmerge = Lr>> {
    op: O,
    f: F,
}

impl<O: Op, Lr: Merge, F: Morphism<Inmerge = O::LatRepr, Outmerge = Lr>> MorphOp<O, Lr, F> {
    pub closed spec fn op_spec(&self) -> O {
        self.op
    }

    pub closed spec fn f_spec(&self) -> F {
        self.f
    }

    pub fn new(op: O, f: F) -> (r: Self)
        ensures
            r.op_spec() == op,
            r.f_spec() == f,
    {
        MorphOp { op, f }
    }
}

impl<O: Op, Lr: Merge, F: Morphism<Inmerge = O::LatRepr, Outmerge = Lr>> Op for MorphOp<O, Lr, F> {
    type LatRepr = Lr;
}

impl<O: OpDelta, Lr: Merge, F: Morphism<Inmerge = O::LatRepr, Outmerge = Lr>> OpDelta for MorphOp<
    O,
    Lr,
    F,
> {
    /// Each delta is mapped.
    open spec fn delta_polled(pre: Self, post: Self, out: Poll<Option<Lr::Domain>>) -> bool {
        &&& post.f_spec() == pre.f_spec()
        &&& exists|r: Poll<Option<<O::LatRepr as Merge>::Domain>>|
            #[trigger] O::delta_polled(pre.op_spec(), post.op_spec(), r) && match r {
                Poll::Ready(Some(d)) => out matches Poll::Ready(Some(e)) && Lr::lattice(e)
                    == pre.f_spec().map_spec(O::LatRepr::lattice(d)),
                Poll::Ready(None) => out == Poll::<Option<Lr::Domain>>::Ready(None),
                Poll::Pending => out is Pending,
            }
    }

    fn poll_delta(&mut self, ctx: &mut Context<'_>) -> (out: Poll<Option<Lr::Domain>>) {
        let ghost pre = *self;
        let r = self.op.poll_delta(ctx);
        let ghost rg = r;
        let out = match r {
            Poll::Ready(Some(delta)) => Poll::Ready(Some(self.f.call(delta))),
            Poll::Ready(None) => Poll::Ready(None),
            Poll::Pending => Poll::Pending,
        };
        assert(O::delta_polled(pre.op_spec(), self.op_spec(), rg));
        out
    }
}

impl<O: OpValue, Lr: Merge, F: Morphism<Inmerge = O::LatRepr, Outmerge = Lr>> OpValue for MorphOp<
    O,
    Lr,
    F,
> {
    /// The mapped value.
    open spec fn value_lattice(&self) -> Lr::Lattice {
        self.f_spec().map_spec(self.op_spec().value_lattice())
    }

    fn get_value(&self) -> (r: Lr::Domain) {
        let value = self.op.get_value();
        self.f.call(value)
    }
}

} // verus!
