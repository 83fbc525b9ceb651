//! Splitting one operator into several: each split sees every delta, and a
//! split waits while another split still holds a delta.
use vstd::prelude::*;
use std::cell::RefCell;
use std::task::{Context, Waker};
use crate::lattice::Merge;
use crate::task::{Poll, context_waker, waker_clone, waker_wake_by_ref, refcell_new, refcell_replace};
use super::optrait::{Op, OpDelta, OpValue};

verus! {

/// The operator being split, with the waker and the delta handed to each
/// split.
#[verifier::reject_recursive_types(O)]
pub struct SplitCore<O: OpValue> {
    op: O,
    wakers: Vec<Option<Waker>>,
    deltas: Vec<Option<<O::LatRepr as Merge>::Domain>>,
}

impl<O: OpValue> SplitCore<O> {
    pub closed spec fn op_spec(&self) -> O {
        self.op
    }

    /// Which splits have registered a waker.
    pub closed spec fn registered(&self) -> Seq<bool> {
        self.wakers@.map_values(|w: Option<Waker>| w is Some)
    }

    /// The delta handed to each split, if any.
    pub closed spec fn deltas_spec(&self) -> Seq<Option<<O::LatRepr as Merge>::Domain>> {
        self.deltas@
    }

    pub closed spec fn wf(&self) -> bool {
        self.wakers.len() == self.deltas.len()
    }

    /// The number of splits, if the core is well formed.
    pub fn checked_len(&self) -> (r: Option<usize>)
        ensures
            r matches Some(n) ==> self.wf() && n == self.deltas_spec().len(),
            r is None ==> !self.wf(),
    {
        if self.wakers.len() == self.deltas.len() {
            Some(self.deltas.len())
        } else {
            None
        }
    }

    /// `op` with no split yet.
    pub fn new(op: O) -> (r: Self)
        ensures
            r.wf(),
            r.op_spec() == op,
            r.deltas_spec().len() == 0,
    {
        SplitCore { op, wakers: Vec::new(), deltas: Vec::new() }
    }

    /// Adds a split that has no waker and no delta; its index is the
    /// number of splits before.
    pub fn add(&mut self) -> (index: usize)
        requires
            old(self).wf(),
            old(self).deltas_spec().len() < usize::MAX,
        ensures
            final(self).wf(),
            index == old(self).deltas_spec().len(),
            final(self).op_spec() == old(self).op_spec(),
            final(self).deltas_spec() == old(self).deltas_spec().push(None),
            final(self).registered() == old(self).registered().push(false),
    {
        let index = self.deltas.len();
        self.wakers.push(None);
        self.deltas.push(None);
        proof {
            assert(self.registered() =~= old(self).registered().push(false));
        }
        index
    }
}

impl<O: OpValue> SplitCore<O> {
    /// Whether split `index` holds a delta.
    pub fn holds_delta(&self, index: usize) -> (r: bool)
        requires
            index < self.deltas_spec().len(),
        ensures
            r == self.deltas_spec()[index as int] is Some,
    {
        self.deltas[index].is_some()
    }
}

/// Some split other than `index` still holds a delta.
pub open spec fn other_holds<D>(deltas: Seq<Option<D>>, index: int) -> bool {
    exists|i: int| 0 <= i < deltas.len() && i != index && #[trigger] deltas[i] is Some
}

impl<O: OpValue + OpDelta> SplitCore<O> {
    /// One poll of split `index`. While another split still holds a delta,
    /// this split waits (and wakes that split). Otherwise the operator is
    /// polled, and a delta is handed, as a copy, to every split, waking
    /// them. A split that still holds a delta cannot take another one, so
    /// where it does, the operator must not be able to yield a delta.
    pub fn poll_split(&mut self, index: usize, ctx: &mut Context<'_>) -> (out: Poll<
        Option<<O::LatRepr as Merge>::Domain>,
    >)
        requires
            old(self).wf(),
            index < old(self).deltas_spec().len(),
            old(self).deltas_spec()[index as int] is Some ==> forall|post: O, d: <O::LatRepr as Merge>::Domain|
                !#[trigger] O::delta_polled(old(self).op_spec(), post, Poll::Ready(Some(d))),
        ensures
            final(self).wf(),
            final(self).deltas_spec().len() == old(self).deltas_spec().len(),
            if other_holds(old(self).deltas_spec(), index as int) {
                &&& out is Pending
                &&& final(self).op_spec() == old(self).op_spec()
                &&& final(self).deltas_spec() == old(self).deltas_spec()
            } else {
                exists|r: Poll<Option<<O::LatRepr as Merge>::Domain>>|
                    #[trigger] O::delta_polled(old(self).op_spec(), final(self).op_spec(), r) && out
                        == r && match r {
                        Poll::Ready(Some(d)) => {
                            &&& forall|j: int|
                                0 <= j < final(self).deltas_spec().len() ==> (
                                #[trigger] final(self).deltas_spec()[j] matches Some(e)
                                    && O::LatRepr::copy_of(d, e))
                            &&& forall|j: int|
                                0 <= j < final(self).registered().len() ==> !(
                                #[trigger] final(self).registered()[j])
                        },
                        _ => {
                            &&& final(self).deltas_spec() == old(self).deltas_spec()
                            &&& final(self).registered()[index as int]
                        },
                    }
            },
    {
        let ghost pre = *self;
        let n = self.deltas.len();
        let mut i: usize = 0;
        while i < n
            invariant
                n == self.deltas.len(),
                self.wakers.len() == n,
                i <= n,
                self.deltas@ == pre.deltas@,
                self.op == pre.op,
                pre == *old(self),
                index < n,
                forall|j: int| 0 <= j < i && j != index ==> self.deltas@[j] is None,
                index < i ==> self.wakers@[index as int] is Some,
            decreases n - i,
        {
            if i == index {
                self.wakers[i] = Some(waker_clone(context_waker(ctx)));
            } else if self.deltas[i].is_some() {
                match &self.wakers[i] {
                    Some(waker) => waker_wake_by_ref(waker),
                    None => {},
                }
                proof {
                    assert(other_holds(pre.deltas@, index as int)) by {
                        assert(pre.deltas@[i as int] is Some);
                    }
                    assert(self.deltas@ == pre.deltas@);
                    assert(self.op == pre.op);
                }
                return Poll::Pending;
            }
            i = i + 1;
        }
        assert(!other_holds(pre.deltas@, index as int));
        let r = self.op.poll_delta(ctx);
        let ghost rg = r;
        let ghost op_after = self.op;
        let ghost deltas_after = self.deltas@;
        assert(self.wakers@[index as int] is Some);
        match r {
            Poll::Ready(Some(delta)) => {
                let mut j: usize = 0;
                while j < n
                    invariant
                        n == self.deltas.len(),
                        self.wakers.len() == n,
                        j <= n,
                        forall|k: int|
                            0 <= k < j ==> (#[trigger] self.deltas@[k] matches Some(e)
                                && O::LatRepr::copy_of(delta, e)),
                        forall|k: int| 0 <= k < j ==> #[trigger] self.wakers@[k] is None,
                        self.op == op_after,
                    decreases n - j,
                {
                    self.deltas[j] = Some(O::LatRepr::copy(&delta));
                    match &self.wakers[j] {
                        Some(waker) => waker_wake_by_ref(waker),
                        None => {},
                    }
                    self.wakers[j] = None;
                    j = j + 1;
                }
                assert(O::delta_polled(old(self).op_spec(), self.op_spec(), rg));
                assert forall|k: int| 0 <= k < self.registered().len() implies !(
                #[trigger] self.registered()[k]) by {
                    assert(self.wakers@[k] is None);
                }
                assert forall|k: int| 0 <= k < self.deltas_spec().len() implies (
                #[trigger] self.deltas_spec()[k] matches Some(e) && O::LatRepr::copy_of(delta, e)) by {
                    assert(self.deltas@[k] is Some);
                }
                Poll::Ready(Some(delta))
            },
            Poll::Ready(None) => {
                assert(O::delta_polled(old(self).op_spec(), self.op_spec(), rg));
                assert(self.deltas@ == pre.deltas@);
                assert(self.registered()[index as int]);
                Poll::Ready(None)
            },
            Poll::Pending => {
                assert(O::delta_polled(old(self).op_spec(), self.op_spec(), rg));
                assert(self.deltas@ == pre.deltas@);
                assert(self.registered()[index as int]);
                Poll::Pending
            },
        }
    }
}

/// An operator being split. The splits share it through a cell.
#[verifier::reject_recursive_types(O)]
pub struct Splitter<O: OpValue> {
    core: RefCell<Option<SplitCore<O>>>,
}

impl<O: OpValue> Splitter<O> {
    pub fn new(op: O) -> Self {
        Splitter { core: refcell_new(Some(SplitCore::new(op))) }
    }

    /// A new split of the operator.
    pub fn add_split(&self) -> (r: SplitOp<'_, O>)
        ensures
            r.splitter_spec() == self,
    {
        let mut index: usize = 0;
        match refcell_replace(&self.core, None) {
            Some(core) => {
                let mut core = core;
                match core.checked_len() {
                    Some(n) => {
                        if n < usize::MAX {
                            index = core.add();
                        }
                    },
                    None => {},
                }
                let _ = refcell_replace(&self.core, Some(core));
            },
            None => {},
        }
        SplitOp { splitter: self, index }
    }
}

/// One split of an operator.
#[verifier::reject_recursive_types(O)]
pub struct SplitOp<'s, O: OpValue> {
    splitter: &'s Splitter<O>,
    index: usize,
}

impl<'s, O: OpValue> SplitOp<'s, O> {
    pub closed spec fn splitter_spec(&self) -> &'s Splitter<O> {
        self.splitter
    }

    /// The value of the split operator, if it can be read now.
    pub fn get_value_opt(&self) -> (r: Option<<O::LatRepr as Merge>::Domain>)
        ensures
            r matches Some(v) ==> exists|o: O| #[trigger] o.value_lattice() == O::LatRepr::lattice(v),
    {
        match refcell_replace(&self.splitter.core, None) {
            Some(core) => {
                let value = core.op.get_value();
                let _ = refcell_replace(&self.splitter.core, Some(core));
                Some(value)
            },
            None => None,
        }
    }
}

impl<'s, O: OpValue> Op for SplitOp<'s, O> {
    type LatRepr = O::LatRepr;
}

impl<'s, O: OpValue + OpDelta> OpDelta for SplitOp<'s, O> {
    /// The shared state lives in a cell, which contracts do not track; what
    /// a split yields is pending, or an outcome of a poll of the split
    /// operator. A split that still holds a delta does not poll the
    /// operator, as a second delta could not be handed to it, and stays
    /// pending.
    open spec fn delta_polled(
        pre: Self,
        post: Self,
        out: Poll<Option<<O::LatRepr as Merge>::Domain>>,
    ) -> bool {
        &&& post == pre
        &&& (out is Pending || exists|a: O, b: O| #[trigger] O::delta_polled(a, b, out))
    }

    fn poll_delta(&mut self, ctx: &mut Context<'_>) -> (out: Poll<
        Option<<O::LatRepr as Merge>::Domain>,
    >) {
        match refcell_replace(&self.splitter.core, None) {
            Some(core) => {
                let mut core = core;
                let out = match core.checked_len() {
                    Some(n) => if self.index < n && !core.holds_delta(self.index) {
                        let ghost before = core.op_spec();
                        let r = core.poll_split(self.index, ctx);
                        assert(r is Pending || O::delta_polled(before, core.op_spec(), r));
                        r
                    } else {
                        Poll::Pending
                    },
                    None => Poll::Pending,
                };
                let _ = refcell_replace(&self.splitter.core, Some(core));
                out
            },
            None => Poll::Pending,
        }
    }
}

} // verus!
