//! A lattice operator whose accumulated value is shared by all its clones.
use vstd::prelude::*;
use std::cell::RefCell;
use std::collections::HashMap;
use std::rc::Rc;
use std::task::{Context, Waker};
use crate::lattice::{Merge, join_fold};
use crate::task::{Poll, context_waker, refcell_new, refcell_replace, refcell_is_free, waker_clone, waker_wake_by_ref};
use super::{PullOp, MovePullOp};

verus! {

/// Pulls deltas from a shared upstream operator and merges them into a
/// shared value. Every pull yields a handle to that value, even once
/// upstream has ended. Each clone is a handle of its own, with an id: a
/// pull that brings a new delta wakes the tasks of the other handles, and
/// registers the waker of its own task.
///
/// The shared parts live in cells whose contents are not tracked; while a
/// pull runs they are moved out and back in, so a pull never finds them
/// borrowed.
#[verifier::reject_recursive_types(O)]
#[verifier::reject_recursive_types(F)]
pub struct LatticeOp2<O: MovePullOp, F: Merge<Domain = O::Domain>> {
    op: Rc<RefCell<Option<O>>>,
    state: Rc<RefCell<F::Domain>>,
    spare: F::Domain,
    backlog: Vec<F::Domain>,
    id_counter: Rc<RefCell<usize>>,
    id: usize,
    wakers: Rc<RefCell<HashMap<usize, Waker>>>,
}

impl<O: MovePullOp, F: Merge<Domain = O::Domain>> LatticeOp2<O, F> {
    /// The shared value.
    pub closed spec fn state_spec(&self) -> Rc<RefCell<O::Domain>> {
        self.state
    }

    /// The id of this handle.
    pub closed spec fn id_spec(&self) -> usize {
        self.id
    }

    /// The deltas this handle pulled but could not merge yet, because a
    /// caller was holding a borrow of the shared value.
    pub closed spec fn backlog_spec(&self) -> Seq<F::Domain> {
        self.backlog@
    }

    /// The first handle, with id 0; the value starts at `bottom`.
    pub fn new(op: O, bottom: F::Domain) -> (r: Self)
        ensures
            r.id_spec() == 0,
            r.backlog_spec() == Seq::<F::Domain>::empty(),
    {
        let spare = F::copy(&bottom);
        LatticeOp2 {
            op: Rc::new(refcell_new(Some(op))),
            state: Rc::new(refcell_new(bottom)),
            spare,
            backlog: Vec::new(),
            id_counter: Rc::new(refcell_new(0)),
            id: 0,
            wakers: Rc::new(refcell_new(HashMap::new())),
        }
    }

    /// Pulls once from the shared upstream operator.
    fn pull_upstream(&self, ctx: &mut Context<'_>) -> Poll<Option<O::Domain>> {
        let cell: &RefCell<Option<O>> = &*self.op;
        match refcell_replace(cell, None) {
            Some(op) => {
                let mut op = op;
                let polled = op.poll_next(ctx);
                let _ = refcell_replace(cell, Some(op));
                polled
            },
            None => Poll::Pending,
        }
    }

    /// Merges `delta`, with any deltas held back before, into the shared
    /// value. While a caller holds a borrow of that value, nothing is merged
    /// and the delta is held back for the next pull: no delta is lost.
    fn merge_shared(&mut self, delta: F::Domain)
        ensures
            final(self).state_spec() == old(self).state_spec(),
            final(self).id_spec() == old(self).id_spec(),
            final(self).backlog_spec() == old(self).backlog_spec().push(delta)
                || final(self).backlog_spec() == Seq::<F::Domain>::empty(),
    {
        self.backlog.push(delta);
        self.flush_backlog();
    }

    /// Merges the held-back deltas into the shared value, unless a caller
    /// holds a borrow of it.
    fn flush_backlog(&mut self)
        ensures
            final(self).state_spec() == old(self).state_spec(),
            final(self).id_spec() == old(self).id_spec(),
            final(self).backlog_spec() == old(self).backlog_spec()
                || final(self).backlog_spec() == Seq::<F::Domain>::empty(),
    {
        let cell: &RefCell<F::Domain> = &*self.state;
        if refcell_is_free(cell) {
            let placeholder = F::copy(&self.spare);
            let mut cur = refcell_replace(cell, placeholder);
            merge_backlog::<F>(&mut cur, &mut self.backlog);
            self.spare = refcell_replace(cell, cur);
        }
    }

    /// Wakes the tasks of the other handles, and registers `waker` as the
    /// one of this handle.
    fn wake_others_and_register(&self, woken: bool, waker: Waker) {
        let cell: &RefCell<HashMap<usize, Waker>> = &*self.wakers;
        let mut wakers = refcell_replace(cell, HashMap::new());
        if woken {
            for entry in wakers.iter() {
                let (id, w) = entry;
                if *id != self.id {
                    waker_wake_by_ref(w);
                }
            }
        }
        wakers.insert(self.id, waker);
        let _ = refcell_replace(cell, wakers);
    }
}

/// Merges every held-back delta of `backlog`, oldest first, into `cur`,
/// which leaves the backlog empty: `cur` moves to the join of its element
/// with every delta.
pub fn merge_backlog<F: Merge>(cur: &mut F::Domain, backlog: &mut Vec<F::Domain>)
    ensures
        F::lattice(*final(cur)) == join_fold::<F>(F::lattice(*old(cur)), old(backlog)@),
        final(backlog)@.len() == 0,
{
    let ghost start = F::lattice(*cur);
    let ghost items = backlog@;
    let ghost mut k: int = 0;
    while backlog.len() > 0
        invariant
            0 <= k <= items.len(),
            backlog@ == items.skip(k),
            F::lattice(*cur) == join_fold::<F>(start, items.take(k)),
        decreases backlog.len(),
    {
        let d = backlog.remove(0);
        F::merge_in(cur, d);
        proof {
            assert(d == items[k]);
            assert(items.take(k + 1).drop_last() =~= items.take(k));
            assert(items.take(k + 1).last() == items[k]);
            k = k + 1;
            assert(backlog@ =~= items.skip(k));
        }
    }
    assert(items.take(k) =~= items);
}

impl<O: MovePullOp, F: Merge<Domain = O::Domain>> PullOp for LatticeOp2<O, F> {
    type Domain = Rc<RefCell<O::Domain>>;
}

impl<O: MovePullOp, F: Merge<Domain = O::Domain>> MovePullOp for LatticeOp2<O, F> {
    /// Always ready with the shared value; the handle keeps its id and
    /// value.
    open spec fn polled(pre: Self, post: Self, out: Poll<Option<Rc<RefCell<O::Domain>>>>) -> bool {
        &&& post.id_spec() == pre.id_spec()
        &&& post.state_spec() == pre.state_spec()
        &&& out == Poll::Ready(Some(pre.state_spec()))
    }

    fn poll_next(&mut self, ctx: &mut Context<'_>) -> (out: Poll<Option<Rc<RefCell<O::Domain>>>>) {
        let polled = self.pull_upstream(ctx);
        let woken = match polled {
            Poll::Ready(Some(delta)) => {
                self.merge_shared(delta);
                true
            },
            _ => {
                if self.backlog.len() > 0 {
                    self.flush_backlog();
                }
                false
            },
        };
        let waker = waker_clone(context_waker(ctx));
        self.wake_others_and_register(woken, waker);
        Poll::Ready(Some(Rc::clone(&self.state)))
    }
}

impl<O: MovePullOp, F: Merge<Domain = O::Domain>> Clone for LatticeOp2<O, F> {
    /// Another handle on the same upstream and value, with the next id.
    fn clone(&self) -> (r: Self)
        ensures
            r.state_spec() == self.state_spec(),
    {
        let counter: &RefCell<usize> = &*self.id_counter;
        let last = refcell_replace(counter, 0);
        let id = last.wrapping_add(1);
        let _ = refcell_replace(counter, id);
        LatticeOp2 {
            op: Rc::clone(&self.op),
            state: Rc::clone(&self.state),
            spare: F::copy(&self.spare),
            backlog: Vec::new(),
            id_counter: Rc::clone(&self.id_counter),
            id,
            wakers: Rc::clone(&self.wakers),
        }
    }
}

} // verus!
