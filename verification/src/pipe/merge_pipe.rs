//! A pipe that several inputs share.
use vstd::prelude::*;
use std::cell::RefCell;
use std::rc::Rc;
use crate::task::{refcell_new, refcell_replace};
use super::{Pipe, PipeConstructor};

verus! {

/// A pipe which can be cloned, so that several inputs merge into the one
/// pipe it holds. The shared pipe lives in a cell whose contents are not
/// tracked, so merging says nothing of it.
#[verifier::reject_recursive_types(P)]
pub struct MergePipe<P: Pipe> {
    pipe: Rc<RefCell<Option<P>>>,
}

impl<P: Pipe> MergePipe<P> {
    pub fn new(pipe: P) -> (r: Self) {
        MergePipe { pipe: Rc::new(refcell_new(Some(pipe))) }
    }
}

impl<P: Pipe> Pipe for MergePipe<P> {
    type Item = P::Item;

    /// The handle stays the same; the shared pipe takes the item.
    open spec fn merged(pre: Self, input: P::Item, post: Self) -> bool {
        post == pre
    }

    fn merge_in(&mut self, input: P::Item) {
        let cell: &RefCell<Option<P>> = &*self.pipe;
        let mut slot = refcell_replace(cell, None);
        merge_into_slot(&mut slot, input);
        let _ = refcell_replace(cell, slot);
    }
}

/// Merges `input` into the pipe held in `slot`: the pipe moves as a merge
/// of `input` moves it. An empty slot, which a merge that re-enters the
/// shared pipe finds, stays empty.
pub fn merge_into_slot<P: Pipe>(slot: &mut Option<P>, input: P::Item)
    ensures
        match *old(slot) {
            Some(p) => final(slot).is_some() && P::merged(p, input, final(slot).unwrap()),
            None => final(slot).is_none(),
        },
{
    match slot.take() {
        Some(p) => {
            let mut p = p;
            p.merge_in(input);
            *slot = Some(p);
        },
        None => {},
    }
}

impl<P: Pipe> PipeConstructor for MergePipe<P> {
    type Pipe = P;
    type Args = ();

    open spec fn args_ok(args: ()) -> bool {
        true
    }

    /// The pipe is moved into a new shared cell, which is not tracked.
    open spec fn constructed(pipe: P, args: (), r: Self) -> bool {
        true
    }

    fn new(pipe: P, _args: ()) -> (r: Self) {
        MergePipe::new(pipe)
    }
}

impl<P: Pipe> Clone for MergePipe<P> {
    /// Another handle to the same shared pipe.
    fn clone(&self) -> (r: Self)
        ensures
            r == *self,
    {
        MergePipe { pipe: Rc::clone(&self.pipe) }
    }
}

} // verus!
