//! A pipe which drops the items a predicate rejects.
use vstd::prelude::*;
use crate::func::TotalRefFn;
use super::{Pipe, PipeConstructor};

verus! {

/// Merges into the next pipe the items for which `filter` holds.
pub struct FilterPipe<F: Fn(&P::Item) -> bool, P: Pipe> {
    pipe: P,
    filter: TotalRefFn<P::Item, bool, F>,
}

impl<F: Fn(&P::Item) -> bool, P: Pipe> FilterPipe<F, P> {
    pub closed spec fn pipe_spec(&self) -> P {
        self.pipe
    }

    pub closed spec fn filter_spec(&self) -> F {
        self.filter.func()
    }

    /// `filter` must accept every item.
    pub fn new(pipe: P, filter: F) -> (r: Self)
        requires
            forall|x: &P::Item| call_requires(filter, (x,)),
        ensures
            r.pipe_spec() == pipe,
            r.filter_spec() == filter,
    {
        FilterPipe { pipe, filter: TotalRefFn::new(filter) }
    }

    /// The pipe this one feeds.
    pub fn pipe(&self) -> (r: &P)
        ensures
            *r == self.pipe_spec(),
    {
        &self.pipe
    }
}

impl<F: Fn(&P::Item) -> bool, P: Pipe> Pipe for FilterPipe<F, P> {
    type Item = P::Item;

    /// A kept item is merged into the next pipe; a dropped one changes
    /// nothing.
    open spec fn merged(pre: Self, input: P::Item, post: Self) -> bool {
        &&& post.filter_spec() == pre.filter_spec()
        &&& exists|keep: bool|
            #[trigger] call_ensures(pre.filter_spec(), (&input,), keep) && if keep {
                P::merged(pre.pipe_spec(), input, post.pipe_spec())
            } else {
                post.pipe_spec() == pre.pipe_spec()
            }
    }

    fn merge_in(&mut self, input: P::Item) {
        let ghost pre = *self;
        let keep = self.filter.call(&input);
        assert(call_ensures(pre.filter_spec(), (&input,), keep));
        if keep {
            self.pipe.merge_in(input);
        }
    }
}

impl<F: Fn(&P::Item) -> bool, P: Pipe> PipeConstructor for FilterPipe<F, P> {
    type Pipe = P;
    type Args = F;

    open spec fn args_ok(args: F) -> bool {
        forall|x: &P::Item| call_requires(args, (x,))
    }

    open spec fn constructed(pipe: P, args: F, r: Self) -> bool {
        r.pipe_spec() == pipe && r.filter_spec() == args
    }

    fn new(pipe: P, args: F) -> (r: Self) {
        FilterPipe::new(pipe, args)
    }
}

} // verus!
