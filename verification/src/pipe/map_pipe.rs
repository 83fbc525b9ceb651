//! A pipe which maps its items.
use vstd::prelude::*;
use crate::func::TotalFn;
use super::{Pipe, PipeConstructor};

verus! {

/// Maps each item through `mapper` and merges the result into the next
/// pipe.
#[verifier::reject_recursive_types(T)]
pub struct MapPipe<T, F: Fn(T) -> P::Item, P: Pipe> {
    pipe: P,
    mapper: TotalFn<T, P::Item, F>,
}

impl<T, F: Fn(T) -> P::Item, P: Pipe> MapPipe<T, F, P> {
    pub closed spec fn pipe_spec(&self) -> P {
        self.pipe
    }

    pub closed spec fn mapper_spec(&self) -> F {
        self.mapper.func()
    }

    /// `mapper` must accept every item.
    pub fn new(pipe: P, mapper: F) -> (r: Self)
        requires
            forall|x: T| call_requires(mapper, (x,)),
        ensures
            r.pipe_spec() == pipe,
            r.mapper_spec() == mapper,
    {
        MapPipe { pipe, mapper: TotalFn::new(mapper) }
    }

    /// The pipe this one feeds.
    pub fn pipe(&self) -> (r: &P)
        ensures
            *r == self.pipe_spec(),
    {
        &self.pipe
    }
}

impl<T, F: Fn(T) -> P::Item, P: Pipe> Pipe for MapPipe<T, F, P> {
    type Item = T;

    /// The mapped item is merged into the next pipe.
    open spec fn merged(pre: Self, input: T, post: Self) -> bool {
        &&& post.mapper_spec() == pre.mapper_spec()
        &&& exists|y: P::Item|
            call_ensures(pre.mapper_spec(), (input,), y) && #[trigger] P::merged(
                pre.pipe_spec(),
                y,
                post.pipe_spec(),
            )
    }

    fn merge_in(&mut self, input: T) {
        let ghost pre = *self;
        let y = self.mapper.call(input);
        let ghost yg = y;
        self.pipe.merge_in(y);
        assert(P::merged(pre.pipe_spec(), yg, self.pipe_spec()));
    }
}

impl<T, F: Fn(T) -> P::Item, P: Pipe> PipeConstructor for MapPipe<T, F, P> {
    type Pipe = P;
    type Args = F;

    open spec fn args_ok(args: F) -> bool {
        forall|x: T| call_requires(args, (x,))
    }

    open spec fn constructed(pipe: P, args: F, r: Self) -> bool {
        r.pipe_spec() == pipe && r.mapper_spec() == args
    }

    fn new(pipe: P, args: F) -> (r: Self) {
        MapPipe::new(pipe, args)
    }
}

} // verus!
