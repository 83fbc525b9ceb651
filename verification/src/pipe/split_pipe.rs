//! A pipe which sends each item to one of two pipes.
use vstd::prelude::*;
use crate::func::TotalRefFn;
use super::Pipe;

verus! {

/// Merges each item into `pipe_l` when `splitter` holds of it, else into
/// `pipe_r`.
pub struct SplitPipe<L: Pipe, R: Pipe<Item = L::Item>, F: Fn(&L::Item) -> bool> {
    pipe_l: L,
    pipe_r: R,
    splitter: TotalRefFn<L::Item, bool, F>,
}

impl<L: Pipe, R: Pipe<Item = L::Item>, F: Fn(&L::Item) -> bool> SplitPipe<L, R, F> {
    pub closed spec fn pipe_l_spec(&self) -> L {
        self.pipe_l
    }

    pub closed spec fn pipe_r_spec(&self) -> R {
        self.pipe_r
    }

    pub closed spec fn splitter_spec(&self) -> F {
        self.splitter.func()
    }

    /// `splitter` must accept every item.
    pub fn new(pipe_l: L, pipe_r: R, splitter: F) -> (r: Self)
        requires
            forall|x: &L::Item| call_requires(splitter, (x,)),
        ensures
            r.pipe_l_spec() == pipe_l,
            r.pipe_r_spec() == pipe_r,
            r.splitter_spec() == splitter,
    {
        SplitPipe { pipe_l, pipe_r, splitter: TotalRefFn::new(splitter) }
    }

    /// The pipe taking the items the splitter holds of.
    pub fn pipe_l(&self) -> (r: &L)
        ensures
            *r == self.pipe_l_spec(),
    {
        &self.pipe_l
    }

    /// The pipe taking the other items.
    pub fn pipe_r(&self) -> (r: &R)
        ensures
            *r == self.pipe_r_spec(),
    {
        &self.pipe_r
    }
}

impl<L: Pipe, R: Pipe<Item = L::Item>, F: Fn(&L::Item) -> bool> Pipe for SplitPipe<L, R, F> {
    type Item = L::Item;

    /// The item goes to exactly one side; the other is unchanged.
    open spec fn merged(pre: Self, input: L::Item, post: Self) -> bool {
        &&& post.splitter_spec() == pre.splitter_spec()
        &&& exists|left: bool|
            #[trigger] call_ensures(pre.splitter_spec(), (&input,), left) && if left {
                L::merged(pre.pipe_l_spec(), input, post.pipe_l_spec()) && post.pipe_r_spec()
                    == pre.pipe_r_spec()
            } else {
                R::merged(pre.pipe_r_spec(), input, post.pipe_r_spec()) && post.pipe_l_spec()
                    == pre.pipe_l_spec()
            }
    }

    fn merge_in(&mut self, input: L::Item) {
        let left = self.splitter.call(&input);
        if left {
            self.pipe_l.merge_in(input);
        } else {
            self.pipe_r.merge_in(input);
        }
    }
}

} // verus!
