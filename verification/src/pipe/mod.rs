//! Synchronous pipes: items are merged into a pipe, which hands them on
//! downstream, possibly changed. Pipes are built back to front: a pipe
//! constructor takes the pipe that follows it.
use vstd::prelude::*;

pub mod builder;
pub mod filter_pipe;
pub mod flatten_pipe;
pub mod map_pipe;
pub mod merge_pipe;
pub mod split_pipe;
pub mod tank;

pub use filter_pipe::FilterPipe;
pub use flatten_pipe::FlattenPipe;
pub use map_pipe::MapPipe;
pub use merge_pipe::MergePipe;
pub use split_pipe::SplitPipe;
pub use tank::Tank;

verus! {

/// Something which can have items merged into it.
pub trait Pipe: Sized {
    type Item;

    /// Merging `input` may take `pre` to `post`.
    spec fn merged(pre: Self, input: Self::Item, post: Self) -> bool;

    fn merge_in(&mut self, input: Self::Item)
        ensures
            Self::merged(*old(self), input, *final(self)),
    ;
}

/// A pipe, or chain of pipes, still missing the pipe it feeds.
pub trait Unconnected: Sized {
    type ThisPipe;
    type NextPipe;

    /// Connecting `self` to `next` may give `r`.
    spec fn connected(self, next: Self::NextPipe, r: Self::ThisPipe) -> bool;

    fn connect(self, next_pipe: Self::NextPipe) -> (r: Self::ThisPipe)
        ensures
            self.connected(next_pipe, r),
    ;
}

/// A pipe built from the pipe it feeds and some arguments.
pub trait PipeConstructor: Sized {
    type Pipe;
    type Args;

    /// The arguments this pipe can be built with.
    spec fn args_ok(args: Self::Args) -> bool;

    /// `r` is the pipe built from `pipe` and `args`.
    spec fn constructed(pipe: Self::Pipe, args: Self::Args, r: Self) -> bool;

    fn new(pipe: Self::Pipe, args: Self::Args) -> (r: Self)
        requires
            Self::args_ok(args),
        ensures
            Self::constructed(pipe, args, r),
    ;
}

/// The arguments of a pipe, waiting for the pipe it will feed.
#[verifier::reject_recursive_types(C)]
pub struct UnconnectedPipe<C: PipeConstructor> {
    args: C::Args,
}

impl<C: PipeConstructor> UnconnectedPipe<C> {
    pub closed spec fn args_spec(&self) -> C::Args {
        self.args
    }

    pub fn new(args: C::Args) -> (r: Self)
        requires
            C::args_ok(args),
        ensures
            r.args_spec() == args,
    {
        UnconnectedPipe { args }
    }

    #[verifier::type_invariant]
    spec fn args_valid(self) -> bool {
        C::args_ok(self.args)
    }
}

impl<C: PipeConstructor> Unconnected for UnconnectedPipe<C> {
    type ThisPipe = C;
    type NextPipe = C::Pipe;

    /// The pipe is built from the next pipe and the arguments.
    open spec fn connected(self, next: C::Pipe, r: C) -> bool {
        C::constructed(next, self.args_spec(), r)
    }

    fn connect(self, next_pipe: C::Pipe) -> (r: C) {
        proof {
            use_type_invariant(&self);
        }
        C::new(next_pipe, self.args)
    }
}

/// The arguments of a pipe, to be built once its next pipe is known.
#[verifier::reject_recursive_types(C)]
pub struct PipeConstructorStruct<C: PipeConstructor> {
    args: C::Args,
}

impl<C: PipeConstructor> PipeConstructorStruct<C> {
    pub closed spec fn args_spec(&self) -> C::Args {
        self.args
    }

    #[verifier::type_invariant]
    spec fn args_valid(self) -> bool {
        C::args_ok(self.args)
    }

    pub fn new(args: C::Args) -> (r: Self)
        requires
            C::args_ok(args),
        ensures
            r.args_spec() == args,
    {
        PipeConstructorStruct { args }
    }

    /// Builds the pipe, feeding `pipe`.
    pub fn construct(self, pipe: C::Pipe) -> (r: C)
        ensures
            C::constructed(pipe, self.args_spec(), r),
    {
        proof {
            use_type_invariant(&self);
        }
        C::new(pipe, self.args)
    }
}

} // verus!
