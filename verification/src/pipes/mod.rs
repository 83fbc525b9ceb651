//! Push-only pipelines. An operator takes items by reference or by value,
//! through a shared or an exclusive borrow:
//!
//! ```text
//! SharedRefOp <--- SharedMoveOp
//!      ^                 ^
//!      |                 |
//!  ExclRefOp  <---  ExclMoveOp
//! ```
//!
//! Each push is specified by a relation between the operator before and
//! after it, the item, and the future the push returned.
use vstd::prelude::*;
use std::future::Future;

pub mod casts;
pub mod impls;
pub mod chain;

verus! {

/// A function object with a specification of its result.
pub trait UnaryFn<I> {
    type Output;

    spec fn call_spec(&self, input: I) -> Self::Output;

    fn call(&self, input: I) -> (r: Self::Output)
        ensures
            r == self.call_spec(input),
    ;
}

pub trait Op {
    type Item;
}

/// Pushing by reference through a shared borrow.
pub trait SharedRefOp: Op + Sized {
    type Feedback: Future;

    /// Pushing `item` into `op` may return `fb`.
    spec fn shared_ref_pushed(op: Self, item: Self::Item, fb: Self::Feedback) -> bool;

    fn push(&self, item: &Self::Item) -> (fb: Self::Feedback)
        ensures
            Self::shared_ref_pushed(*self, *item, fb),
    ;
}

/// Pushing by reference through an exclusive borrow.
pub trait ExclRefOp: Op + Sized {
    type Feedback: Future;

    /// Pushing `item` may take `pre` to `post` and return `fb`.
    spec fn excl_ref_pushed(pre: Self, item: Self::Item, post: Self, fb: Self::Feedback) -> bool;

    fn push(&mut self, item: &Self::Item) -> (fb: Self::Feedback)
        ensures
            Self::excl_ref_pushed(*old(self), *item, *final(self), fb),
    ;
}

/// Pushing by value through a shared borrow.
pub trait SharedMoveOp: Op + Sized {
    type Feedback: Future;

    spec fn shared_move_pushed(op: Self, item: Self::Item, fb: Self::Feedback) -> bool;

    fn push(&self, item: Self::Item) -> (fb: Self::Feedback)
        ensures
            Self::shared_move_pushed(*self, item, fb),
    ;
}

/// Pushing by value through an exclusive borrow.
pub trait ExclMoveOp: Op + Sized {
    type Feedback: Future;

    spec fn excl_move_pushed(pre: Self, item: Self::Item, post: Self, fb: Self::Feedback) -> bool;

    fn push(&mut self, item: Self::Item) -> (fb: Self::Feedback)
        ensures
            Self::excl_move_pushed(*old(self), item, *final(self), fb),
    ;
}

} // verus!
