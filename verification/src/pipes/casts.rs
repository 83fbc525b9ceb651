//! Adapters along the arrows of the operator lattice: an operator of one
//! kind used as one of a weaker kind.
use vstd::prelude::*;
use super::{Op, SharedRefOp, ExclRefOp, SharedMoveOp, ExclMoveOp};

verus! {

/// A shared by-reference operator taking items by value.
pub struct SharedMoveFromSharedRefPipe<P: SharedRefOp>(pub P);

impl<P: SharedRefOp> Op for SharedMoveFromSharedRefPipe<P> {
    type Item = P::Item;
}

impl<P: SharedRefOp> SharedMoveOp for SharedMoveFromSharedRefPipe<P> {
    type Feedback = P::Feedback;

    open spec fn shared_move_pushed(op: Self, item: P::Item, fb: P::Feedback) -> bool {
        P::shared_ref_pushed(op.0, item, fb)
    }

    fn push(&self, item: P::Item) -> (fb: P::Feedback) {
        self.0.push(&item)
    }
}

/// A shared by-reference operator used through an exclusive borrow.
pub struct ExclRefFromSharedRefPipe<P: SharedRefOp>(pub P);

impl<P: SharedRefOp> Op for ExclRefFromSharedRefPipe<P> {
    type Item = P::Item;
}

impl<P: SharedRefOp> ExclRefOp for ExclRefFromSharedRefPipe<P> {
    type Feedback = P::Feedback;

    open spec fn excl_ref_pushed(pre: Self, item: P::Item, post: Self, fb: P::Feedback) -> bool {
        post == pre && P::shared_ref_pushed(pre.0, item, fb)
    }

    fn push(&mut self, item: &P::Item) -> (fb: P::Feedback) {
        self.0.push(item)
    }
}

/// An exclusive by-reference operator taking items by value.
pub struct ExclMovePipeFromExclRefPipe<P: ExclRefOp>(pub P);

impl<P: ExclRefOp> Op for ExclMovePipeFromExclRefPipe<P> {
    type Item = P::Item;
}

impl<P: ExclRefOp> ExclMoveOp for ExclMovePipeFromExclRefPipe<P> {
    type Feedback = P::Feedback;

    open spec fn excl_move_pushed(pre: Self, item: P::Item, post: Self, fb: P::Feedback) -> bool {
        P::excl_ref_pushed(pre.0, item, post.0, fb)
    }

    fn push(&mut self, item: P::Item) -> (fb: P::Feedback) {
        self.0.push(&item)
    }
}

/// A shared by-value operator used through an exclusive borrow.
pub struct ExclMovePipeFromSharedMovePipe<P: SharedMoveOp>(pub P);

impl<P: SharedMoveOp> Op for ExclMovePipeFromSharedMovePipe<P> {
    type Item = P::Item;
}

impl<P: SharedMoveOp> ExclMoveOp for ExclMovePipeFromSharedMovePipe<P> {
    type Feedback = P::Feedback;

    open spec fn excl_move_pushed(pre: Self, item: P::Item, post: Self, fb: P::Feedback) -> bool {
        post == pre && P::shared_move_pushed(pre.0, item, fb)
    }

    fn push(&mut self, item: P::Item) -> (fb: P::Feedback) {
        self.0.push(item)
    }
}

} // verus!
