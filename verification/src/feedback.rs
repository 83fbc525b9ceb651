//! The futures that pushes hand back, built with the `futures` crate. They
//! are opaque: a push is specified by what it does to the operators, and
//! its future only lets the caller await the work that was started.
use vstd::prelude::*;
use std::future::Future;
use std::pin::Pin;
use std::task::Context;
use crate::task::{box_pin, pin_get_mut, poll_boxed, std_poll_ready, std_poll_pending};
use futures::future::{Either, Join, JoinAll, OptionFuture};

verus! {

/// `futures::future::Join`, the future of two futures' outputs; opaque.
#[verifier::external_type_specification]
#[verifier::external_body]
#[verifier::reject_recursive_types(Fut1)]
#[verifier::reject_recursive_types(Fut2)]
pub struct ExJoin<Fut1: Future, Fut2: Future>(Join<Fut1, Fut2>);

/// `futures::future::JoinAll`, the future of all the outputs of a list of
/// futures; opaque.
#[verifier::external_type_specification]
#[verifier::external_body]
#[verifier::reject_recursive_types(F)]
pub struct ExJoinAll<F: Future>(JoinAll<F>);

/// `futures::future::Either`, a future that is one of two; opaque.
#[verifier::external_type_specification]
#[verifier::external_body]
#[verifier::reject_recursive_types(A)]
#[verifier::reject_recursive_types(B)]
pub struct ExEither<A, B>(Either<A, B>);

/// `futures::future::OptionFuture`, a future that may be absent; opaque.
#[verifier::external_type_specification]
#[verifier::external_body]
#[verifier::reject_recursive_types(F)]
pub struct ExOptionFuture<F>(OptionFuture<F>);

/// `futures::future::join`: a future of both futures' outputs.
#[verifier::external_body]
pub(crate) fn join2<A: Future, B: Future>(a: A, b: B) -> Join<A, B> {
    futures::future::join(a, b)
}

/// `futures::future::join_all`: a future of all the futures' outputs, in
/// the order of the vector.
#[verifier::external_body]
pub(crate) fn join_all_vec<F: Future>(futs: Vec<F>) -> JoinAll<F> {
    futures::future::join_all(futs)
}

/// The future of all the outputs of a list of futures, in the order of the
/// list, together with the futures it joins.
#[verifier::reject_recursive_types(F)]
pub struct Joined<F: Future> {
    all: Pin<Box<JoinAll<F>>>,
    parts: Ghost<Seq<F>>,
}

impl<F: Future> Joined<F> {
    /// The futures joined, in the order their outputs come.
    pub closed spec fn parts(&self) -> Seq<F> {
        self.parts@
    }
}

/// Joins `futs`: a future of all their outputs, in the order of the vector.
pub fn join_feedbacks<F: Future>(futs: Vec<F>) -> (r: Joined<F>)
    ensures
        r.parts() == futs@,
{
    let parts = Ghost(futs@);
    Joined { all: box_pin(join_all_vec(futs)), parts }
}

impl<F: Future> Unpin for Joined<F> {}

impl<F: Future> Future for Joined<F> {
    type Output = Vec<F::Output>;

    fn poll(self: Pin<&mut Self>, ctx: &mut Context<'_>) -> std::task::Poll<Vec<F::Output>> {
        let this = pin_get_mut(self);
        match poll_boxed(&mut this.all, ctx) {
            Some(outs) => std_poll_ready(outs),
            None => std_poll_pending(),
        }
    }
}

/// The variant `Either::Left`.
#[verifier::external_body]
pub(crate) fn either_left<A, B>(a: A) -> Either<A, B> {
    Either::Left(a)
}

/// The variant `Either::Right`.
#[verifier::external_body]
pub(crate) fn either_right<A, B>(b: B) -> Either<A, B> {
    Either::Right(b)
}

/// `OptionFuture::from`: the future's output wrapped in `Some`, or `None`
/// at once when there is no future.
#[verifier::external_body]
pub(crate) fn option_future<F>(f: Option<F>) -> OptionFuture<F> {
    OptionFuture::from(f)
}

} // verus!
