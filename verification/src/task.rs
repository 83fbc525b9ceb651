//! Polling vocabulary shared by every operator: the result of a poll, and
//! the task context and wakers through which a pending operator asks to be
//! polled again.
use vstd::prelude::*;
use std::cell::RefCell;
use std::pin::Pin;
use std::task::{Context, Waker};

verus! {

/// The outcome of polling an operator: a value, or "not yet".
pub enum Poll<T> {
    Ready(T),
    Pending,
}

impl<T> Poll<T> {
    pub open spec fn ready_spec(&self) -> bool {
        self is Ready
    }

    /// True when a value was produced.
    pub fn is_ready(&self) -> (r: bool)
        ensures
            r == self.ready_spec(),
    {
        match self {
            Poll::Ready(_) => true,
            Poll::Pending => false,
        }
    }

    /// True when no value was produced yet.
    pub fn is_pending(&self) -> (r: bool)
        ensures
            r == !self.ready_spec(),
    {
        match self {
            Poll::Ready(_) => false,
            Poll::Pending => true,
        }
    }
}

/// `std::task::Waker`, the handle that wakes a task; opaque.
#[verifier::external_type_specification]
#[verifier::external_body]
pub struct ExWaker(Waker);

/// `std::task::Context`, the context of a poll; opaque.
#[verifier::external_type_specification]
#[verifier::external_body]
pub struct ExContext<'a>(Context<'a>);

/// `std::task::Poll`, the outcome of a poll of a std future; opaque.
#[verifier::external_type_specification]
#[verifier::external_body]
#[verifier::reject_recursive_types(T)]
pub struct ExStdPoll<T>(std::task::Poll<T>);

/// `std::cell::RefCell`, a cell whose contents are not tracked; opaque.
#[verifier::external_type_specification]
#[verifier::external_body]
#[verifier::reject_recursive_types(T)]
pub struct ExRefCell<T: ?Sized>(RefCell<T>);

/// `std::pin::Pin`, a pinned pointer; opaque.
#[verifier::external_type_specification]
#[verifier::external_body]
#[verifier::reject_recursive_types(Ptr)]
pub struct ExPin<Ptr>(Pin<Ptr>);

/// `std::future::Ready`, a future that is ready at once; opaque.
#[verifier::external_type_specification]
#[verifier::external_body]
#[verifier::reject_recursive_types(T)]
pub struct ExReady<T>(std::future::Ready<T>);

/// `Context::waker`: the waker of the task that is polling. Nothing is
/// claimed of it; wakers are opaque handles.
#[verifier::external_body]
pub(crate) fn context_waker<'a, 'b>(ctx: &'b Context<'a>) -> &'b Waker {
    ctx.waker()
}

/// `Waker::clone`: another handle that wakes the same task. Nothing is
/// claimed of it.
#[verifier::external_body]
pub(crate) fn waker_clone(w: &Waker) -> Waker {
    w.clone()
}

/// `Waker::wake_by_ref`: schedules the task to be polled again. It returns
/// nothing and nothing is claimed of its effect.
#[verifier::external_body]
pub(crate) fn waker_wake_by_ref(w: &Waker) {
    w.wake_by_ref()
}

/// `Waker::wake`: as `wake_by_ref`, consuming the waker.
#[verifier::external_body]
pub(crate) fn waker_wake(w: Waker) {
    w.wake()
}

/// `RefCell::replace`: puts `t` into the cell and hands back what it held.
/// The contents of a shared cell are not tracked, so nothing is claimed of
/// the value handed back. `RefCell::replace` panics when the cell is
/// borrowed; this crate calls it only where no borrow of the cell can be
/// live: on cells private to the type that holds them, which nothing
/// borrows, or on a shared cell right after `refcell_is_free` found it free,
/// with no code that could borrow it run in between.
#[verifier::external_body]
pub(crate) fn refcell_replace<T>(cell: &RefCell<T>, t: T) -> T {
    cell.replace(t)
}

/// `RefCell::try_borrow_mut`, with the borrow dropped at once: whether
/// the cell could be borrowed mutably now, that is, whether no borrow of it
/// is held. That depends on what callers hold, so nothing is claimed of it.
#[verifier::external_body]
pub(crate) fn refcell_is_free<T>(cell: &RefCell<T>) -> bool {
    cell.try_borrow_mut().is_ok()
}

/// `RefCell::new`: a cell holding `t`. The contents of a shared cell are
/// not tracked, so nothing is claimed of them.
#[verifier::external_body]
pub(crate) fn refcell_new<T>(t: T) -> RefCell<T> {
    RefCell::new(t)
}

/// `Pin::get_mut` on an `Unpin` target: the pinned reference itself.
#[verifier::external_body]
pub(crate) fn pin_get_mut<'a, T: Unpin>(p: Pin<&'a mut T>) -> &'a mut T {
    p.get_mut()
}

/// `Box::pin`: `f` pinned on the heap.
#[verifier::external_body]
pub(crate) fn box_pin<F>(f: F) -> Pin<Box<F>> {
    Box::pin(f)
}

/// `Future::poll` of a pinned boxed future: its output if it completed.
/// What a future does is up to its impl, so nothing is claimed of it.
#[verifier::external_body]
pub(crate) fn poll_boxed<F: std::future::Future>(f: &mut Pin<Box<F>>, ctx: &mut Context<'_>) -> Option<F::Output> {
    match f.as_mut().poll(ctx) {
        std::task::Poll::Ready(out) => Some(out),
        std::task::Poll::Pending => None,
    }
}

/// `Future::poll` of an `Unpin` future, through `Pin::new`: its output if
/// it completed. What a future does is up to its impl, so nothing is
/// claimed of it.
#[verifier::external_body]
pub(crate) fn poll_unpin<F: std::future::Future + Unpin>(f: &mut F, ctx: &mut Context<'_>) -> Option<F::Output> {
    match Pin::new(f).poll(ctx) {
        std::task::Poll::Ready(out) => Some(out),
        std::task::Poll::Pending => None,
    }
}

/// The variant `std::task::Poll::Ready`.
#[verifier::external_body]
pub(crate) fn std_poll_ready<T>(t: T) -> std::task::Poll<T> {
    std::task::Poll::Ready(t)
}

/// The variant `std::task::Poll::Pending`.
#[verifier::external_body]
pub(crate) fn std_poll_pending<T>() -> std::task::Poll<T> {
    std::task::Poll::Pending
}

/// `std::future::ready`: a future that completes at once with `t`.
#[verifier::external_body]
pub(crate) fn future_ready<T>(t: T) -> std::future::Ready<T> {
    std::future::ready(t)
}

/// The items among the outcomes `outs` of polls, in order.
pub open spec fn delivered<D>(outs: Seq<Poll<Option<D>>>) -> Seq<D>
    decreases outs.len(),
{
    if outs.len() == 0 {
        Seq::empty()
    } else {
        match outs.last() {
            Poll::Ready(Some(d)) => delivered(outs.drop_last()).push(d),
            _ => delivered(outs.drop_last()),
        }
    }
}

/// Whether the poll `r` of a step's future agrees with whether it is
/// `idle` after: an output completes the step and leaves no push under
/// way; pending keeps the push under way.
pub open spec fn push_settled<T>(r: Poll<Option<T>>, idle: bool) -> bool {
    ||| r matches Poll::Ready(Some(_)) && idle
    ||| r is Pending && !idle
}

/// Settles the future `fut` of a step's pushes after one poll of it gave
/// `outcome`: its output completes the step and leaves `slot` empty; while
/// it is pending it goes back into `slot`.
pub fn settle_push<F: std::future::Future>(
    slot: &mut Option<Pin<Box<F>>>,
    fut: Pin<Box<F>>,
    outcome: Option<F::Output>,
) -> (r: Poll<Option<F::Output>>)
    ensures
        match outcome {
            Some(out) => r == Poll::Ready(Some(out)) && final(slot).is_none(),
            None => r is Pending && *final(slot) == Some(fut),
        },
{
    match outcome {
        Some(out) => {
            *slot = None;
            Poll::Ready(Some(out))
        },
        None => {
            *slot = Some(fut);
            Poll::Pending
        },
    }
}

/// Polls the push under way in `slot`, if there is one, and settles it;
/// with none under way the step stays pending.
pub fn poll_push<F: std::future::Future>(slot: &mut Option<Pin<Box<F>>>, ctx: &mut Context<'_>) -> (r:
    Poll<Option<F::Output>>)
    ensures
        old(slot).is_none() ==> r is Pending && final(slot).is_none(),
        old(slot).is_some() ==> push_settled(r, final(slot).is_none()),
{
    match slot.take() {
        Some(fut) => {
            let mut fut = fut;
            let outcome = poll_boxed(&mut fut, ctx);
            settle_push(slot, fut, outcome)
        },
        None => Poll::Pending,
    }
}

impl<T> Poll<T> {
    /// The same outcome as a `std::task::Poll`.
    pub fn into_std(self) -> std::task::Poll<T> {
        match self {
            Poll::Ready(t) => std_poll_ready(t),
            Poll::Pending => std_poll_pending(),
        }
    }
}

} // verus!
