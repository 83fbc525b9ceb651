//! The receiving half of a tokio channel, as the pulling operators see it.
use vstd::prelude::*;
use std::task::Context;
use tokio::sync::mpsc::Receiver;
use crate::task::Poll;

verus! {

/// `tokio::sync::mpsc::Receiver`, the receiving half of a channel; opaque.
#[verifier::external_type_specification]
#[verifier::external_body]
#[verifier::reject_recursive_types(T)]
pub struct ExReceiver<T>(Receiver<T>);

/// `tokio::sync::mpsc::Receiver::poll_recv`. It is ready with the next
/// message when one is queued, ready with `None` once every sender is gone
/// and the queue is drained, and pending otherwise. Which of these comes
/// depends on what other tasks have sent, so no clause states it.
#[verifier::external_body]
pub(crate) fn receiver_poll_recv<T>(recv: &mut Receiver<T>, ctx: &mut Context<'_>) -> Poll<Option<T>> {
    match recv.poll_recv(ctx) {
        std::task::Poll::Ready(x) => Poll::Ready(x),
        std::task::Poll::Pending => Poll::Pending,
    }
}

/// `tokio::sync::mpsc::Receiver::len`: how many messages are queued. Other
/// tasks may send at any time, so no clause states it.
#[verifier::external_body]
pub(crate) fn receiver_len<T>(recv: &Receiver<T>) -> usize {
    recv.len()
}

/// `tokio::sync::mpsc::Receiver::try_recv`: the next queued message, or
/// `None` when there is none (or every sender is gone). Which comes depends
/// on other tasks, so no clause states it.
#[verifier::external_body]
pub(crate) fn receiver_try_recv<T>(recv: &mut Receiver<T>) -> Option<T> {
    match recv.try_recv() {
        Ok(t) => Some(t),
        Err(_) => None,
    }
}

/// Appends to `out` the messages queued in `recv`, in the order they were
/// sent; what was in `out` stays, in front.
pub fn drain_into<T>(recv: &mut Receiver<T>, out: &mut Vec<T>)
    ensures
        final(out)@.len() >= old(out)@.len(),
        final(out)@.take(old(out)@.len() as int) == old(out)@,
{
    let ghost start = out@;
    let queued = receiver_len(recv);
    let mut k: usize = 0;
    while k < queued
        invariant
            out@.len() >= start.len(),
            out@.take(start.len() as int) == start,
        decreases queued - k,
    {
        match receiver_try_recv(recv) {
            Some(t) => {
                let ghost before = out@;
                out.push(t);
                assert(out@.take(start.len() as int) =~= before.take(start.len() as int));
            },
            None => {
                break;
            },
        }
        k = k + 1;
    }
}

} // verus!
