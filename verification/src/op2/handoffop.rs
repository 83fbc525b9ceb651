//! A one-slot handoff between a pushing and a pulling operator.
use vstd::prelude::*;
use std::cell::RefCell;
use std::future::Future;
use std::marker::PhantomData;
use std::pin::Pin;
use std::rc::Rc;
use std::task::{Context, Waker};
use crate::task::{
    Poll, context_waker, waker_clone, waker_wake_by_ref, refcell_replace, refcell_new,
    pin_get_mut,
};
use super::op::{Op, PullOp, PushOp, MovePullOp, MovePushOp};
use super::types::Flow;

verus! {

/// What a handoff holds, with its wakers seen only as registered or not.
pub struct HandoffState<T> {
    pub item: Option<T>,
    pub recv_registered: bool,
    pub send_registered: bool,
}

/// One poll of a send of the item in `slot`: into an empty buffer the item
/// goes at once; into a full one it stays in the slot and the sender
/// registers to be woken. A send whose slot is empty has already completed.
pub open spec fn send_step<T>(s: HandoffState<T>, slot: Option<T>) -> (HandoffState<T>, Option<T>, Poll<()>) {
    match slot {
        None => (s, None, Poll::Ready(())),
        Some(x) => if s.item is None {
            (HandoffState { item: Some(x), ..s }, None, Poll::Ready(()))
        } else {
            (HandoffState { send_registered: true, ..s }, Some(x), Poll::Pending)
        },
    }
}

/// One poll of a receive: the buffered item, if any, is taken; otherwise the
/// receiver registers to be woken.
pub open spec fn recv_step<T>(s: HandoffState<T>) -> (HandoffState<T>, Poll<Option<T>>) {
    match s.item {
        Some(x) => (HandoffState { item: None, recv_registered: false, ..s }, Poll::Ready(Some(x))),
        None => (HandoffState { recv_registered: true, ..s }, Poll::Pending),
    }
}

/// The poll of a send that a second waiting sender would make: the buffer is
/// full and a sender is already registered. Only one producer is allowed.
pub open spec fn send_conflicts<T>(s: HandoffState<T>, slot: Option<T>) -> bool {
    slot is Some && s.item is Some && s.send_registered
}

/// The buffer of a handoff and the wakers of the two sides.
pub struct Handoff<T> {
    item: Option<T>,
    recv_waker: Option<Waker>,
    send_waker: Option<Waker>,
}

impl<T> Handoff<T> {
    pub closed spec fn view(&self) -> HandoffState<T> {
        HandoffState {
            item: self.item,
            recv_registered: self.recv_waker is Some,
            send_registered: self.send_waker is Some,
        }
    }

    /// An empty handoff with no waker registered.
    pub fn new() -> (r: Self)
        ensures
            r.view() == (HandoffState::<T> { item: None, recv_registered: false, send_registered: false }),
    {
        Handoff { item: None, recv_waker: None, send_waker: None }
    }

    /// Whether a send of `slot` would be a second waiting sender.
    pub fn conflicts(&self, slot: &Option<T>) -> (r: bool)
        ensures
            r == send_conflicts(self.view(), *slot),
    {
        slot.is_some() && self.item.is_some() && self.send_waker.is_some()
    }

    /// One poll of a send of the item in `slot`. A successful send wakes a
    /// registered receiver.
    pub fn poll_send(&mut self, slot: &mut Option<T>, ctx: &mut Context<'_>) -> (r: Poll<()>)
        requires
            !send_conflicts(old(self).view(), *old(slot)),
        ensures
            (final(self).view(), *final(slot), r) == send_step(old(self).view(), *old(slot)),
    {
        match slot.take() {
            Some(item) => {
                if self.item.is_none() {
                    self.item = Some(item);
                    match &self.recv_waker {
                        Some(waker) => waker_wake_by_ref(waker),
                        None => {},
                    }
                    Poll::Ready(())
                } else {
                    self.send_waker = Some(waker_clone(context_waker(ctx)));
                    *slot = Some(item);
                    Poll::Pending
                }
            },
            None => Poll::Ready(()),
        }
    }

    /// One poll of a receive.
    pub fn poll_recv(&mut self, ctx: &mut Context<'_>) -> (r: Poll<Option<T>>)
        ensures
            (final(self).view(), r) == recv_step(old(self).view()),
    {
        match self.item.take() {
            Some(item) => {
                self.recv_waker = None;
                Poll::Ready(Some(item))
            },
            None => {
                self.recv_waker = Some(waker_clone(context_waker(ctx)));
                Poll::Pending
            },
        }
    }
}

impl<T> Default for Handoff<T> {
    fn default() -> (r: Self)
        ensures
            r.view() == (HandoffState::<T> { item: None, recv_registered: false, send_registered: false }),
    {
        Handoff::new()
    }
}

/// An item sent into an empty handoff is what the next receive gives back,
/// and the handoff is empty again after it.
pub proof fn lemma_handoff_delivers<T>(s: HandoffState<T>, x: T)
    requires
        s.item is None,
    ensures
        send_step(s, Some(x)).2 == Poll::<()>::Ready(()),
        send_step(s, Some(x)).1 is None,
        recv_step(send_step(s, Some(x)).0).1 == Poll::Ready(Some(x)),
        recv_step(send_step(s, Some(x)).0).0.item is None,
{
}

/// A send into a full handoff loses nothing: the buffered item stays, and
/// the item being sent stays with the sender.
pub proof fn lemma_handoff_full_keeps_both<T>(s: HandoffState<T>, x: T)
    requires
        s.item is Some,
    ensures
        send_step(s, Some(x)).2 is Pending,
        send_step(s, Some(x)).1 == Some(x),
        send_step(s, Some(x)).0.item == s.item,
{
}

/// A receive from an empty handoff gives nothing and registers the receiver.
pub proof fn lemma_handoff_empty_recv<T>(s: HandoffState<T>)
    requires
        s.item is None,
    ensures
        recv_step(s).1 is Pending,
        recv_step(s).0.recv_registered,
        recv_step(s).0.item is None,
{
}

/// The future of a push into a handoff: it completes once the item is in
/// the buffer.
#[verifier::reject_recursive_types(T)]
pub struct HandoffSend<T> {
    item: Option<T>,
    handoff: Rc<RefCell<Handoff<T>>>,
}

impl<T> HandoffSend<T> {
    pub closed spec fn item_spec(&self) -> Option<T> {
        self.item
    }

    pub closed spec fn cell(&self) -> Rc<RefCell<Handoff<T>>> {
        self.handoff
    }

    /// A send of `item` into the buffer in `handoff`.
    pub fn new(item: T, handoff: Rc<RefCell<Handoff<T>>>) -> (r: Self)
        ensures
            r.item_spec() == Some(item),
            r.cell() == handoff,
    {
        HandoffSend { item: Some(item), handoff }
    }
}

impl<T> HandoffSend<T> {
    /// One poll of the send, on the buffer it shares with the pulling side.
    /// It completes once its item is in the buffer; until then it keeps the
    /// item, so nothing sent is lost. Which of the two happens depends on
    /// the buffer, which `send_once` decides.
    pub fn poll_once(&mut self, ctx: &mut Context<'_>) -> (r: Poll<()>)
        ensures
            final(self).cell() == old(self).cell(),
            old(self).item_spec() is None ==> r == Poll::<()>::Ready(()) && final(self).item_spec() is None,
            old(self).item_spec() is Some ==> {
                ||| r == Poll::<()>::Ready(()) && final(self).item_spec() is None
                ||| r is Pending && final(self).item_spec() == old(self).item_spec()
            },
    {
        let mut handoff = refcell_replace(&self.handoff, Handoff::new());
        let r = send_once(&mut handoff, &mut self.item, ctx);
        let _ = refcell_replace(&self.handoff, handoff);
        r
    }
}

/// One poll of a send of the item in `slot` into `handoff`, as the future
/// of a push makes it. Where a second sender would wait on a full buffer,
/// the poll stays pending, changes nothing and does not register;
/// otherwise it is `Handoff::poll_send`.
pub fn send_once<T>(handoff: &mut Handoff<T>, slot: &mut Option<T>, ctx: &mut Context<'_>) -> (r: Poll<()>)
    ensures
        send_conflicts(old(handoff).view(), *old(slot)) ==> r is Pending && final(handoff).view()
            == old(handoff).view() && *final(slot) == *old(slot),
        !send_conflicts(old(handoff).view(), *old(slot)) ==> (final(handoff).view(), *final(slot), r)
            == send_step(old(handoff).view(), *old(slot)),
{
    if handoff.conflicts(slot) {
        Poll::Pending
    } else {
        handoff.poll_send(slot, ctx)
    }
}

impl<T> Unpin for HandoffSend<T> {}

impl<T> Future for HandoffSend<T> {
    type Output = ();

    fn poll(self: Pin<&mut Self>, ctx: &mut Context<'_>) -> std::task::Poll<()> {
        let this = pin_get_mut(self);
        this.poll_once(ctx).into_std()
    }
}

/// The pushing side of a handoff.
#[verifier::reject_recursive_types(T)]
pub struct HandoffPushOp<F: Flow, T> {
    handoff: Rc<RefCell<Handoff<T>>>,
    _phantom: PhantomData<F>,
}

impl<F: Flow, T> HandoffPushOp<F, T> {
    /// The shared buffer this side works on.
    pub closed spec fn cell(&self) -> Rc<RefCell<Handoff<T>>> {
        self.handoff
    }

    fn create(handoff: Rc<RefCell<Handoff<T>>>) -> (r: Self)
        ensures
            r.handoff == handoff,
    {
        HandoffPushOp { handoff, _phantom: PhantomData }
    }
}

impl<F: Flow, T> Op for HandoffPushOp<F, T> {}

impl<F: Flow, T> PushOp for HandoffPushOp<F, T> {
    type Inflow = F;
    type Indomain = T;
}

impl<F: Flow, T> MovePushOp for HandoffPushOp<F, T> {
    type Feedback = HandoffSend<T>;

    /// The push itself changes nothing: the item moves when its future is
    /// polled.
    open spec fn move_pushed(pre: Self, item: T, post: Self) -> bool {
        post == pre
    }

    /// The future sends `item` into this side's buffer.
    fn push(&mut self, item: T) -> (fb: HandoffSend<T>)
        ensures
            fb.item_spec() == Some(item),
            fb.cell() == old(self).cell(),
    {
        HandoffSend::new(item, self.handoff.clone())
    }
}

/// The pulling side of a handoff.
#[verifier::reject_recursive_types(T)]
pub struct HandoffPullOp<F: Flow, T> {
    handoff: Rc<RefCell<Handoff<T>>>,
    _phantom: PhantomData<F>,
}

impl<F: Flow, T> HandoffPullOp<F, T> {
    /// The shared buffer this side works on.
    pub closed spec fn cell(&self) -> Rc<RefCell<Handoff<T>>> {
        self.handoff
    }

    fn create(handoff: Rc<RefCell<Handoff<T>>>) -> (r: Self)
        ensures
            r.handoff == handoff,
    {
        HandoffPullOp { handoff, _phantom: PhantomData }
    }
}

impl<F: Flow, T> Op for HandoffPullOp<F, T> {}

impl<F: Flow, T> PullOp for HandoffPullOp<F, T> {
    type Outflow = F;
    type Outdomain = T;
}

impl<F: Flow, T> MovePullOp for HandoffPullOp<F, T> {
    /// A handoff never ends: a pull gives an item or is pending.
    open spec fn move_polled(pre: Self, post: Self, out: Poll<Option<T>>) -> bool {
        post == pre && !(out matches Poll::Ready(None))
    }

    fn poll_next(&mut self, ctx: &mut Context<'_>) -> (out: Poll<Option<T>>) {
        let mut handoff = refcell_replace(&self.handoff, Handoff::new());
        let r = handoff.poll_recv(ctx);
        let _ = refcell_replace(&self.handoff, handoff);
        r
    }
}

/// A connected pair of handoff sides sharing one empty buffer.
pub fn handoff_op<F: Flow, T>() -> (r: (HandoffPushOp<F, T>, HandoffPullOp<F, T>))
    ensures
        r.0.cell() == r.1.cell(),
{
    let handoff = Rc::new(refcell_new(Handoff::new()));
    (HandoffPushOp::create(handoff.clone()), HandoffPullOp::create(handoff))
}

} // verus!
