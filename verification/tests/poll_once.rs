use std::future::Future;
use std::pin::Pin;
use std::task::{Context, Waker};

use spinachflow::lattice::MaxMerge;
use spinachflow::op::comp::{DynComp, StaticComp};
use spinachflow::op::flow::{DF, RX};
use spinachflow::op::handoffop::handoff_op;
use spinachflow::op::latticeop::LatticeOp;
use spinachflow::op::op::{Op, PullOp, PushOp, RefPullOp, RefPushOp};
use spinachflow::op::optrait::OpDelta;
use spinachflow::op::splitop::Splitter;
use spinachflow::op::util::MoveNext;
use spinachflow::op2;
use spinachflow::op2::handoffop::{send_once, Handoff};
use spinachflow::task::{poll_push, settle_push, Poll};

type Max = MaxMerge<u64>;

fn ready<T>(p: Poll<Option<T>>) -> Option<Option<T>> {
    match p {
        Poll::Ready(x) => Some(x),
        Poll::Pending => None,
    }
}

/// A reactive source handing out references to its queued values, then
/// ending.
struct RefSource {
    queue: Vec<u64>,
    current: u64,
}

impl Op for RefSource {}

impl RefPullOp for RefSource {
    type Outflow = RX<Max>;
    type Outdomain = u64;

    fn ref_pulled(_pre: Self, _post: Self, _out: Poll<Option<u64>>) -> bool {
        true
    }

    fn poll_next(&mut self, _ctx: &mut Context<'_>) -> Poll<Option<&u64>> {
        if self.queue.is_empty() {
            Poll::Ready(None)
        } else {
            self.current = self.queue.remove(0);
            Poll::Ready(Some(&self.current))
        }
    }
}

/// A pushing operator whose push completes at once with the item doubled.
struct Doubler;

impl Op for Doubler {}

impl RefPushOp for Doubler {
    type Inflow = RX<Max>;
    type Indomain = u64;
    type Feedback = std::future::Ready<u64>;

    fn ref_pushed(_pre: Self, _item: u64, _post: Self) -> bool {
        true
    }

    fn push(&mut self, item: &u64) -> std::future::Ready<u64> {
        std::future::ready(*item * 2)
    }
}

#[test]
fn comp_tick_poll_once_waits_for_the_pull_then_completes_the_push() {
    let mut ctx = Context::from_waker(Waker::noop());
    let (mut src_in, src_out) = handoff_op::<DF<u64>>();
    let (dst_in, mut dst_out) = handoff_op::<DF<u64>>();
    let mut comp = StaticComp::new(src_out, dst_in);
    {
        let mut tick = comp.tick_moveop();
        assert!(tick.poll_once(&mut ctx).is_pending());
        let mut s = src_in.push(5);
        assert!(Pin::new(&mut s).poll(&mut ctx).is_ready());
        assert_eq!(ready(tick.poll_once(&mut ctx)), Some(Some(())));
    }
    assert_eq!(ready(dst_out.poll_next(&mut ctx)), Some(Some(5)));
}

#[test]
fn comp_tick_poll_once_keeps_a_pending_push_under_way() {
    let mut ctx = Context::from_waker(Waker::noop());
    let (mut src_in, src_out) = handoff_op::<DF<u64>>();
    let (mut dst_in, mut dst_out) = handoff_op::<DF<u64>>();
    let mut full = dst_in.push(1);
    assert!(Pin::new(&mut full).poll(&mut ctx).is_ready());
    let mut comp = StaticComp::new(src_out, dst_in);
    let mut s = src_in.push(2);
    assert!(Pin::new(&mut s).poll(&mut ctx).is_ready());
    let mut tick = comp.tick_moveop();
    // The item is pulled and pushed, but the buffer downstream is full.
    assert!(tick.poll_once(&mut ctx).is_pending());
    assert_eq!(ready(dst_out.poll_next(&mut ctx)), Some(Some(1)));
    // The push under way completes without pulling again.
    assert_eq!(ready(tick.poll_once(&mut ctx)), Some(Some(())));
    assert_eq!(ready(dst_out.poll_next(&mut ctx)), Some(Some(2)));
}

#[test]
fn ref_comp_future_poll_once_collects_every_output_in_order() {
    let mut ctx = Context::from_waker(Waker::noop());
    let mut comp = DynComp::<Max, _, _>::new(RefSource { queue: vec![4, 8], current: 0 });
    {
        let mut first = comp.add_split(Doubler);
        assert_eq!(ready(first.poll_once(&mut ctx)), Some(Some(vec![8])));
    }
    {
        let mut second = comp.add_split(Doubler);
        assert_eq!(ready(second.poll_once(&mut ctx)), Some(Some(vec![16, 16])));
    }
    let mut end = comp.tick_refop();
    assert_eq!(ready(end.poll_once(&mut ctx)), Some(None));
}

#[test]
fn handoff_send_poll_once_keeps_its_item_while_the_buffer_is_full() {
    let mut ctx = Context::from_waker(Waker::noop());
    let (mut push, mut pull) = op2::handoffop::handoff_op::<op2::types::DF, u64>();
    let mut first = op2::op::MovePushOp::push(&mut push, 1);
    assert!(matches!(first.poll_once(&mut ctx), Poll::Ready(())));
    let mut second = op2::op::MovePushOp::push(&mut push, 2);
    assert!(second.poll_once(&mut ctx).is_pending());
    assert_eq!(ready(op2::op::MovePullOp::poll_next(&mut pull, &mut ctx)), Some(Some(1)));
    assert!(matches!(second.poll_once(&mut ctx), Poll::Ready(())));
    assert!(matches!(second.poll_once(&mut ctx), Poll::Ready(())));
    assert_eq!(ready(op2::op::MovePullOp::poll_next(&mut pull, &mut ctx)), Some(Some(2)));
}

#[test]
fn send_once_by_a_second_waiting_sender_changes_nothing() {
    let mut ctx = Context::from_waker(Waker::noop());
    let mut h = Handoff::<u64>::new();
    let mut first = Some(1);
    let mut second = Some(2);
    let mut third = Some(3);
    assert!(matches!(send_once(&mut h, &mut first, &mut ctx), Poll::Ready(())));
    assert!(send_once(&mut h, &mut second, &mut ctx).is_pending());
    assert!(h.conflicts(&third));
    assert!(send_once(&mut h, &mut third, &mut ctx).is_pending());
    assert_eq!(third, Some(3));
    assert_eq!(ready(h.poll_recv(&mut ctx)), Some(Some(1)));
    assert!(matches!(send_once(&mut h, &mut third, &mut ctx), Poll::Ready(())));
    assert_eq!(third, None);
    assert_eq!(ready(h.poll_recv(&mut ctx)), Some(Some(3)));
}

#[test]
fn move_next_poll_once_hands_on_one_pull() {
    let mut ctx = Context::from_waker(Waker::noop());
    let (mut push, mut pull) = handoff_op::<DF<u64>>();
    {
        let mut next = MoveNext::new(&mut pull);
        assert!(next.poll_once(&mut ctx).is_pending());
    }
    let mut s = push.push(6);
    assert!(Pin::new(&mut s).poll(&mut ctx).is_ready());
    let mut next = MoveNext::new(&mut pull);
    assert_eq!(ready(next.poll_once(&mut ctx)), Some(Some(6)));
}

#[test]
fn settle_push_completes_or_keeps_the_future() {
    let mut slot: Option<Pin<Box<std::future::Ready<u64>>>> = None;
    let r = settle_push(&mut slot, Box::pin(std::future::ready(5)), Some(5));
    assert_eq!(ready(r), Some(Some(5)));
    assert!(slot.is_none());
    let r = settle_push(&mut slot, Box::pin(std::future::ready(5)), None);
    assert!(r.is_pending());
    assert!(slot.is_some());
}

#[test]
fn poll_push_with_nothing_under_way_is_pending() {
    let mut ctx = Context::from_waker(Waker::noop());
    let mut slot: Option<Pin<Box<std::future::Ready<u64>>>> = None;
    assert!(poll_push(&mut slot, &mut ctx).is_pending());
    assert!(slot.is_none());
    slot = Some(Box::pin(std::future::ready(9)));
    assert_eq!(ready(poll_push(&mut slot, &mut ctx)), Some(Some(9)));
    assert!(slot.is_none());
}

/// A source of set deltas: hands out its queue, then stays pending.
struct Feed {
    queue: Vec<Vec<(u64, u64)>>,
}

impl spinachflow::op::optrait::Op for Feed {
    type LatRepr = spinachflow::lattice::SetUnionRepr<(u64, u64)>;
}

impl OpDelta for Feed {
    fn delta_polled(_pre: Self, _post: Self, _out: Poll<Option<Vec<(u64, u64)>>>) -> bool {
        true
    }

    fn poll_delta(&mut self, _ctx: &mut Context<'_>) -> Poll<Option<Vec<(u64, u64)>>> {
        if self.queue.is_empty() {
            Poll::Pending
        } else {
            Poll::Ready(Some(self.queue.remove(0)))
        }
    }
}

#[test]
fn a_split_still_holding_a_delta_stays_pending() {
    let mut ctx = Context::from_waker(Waker::noop());
    let feed = Feed { queue: vec![vec![(1, 1)], vec![(2, 2)]] };
    let op = LatticeOp::<_, spinachflow::lattice::SetUnionRepr<(u64, u64)>>::new(feed, Vec::new());
    let splitter = Splitter::new(op);
    let mut only = splitter.add_split();
    assert_eq!(ready(only.poll_delta(&mut ctx)), Some(Some(vec![(1, 1)])));
    // Its slot still holds the first delta: the operator is not polled.
    assert!(only.poll_delta(&mut ctx).is_pending());
    assert_eq!(only.get_value_opt(), Some(vec![(1, 1)]));
}
