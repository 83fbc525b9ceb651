use std::future::Future;
use std::pin::Pin;
use std::task::{Context, Waker};

use spinachflow::func::{PureFn, RendezvousFn};
use spinachflow::lattice::{Merge, MaxMerge};
use spinachflow::op::comp::DynComp;
use spinachflow::op::constop::ConstOp;
use spinachflow::op::debugop::DebugOp;
use spinachflow::op::flow::{DF, RX};
use spinachflow::op::handoffop::{handoff_op, HandoffPushOp};
use spinachflow::op::mapfilterop::{push_each, MapFilterMoveOp, MapFlattenMoveOp};
use spinachflow::op::maprendezvous::MapFlattenMoveRendezvousOp;
use spinachflow::op::op::{PullOp, PushOp, RefPullOp, RefPushOp};
use spinachflow::op::optrait::{OpDelta, OpValue};
use spinachflow::op::rendezvousop::RendezvousOp;
use spinachflow::task::Poll;

struct HalveEven;

impl PureFn for HalveEven {
    type Indomain = u64;
    type Outdomain = Option<u64>;

    fn call_spec(&self, item: u64) -> Option<u64> {
        self.call(item)
    }

    fn call(&self, item: u64) -> Option<u64> {
        if item % 2 == 0 { Some(item / 2) } else { None }
    }
}

struct Repeat;

impl PureFn for Repeat {
    type Indomain = u64;
    type Outdomain = Vec<u64>;

    fn call_spec(&self, item: u64) -> Vec<u64> {
        self.call(item)
    }

    fn call(&self, item: u64) -> Vec<u64> {
        vec![item; item as usize]
    }
}

struct AddPair;

impl RendezvousFn for AddPair {
    type InDf = u64;
    type InRx = u64;
    type Outdomain = Vec<u64>;

    fn call_spec(&self, item: (u64, u64)) -> Vec<u64> {
        self.call(item)
    }

    fn call(&self, item: (u64, u64)) -> Vec<u64> {
        if item.0 == 0 { Vec::new() } else { vec![item.0 + item.1, item.0 * item.1] }
    }
}

fn send<F: spinachflow::op::flow::Flow<Domain = u64>>(push: &mut HandoffPushOp<F>, x: u64) {
    let mut ctx = Context::from_waker(Waker::noop());
    let mut s = push.push(x);
    assert!(Pin::new(&mut s).poll(&mut ctx).is_ready());
}

fn ready<T>(p: Poll<Option<T>>) -> Option<Option<T>> {
    match p {
        Poll::Ready(x) => Some(x),
        Poll::Pending => None,
    }
}

#[test]
fn map_filter_pull_maps_and_waits_past_dropped_items() {
    let mut ctx = Context::from_waker(Waker::noop());
    let (mut push, pull) = handoff_op::<DF<u64>>();
    let mut op = MapFilterMoveOp::new(pull, HalveEven);
    send(&mut push, 10);
    assert_eq!(ready(op.poll_next(&mut ctx)), Some(Some(5)));
    send(&mut push, 3);
    assert!(op.poll_next(&mut ctx).is_pending());
}

#[test]
fn map_filter_push_forwards_only_kept_items() {
    let mut ctx = Context::from_waker(Waker::noop());
    let (push, mut pull) = handoff_op::<DF<u64>>();
    let mut op = MapFilterMoveOp::new(push, HalveEven);
    let mut fb = op.push(7);
    assert!(Pin::new(&mut fb).poll(&mut ctx).is_ready());
    assert!(pull.poll_next(&mut ctx).is_pending());
    let mut fb = op.push(8);
    assert!(Pin::new(&mut fb).poll(&mut ctx).is_ready());
    assert_eq!(ready(pull.poll_next(&mut ctx)), Some(Some(4)));
}

#[test]
fn map_flatten_pull_hands_out_every_produced_item() {
    let mut ctx = Context::from_waker(Waker::noop());
    let (mut push, pull) = handoff_op::<DF<u64>>();
    let mut op = MapFlattenMoveOp::<_, _, u64>::new(pull, Repeat);
    send(&mut push, 3);
    assert_eq!(ready(op.poll_next(&mut ctx)), Some(Some(3)));
    assert_eq!(ready(op.poll_next(&mut ctx)), Some(Some(3)));
    assert_eq!(ready(op.poll_next(&mut ctx)), Some(Some(3)));
    assert!(op.poll_next(&mut ctx).is_pending());
}

#[test]
fn push_each_pushes_in_order() {
    let mut rec = Recorder { seen: Vec::new() };
    let mut reference = spinachflow::op::referenceop::ReferenceOp::new(Recorder { seen: Vec::new() });
    futures::executor::block_on(push_each(&mut reference, vec![1, 2, 3]));
    let _ = reference;
    futures::executor::block_on(RefPushOp::push(&mut rec, &4));
    assert_eq!(rec.seen, vec![4]);
}

#[test]
fn map_flatten_rendezvous_pairs_then_flattens() {
    let mut ctx = Context::from_waker(Waker::noop());
    let (mut df_in, df_out) = handoff_op::<DF<u64>>();
    let (mut rx_in, rx_out) = handoff_op::<DF<u64>>();
    let pairs = RendezvousOp::new(df_out, rx_out);
    let mut op = MapFlattenMoveRendezvousOp::<_, _, u64>::new(pairs, AddPair);
    send(&mut df_in, 2);
    send(&mut rx_in, 5);
    assert_eq!(ready(op.poll_next(&mut ctx)), Some(Some(7)));
    assert_eq!(ready(op.poll_next(&mut ctx)), Some(Some(10)));
    assert!(op.poll_next(&mut ctx).is_pending());
}

#[test]
fn debug_op_logs_pulled_items() {
    let mut ctx = Context::from_waker(Waker::noop());
    let (mut push, pull) = handoff_op::<DF<u64>>();
    let mut op = DebugOp::new(pull, "pulled");
    send(&mut push, 6);
    assert_eq!(ready(op.poll_next(&mut ctx)), Some(Some(6)));
    assert!(op.poll_next(&mut ctx).is_pending());
    assert_eq!(op.take_log(), vec!["pulled: 6".to_owned()]);
}

#[test]
fn const_op_has_a_value_and_no_deltas() {
    let mut ctx = Context::from_waker(Waker::noop());
    let mut op = ConstOp::<MaxMerge<u64>>::new(12);
    assert!(op.poll_delta(&mut ctx).is_pending());
    assert_eq!(op.get_value(), 12);
}

type Max = MaxMerge<u64>;

/// A reactive source handing out references to its queued values.
struct RefSource {
    queue: Vec<u64>,
    current: u64,
}

impl spinachflow::op::op::Op for RefSource {}

impl RefPullOp for RefSource {
    type Outflow = RX<Max>;
    type Outdomain = u64;

    fn ref_pulled(_pre: Self, _post: Self, _out: Poll<Option<u64>>) -> bool {
        true
    }

    fn poll_next(&mut self, _ctx: &mut Context<'_>) -> Poll<Option<&u64>> {
        if self.queue.is_empty() {
            Poll::Ready(None)
        } else {
            self.current = self.queue.remove(0);
            Poll::Ready(Some(&self.current))
        }
    }
}

/// A pushing operator recording what it is given.
struct Recorder {
    seen: Vec<u64>,
}

impl spinachflow::op::op::Op for Recorder {}

impl RefPushOp for Recorder {
    type Inflow = RX<Max>;
    type Indomain = u64;
    type Feedback = std::future::Ready<u64>;

    fn ref_pushed(_pre: Self, _item: u64, _post: Self) -> bool {
        true
    }

    fn push(&mut self, item: &u64) -> std::future::Ready<u64> {
        self.seen.push(*item);
        std::future::ready(*item)
    }
}

#[test]
fn dyn_comp_pushes_each_value_into_every_split() {
    let mut comp = DynComp::<Max, _, _>::new(RefSource { queue: vec![4, 8], current: 0 });
    let first = futures::executor::block_on(comp.add_split(Recorder { seen: Vec::new() }));
    assert_eq!(first, Some(vec![4]));
    let second = futures::executor::block_on(comp.add_split(Recorder { seen: Vec::new() }));
    assert_eq!(second, Some(vec![8, 8]));
    let end = futures::executor::block_on(comp.tick_refop());
    assert_eq!(end, None);
}

#[test]
fn static_comp_by_reference_hands_on_one_value() {
    let mut comp = spinachflow::op::comp::StaticComp::new(
        RefSource { queue: vec![3], current: 0 },
        Recorder { seen: Vec::new() },
    );
    assert_eq!(futures::executor::block_on(comp.tick_refop()), Some(3));
    assert_eq!(futures::executor::block_on(comp.tick_refop()), None);
}

#[test]
fn dyn_comp_by_value_with_no_pushes() {
    let (mut src_in, src_out) = handoff_op::<RX<Max>>();
    let mut comp = DynComp::<Max, _, HandoffPushOp<RX<Max>>>::new(src_out);
    send(&mut src_in, 9);
    let outs = futures::executor::block_on(comp.tick_moveop());
    assert_eq!(outs.map(|v| v.len()), Some(0));
    let _ = <Max as Merge>::copy(&1);
}
