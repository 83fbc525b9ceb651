use std::future::Future;
use std::pin::Pin;
use std::task::{Context, Waker};

use spinachflow::func::{MonotonicFilterRefFn, PureRefFn};
use spinachflow::lattice::MaxMerge;
use spinachflow::op::cloneop::CloneOp;
use spinachflow::op::constop::ConstOp;
use spinachflow::op::flow::RX;
use spinachflow::op::monotonicop::MonotonicFilterRefOp;
use spinachflow::op::op::{Op, PullOp, PushOp, RefPullOp, RefPushOp};
use spinachflow::op::optrait::{OpDelta, OpValue};
use spinachflow::op::referenceop::ReferenceOp;
use spinachflow::op::toownedop::ToOwnedOp;
use spinachflow::op2;
use spinachflow::task::Poll;

type Max = MaxMerge<u64>;

struct Recorder {
    seen: Vec<u64>,
}

impl Op for Recorder {}

impl RefPushOp for Recorder {
    type Inflow = RX<Max>;
    type Indomain = u64;
    type Feedback = std::future::Ready<()>;

    fn ref_pushed(_pre: Self, _item: u64, _post: Self) -> bool {
        true
    }

    fn push(&mut self, item: &u64) -> std::future::Ready<()> {
        self.seen.push(*item);
        std::future::ready(())
    }
}

struct OwnedRecorder {
    seen: Vec<u64>,
}

impl Op for OwnedRecorder {}

impl PushOp for OwnedRecorder {
    type Inflow = RX<Max>;
    type Indomain = u64;
    type Feedback = std::future::Ready<()>;

    fn pushed(_pre: Self, _item: u64, _post: Self) -> bool {
        true
    }

    fn push(&mut self, item: u64) -> std::future::Ready<()> {
        self.seen.push(item);
        std::future::ready(())
    }
}

struct RefSource {
    queue: Vec<u64>,
    current: u64,
}

impl Op for RefSource {}

impl RefPullOp for RefSource {
    type Outflow = RX<Max>;
    type Outdomain = u64;

    fn ref_pulled(_pre: Self, _post: Self, _out: Poll<Option<u64>>) -> bool {
        true
    }

    fn poll_next(&mut self, _ctx: &mut Context<'_>) -> Poll<Option<&u64>> {
        if self.queue.is_empty() {
            Poll::Pending
        } else {
            self.current = self.queue.remove(0);
            Poll::Ready(Some(&self.current))
        }
    }
}

/// Passes on values of at least ten.
struct AtLeastTen;

impl MonotonicFilterRefFn for AtLeastTen {
    type Inmerge = Max;
    type Outmerge = Max;

    fn call_spec(&self, item: u64) -> Option<u64> {
        if item >= 10 { Some(item) } else { None }
    }

    fn call<'a>(&self, item: &'a u64) -> Option<&'a u64> {
        if *item >= 10 { Some(item) } else { None }
    }
}

#[test]
fn monotonic_filter_pushes_only_what_it_picks() {
    let mut op = MonotonicFilterRefOp::new(Recorder { seen: Vec::new() }, AtLeastTen);
    futures::executor::block_on(op.push(&3));
    futures::executor::block_on(op.push(&12));
    let _ = op;
}

#[test]
fn reference_then_to_owned_delivers_the_item() {
    let mut op = ReferenceOp::new(ToOwnedOp::<_, u64>::new(OwnedRecorder { seen: Vec::new() }));
    futures::executor::block_on(op.push(5));
    let _ = op;
    let mut rec = ReferenceOp::new(Recorder { seen: Vec::new() });
    futures::executor::block_on(rec.push(6));
}

#[test]
fn to_owned_pull_hands_out_copies() {
    let mut ctx = Context::from_waker(Waker::noop());
    let mut op = ToOwnedOp::<_, u64>::new(RefSource { queue: vec![4], current: 0 });
    match op.poll_next(&mut ctx) {
        Poll::Ready(Some(x)) => assert_eq!(x, 4),
        _ => panic!("a value was queued"),
    }
    assert!(op.poll_next(&mut ctx).is_pending());
}

#[test]
fn clone_op_copies_deltas_and_value() {
    let mut ctx = Context::from_waker(Waker::noop());
    let mut op = CloneOp::new(ConstOp::<Max>::new(8));
    assert!(op.poll_delta(&mut ctx).is_pending());
    assert_eq!(op.get_value(), 8);
}

/// A second-generation reactive source of references.
struct Op2Source {
    queue: Vec<u64>,
    current: u64,
}

impl op2::op::Op for Op2Source {}

impl op2::op::PullOp for Op2Source {
    type Outflow = op2::types::RX;
    type Outdomain = u64;
}

impl op2::op::RefPullOp for Op2Source {
    fn ref_polled(_pre: Self, _post: Self, _out: Poll<Option<u64>>) -> bool {
        true
    }

    fn poll_next(&mut self, _ctx: &mut Context<'_>) -> Poll<Option<&u64>> {
        if self.queue.is_empty() {
            Poll::Ready(None)
        } else {
            self.current = self.queue.remove(0);
            Poll::Ready(Some(&self.current))
        }
    }
}

struct Op2Recorder;

impl op2::op::Op for Op2Recorder {}

impl op2::op::PushOp for Op2Recorder {
    type Inflow = op2::types::RX;
    type Indomain = u64;
}

impl op2::op::RefPushOp for Op2Recorder {
    type Feedback = std::future::Ready<u64>;

    fn ref_pushed(_pre: Self, _item: u64, _post: Self) -> bool {
        true
    }

    fn push(&mut self, item: &u64) -> std::future::Ready<u64> {
        std::future::ready(*item)
    }
}

/// Lists an item twice.
struct Twice;

impl PureRefFn for Twice {
    type Indomain = u64;
    type Outdomain = Vec<u64>;

    fn call_spec(&self, item: u64) -> Vec<u64> {
        self.call(&item)
    }

    fn call(&self, item: &u64) -> Vec<u64> {
        vec![*item, *item]
    }
}

#[test]
fn dyn_split_comp_with_no_pushes_still_pulls() {
    let mut comp = spinachflow::op::dyncomp::DynSplitComp::<_, Op2Recorder>::new(Op2Source { queue: vec![1], current: 0 });
    assert_eq!(futures::executor::block_on(comp.tick_ref()), Some(Vec::new()));
    assert_eq!(futures::executor::block_on(comp.tick_ref()), None);
}

#[test]
fn op2_static_comp_by_reference() {
    let mut comp = op2::staticcomp::StaticComp::new(Op2Source { queue: vec![7], current: 0 }, Op2Recorder);
    assert_eq!(futures::executor::block_on(comp.tick_ref()), Some(7));
    assert_eq!(futures::executor::block_on(comp.tick_ref()), None);
}

#[test]
fn op2_map_fold_pushes_every_produced_item() {
    let mut ctx = Context::from_waker(Waker::noop());
    let (push, mut pull) = op2::handoffop::handoff_op::<op2::types::DF, u64>();
    let mut op = op2::mapfilterop::MapFoldRefOp::<_, _, u64>::new(push, Twice);
    let mut fb = op2::op::RefPushOp::push(&mut op, &3);
    let _ = Pin::new(&mut fb).poll(&mut ctx);
    match op2::op::MovePullOp::poll_next(&mut pull, &mut ctx) {
        Poll::Ready(Some(x)) => assert_eq!(x, 3),
        _ => panic!("the first copy was handed over"),
    }
}
