use std::future::Future;
use std::pin::Pin;
use std::task::{Context, Waker};

use spinachflow::lattice::{Merge, SetUnionRepr};
use spinachflow::op::comp::{DynComp, StaticComp};
use spinachflow::op::flow::DF;
use spinachflow::op::handoffop::handoff_op;
use spinachflow::op::latticeop::LatticeOp;
use spinachflow::op::mergeop::MergeOp;
use spinachflow::op::naryop;
use spinachflow::op::op::PullOp as _;
use spinachflow::op::op::PushOp as _;
use spinachflow::op::optrait::{Op, OpDelta, OpValue};
use spinachflow::op::rendezvousop::RendezvousOp;
use spinachflow::op::splitop::Splitter;
use spinachflow::op::symhashjoinop::SymHashJoinOp;
use spinachflow::task::Poll;

type Pairs = SetUnionRepr<(u64, u64)>;

/// A source of deltas for the tests: hands out its queue, then ends when
/// `closed`, else stays pending.
struct Feed {
    queue: Vec<Vec<(u64, u64)>>,
    closed: bool,
}

impl Feed {
    fn new(queue: Vec<Vec<(u64, u64)>>, closed: bool) -> Self {
        Feed { queue, closed }
    }
}

impl Op for Feed {
    type LatRepr = Pairs;
}

impl OpDelta for Feed {
    fn delta_polled(_pre: Self, _post: Self, _out: Poll<Option<Vec<(u64, u64)>>>) -> bool {
        true
    }

    fn poll_delta(&mut self, _ctx: &mut Context<'_>) -> Poll<Option<Vec<(u64, u64)>>> {
        if !self.queue.is_empty() {
            Poll::Ready(Some(self.queue.remove(0)))
        } else if self.closed {
            Poll::Ready(None)
        } else {
            Poll::Pending
        }
    }
}

fn ready<T>(p: Poll<Option<T>>) -> Option<Option<T>> {
    match p {
        Poll::Ready(x) => Some(x),
        Poll::Pending => None,
    }
}

fn sorted(mut v: Vec<(u64, u64, u64)>) -> Vec<(u64, u64, u64)> {
    v.sort();
    v
}

#[test]
fn sym_hash_join_joins_new_pairs_with_both_tables() {
    let mut ctx = Context::from_waker(Waker::noop());
    let a = Feed::new(vec![vec![(1, 10)], vec![(2, 20)]], true);
    let b = Feed::new(vec![vec![(1, 100), (2, 200)], vec![(1, 101)]], true);
    let mut join = SymHashJoinOp::new(a, b);
    match join.poll_delta(&mut ctx) {
        Poll::Ready(Some(v)) => assert_eq!(sorted(v), vec![(1, 10, 100)]),
        _ => panic!("a join was produced"),
    }
    match join.poll_delta(&mut ctx) {
        Poll::Ready(Some(v)) => assert_eq!(sorted(v), vec![(1, 10, 101), (2, 20, 200)]),
        _ => panic!("a join was produced"),
    }
    assert_eq!(ready(join.poll_delta(&mut ctx)), Some(None));
}

#[test]
fn sym_hash_join_is_pending_when_nothing_matches() {
    let mut ctx = Context::from_waker(Waker::noop());
    let a = Feed::new(vec![vec![(1, 10)]], false);
    let b = Feed::new(vec![vec![(2, 20)]], false);
    let mut join = SymHashJoinOp::new(a, b);
    assert!(join.poll_delta(&mut ctx).is_pending());
    assert!(join.poll_delta(&mut ctx).is_pending());
}

#[test]
fn merge_op_prefers_the_first_input() {
    let mut ctx = Context::from_waker(Waker::noop());
    let a = Feed::new(vec![vec![(1, 1)]], true);
    let b = Feed::new(vec![vec![(2, 2)]], true);
    let mut merge = MergeOp::new(a, b);
    assert_eq!(ready(merge.poll_delta(&mut ctx)), Some(Some(vec![(1, 1)])));
    assert_eq!(ready(merge.poll_delta(&mut ctx)), Some(Some(vec![(2, 2)])));
    assert_eq!(ready(merge.poll_delta(&mut ctx)), Some(None));
}

#[test]
fn lattice_op_accumulates_its_deltas() {
    let mut ctx = Context::from_waker(Waker::noop());
    let feed = Feed::new(vec![vec![(1, 1)], vec![(2, 2)]], true);
    let mut op = LatticeOp::<_, Pairs>::new(feed, vec![(0, 0)]);
    assert_eq!(ready(op.poll_delta(&mut ctx)), Some(Some(vec![(1, 1)])));
    assert_eq!(ready(op.poll_delta(&mut ctx)), Some(Some(vec![(2, 2)])));
    assert_eq!(op.get_value(), vec![(0, 0), (1, 1), (2, 2)]);
}

#[test]
fn a_split_waits_while_another_holds_a_delta() {
    let mut ctx = Context::from_waker(Waker::noop());
    let feed = Feed::new(vec![vec![(1, 1)], vec![(2, 2)]], false);
    let op = LatticeOp::<_, Pairs>::new(feed, Vec::new());
    let splitter = Splitter::new(op);
    let mut s0 = splitter.add_split();
    let mut s1 = splitter.add_split();
    assert_eq!(ready(s0.poll_delta(&mut ctx)), Some(Some(vec![(1, 1)])));
    assert!(s1.poll_delta(&mut ctx).is_pending());
    assert!(s0.poll_delta(&mut ctx).is_pending());
    assert_eq!(s0.get_value_opt(), Some(vec![(1, 1)]));
    assert_eq!(s1.get_value_opt(), Some(vec![(1, 1)]));
}

#[test]
fn handoff_op_delivers_a_pushed_item() {
    let mut ctx = Context::from_waker(Waker::noop());
    let (mut push, mut pull) = handoff_op::<DF<u64>>();
    assert!(pull.poll_next(&mut ctx).is_pending());
    let mut send = push.push(3);
    assert!(Pin::new(&mut send).poll(&mut ctx).is_ready());
    assert_eq!(ready(pull.poll_next(&mut ctx)), Some(Some(3)));
}

#[test]
fn nary_split_pushes_to_both_and_merge_is_biased() {
    let mut ctx = Context::from_waker(Waker::noop());
    let (push0, mut pull0) = handoff_op::<DF<u64>>();
    let (push1, mut pull1) = handoff_op::<DF<u64>>();
    let mut split = naryop::SplitOp::new(push0, push1);
    let mut fb = split.push(4);
    assert!(Pin::new(&mut fb).poll(&mut ctx).is_ready());
    assert_eq!(ready(pull0.poll_next(&mut ctx)), Some(Some(4)));
    assert_eq!(ready(pull1.poll_next(&mut ctx)), Some(Some(4)));

    let (mut in0, out0) = handoff_op::<DF<u64>>();
    let (mut in1, out1) = handoff_op::<DF<u64>>();
    let mut merge = naryop::MergeOp::new(out0, out1);
    let mut s1 = in1.push(20);
    assert!(Pin::new(&mut s1).poll(&mut ctx).is_ready());
    let mut s0 = in0.push(10);
    assert!(Pin::new(&mut s0).poll(&mut ctx).is_ready());
    assert_eq!(ready(merge.poll_next(&mut ctx)), Some(Some(10)));
    assert_eq!(ready(merge.poll_next(&mut ctx)), Some(Some(20)));
    assert!(merge.poll_next(&mut ctx).is_pending());
}

#[test]
fn rendezvous_pairs_an_item_with_the_reactive_value() {
    let mut ctx = Context::from_waker(Waker::noop());
    let (mut df_in, df_out) = handoff_op::<DF<u64>>();
    let (mut rx_in, rx_out) = handoff_op::<DF<u64>>();
    let mut op = RendezvousOp::new(df_out, rx_out);
    let mut s = df_in.push(1);
    assert!(Pin::new(&mut s).poll(&mut ctx).is_ready());
    assert!(op.poll_next(&mut ctx).is_pending());
    let mut r = rx_in.push(9);
    assert!(Pin::new(&mut r).poll(&mut ctx).is_ready());
    assert_eq!(ready(op.poll_next(&mut ctx)), Some(Some((1, 9))));
}

#[test]
fn static_comp_moves_one_item_per_tick() {
    let mut ctx = Context::from_waker(Waker::noop());
    let (mut src_in, src_out) = handoff_op::<DF<u64>>();
    let (dst_in, mut dst_out) = handoff_op::<DF<u64>>();
    let mut comp = StaticComp::new(src_out, dst_in);
    let mut s = src_in.push(5);
    assert!(Pin::new(&mut s).poll(&mut ctx).is_ready());
    let got = futures::executor::block_on(comp.tick_moveop());
    assert_eq!(got, Some(()));
    assert_eq!(ready(dst_out.poll_next(&mut ctx)), Some(Some(5)));
}

#[test]
fn dyn_comp_starts_with_no_pushes() {
    let (_src_in, src_out) = handoff_op::<spinachflow::op::flow::RX<Pairs>>();
    let comp = DynComp::<Pairs, _, spinachflow::op::handoffop::HandoffPushOp<spinachflow::op::flow::RX<Pairs>>>::new(src_out);
    let _ = comp;
    let v: Vec<(u64, u64)> = vec![(1, 2)];
    assert_eq!(<Pairs as Merge>::copy(&v), v);
}

#[test]
fn sym_hash_join_over_many_polls_produces_the_whole_join() {
    let mut ctx = Context::from_waker(Waker::noop());
    let a = Feed::new(vec![vec![(1, 10), (3, 30)], vec![], vec![(2, 20), (1, 11)]], true);
    let b = Feed::new(vec![vec![(2, 200)], vec![(1, 100)], vec![], vec![(3, 300), (1, 101)]], true);
    let mut join = SymHashJoinOp::new(a, b);
    let mut produced: Vec<(u64, u64, u64)> = Vec::new();
    loop {
        match join.poll_delta(&mut ctx) {
            Poll::Ready(Some(v)) => produced.extend(v),
            Poll::Ready(None) => break,
            Poll::Pending => {},
        }
    }
    let mut produced = sorted(produced);
    produced.dedup();
    assert_eq!(
        produced,
        vec![(1, 10, 100), (1, 10, 101), (1, 11, 100), (1, 11, 101), (2, 20, 200), (3, 30, 300)],
    );
}
