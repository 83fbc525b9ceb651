use std::future::Future;
use std::pin::Pin;
use std::task::{Context, Waker};

use spinachflow::func::PureFn;
use spinachflow::lattice::MaxMerge;
use spinachflow::op2::debugop::DebugOp;
use spinachflow::op2::handoffop::{handoff_op, Handoff};
use spinachflow::op2::latticeop::LatticeOp;
use spinachflow::op2::mapfilterop::MapFilterMoveOp;
use spinachflow::op2::nullop::NullOp;
use spinachflow::op2::op::{MovePullOp, MovePushOp, RefPullOp};
use spinachflow::op2::staticcomp::StaticComp;
use spinachflow::op2::types::DF;
use spinachflow::op2::util::sleep_yield_now;
use spinachflow::task::Poll;

fn ready<T>(p: Poll<Option<T>>) -> Option<Option<T>> {
    match p {
        Poll::Ready(x) => Some(x),
        Poll::Pending => None,
    }
}

struct KeepEven;

impl PureFn for KeepEven {
    type Indomain = u64;
    type Outdomain = Option<u64>;

    fn call_spec(&self, item: u64) -> Option<u64> {
        self.call(item)
    }

    fn call(&self, item: u64) -> Option<u64> {
        if item % 2 == 0 { Some(item / 2) } else { None }
    }
}

#[test]
fn handoff_receive_gets_what_was_sent() {
    let mut ctx = Context::from_waker(Waker::noop());
    let mut h = Handoff::<u64>::new();
    assert!(h.poll_recv(&mut ctx).is_pending());
    let mut slot = Some(7);
    assert!(h.poll_send(&mut slot, &mut ctx).is_ready());
    assert_eq!(slot, None);
    assert_eq!(ready(h.poll_recv(&mut ctx)), Some(Some(7)));
    assert!(h.poll_recv(&mut ctx).is_pending());
}

#[test]
fn handoff_full_buffer_keeps_the_second_item_in_its_slot() {
    let mut ctx = Context::from_waker(Waker::noop());
    let mut h = Handoff::<u64>::new();
    let mut first = Some(1);
    let mut second = Some(2);
    assert!(h.poll_send(&mut first, &mut ctx).is_ready());
    assert!(h.poll_send(&mut second, &mut ctx).is_pending());
    assert_eq!(second, Some(2));
    assert!(h.conflicts(&second));
    assert_eq!(ready(h.poll_recv(&mut ctx)), Some(Some(1)));
    assert!(h.poll_send(&mut second, &mut ctx).is_ready());
    assert_eq!(ready(h.poll_recv(&mut ctx)), Some(Some(2)));
}

#[test]
fn handoff_op_passes_items_from_push_to_pull() {
    let mut ctx = Context::from_waker(Waker::noop());
    let (mut push, mut pull) = handoff_op::<DF, u64>();
    assert!(pull.poll_next(&mut ctx).is_pending());
    let mut send = push.push(5);
    assert!(Pin::new(&mut send).poll(&mut ctx).is_ready());
    assert_eq!(ready(pull.poll_next(&mut ctx)), Some(Some(5)));
}

#[test]
fn op2_debug_op_records_one_line_per_item() {
    let mut op = DebugOp::new("tag", NullOp::<u64>::new());
    let _ = MovePushOp::push(&mut op, 3);
    let _ = MovePushOp::push(&mut op, 4);
    assert_eq!(op.take_log(), vec!["tag: 3".to_owned(), "tag: 4".to_owned()]);
    assert!(op.take_log().is_empty());
}

#[test]
fn op2_lattice_op_yields_the_value_even_after_upstream_ends() {
    let mut ctx = Context::from_waker(Waker::noop());
    let (mut push, pull) = handoff_op::<DF, u64>();
    let mut op = LatticeOp::<_, MaxMerge<u64>>::new(pull, 3);
    match RefPullOp::poll_next(&mut op, &mut ctx) {
        Poll::Ready(Some(v)) => assert_eq!(*v, 3),
        _ => panic!("the value is always handed out"),
    }
    let mut send = push.push(9);
    assert!(Pin::new(&mut send).poll(&mut ctx).is_ready());
    match RefPullOp::poll_next(&mut op, &mut ctx) {
        Poll::Ready(Some(v)) => assert_eq!(*v, 9),
        _ => panic!("the value is always handed out"),
    }
}

#[test]
fn op2_map_filter_pull_maps_and_drops() {
    let mut ctx = Context::from_waker(Waker::noop());
    let (mut push, pull) = handoff_op::<DF, u64>();
    let mut op = MapFilterMoveOp::<_, _, u64>::new(pull, KeepEven);
    let mut send = push.push(8);
    assert!(Pin::new(&mut send).poll(&mut ctx).is_ready());
    assert_eq!(ready(op.poll_next(&mut ctx)), Some(Some(4)));
    let mut send = push.push(5);
    assert!(Pin::new(&mut send).poll(&mut ctx).is_ready());
    assert!(op.poll_next(&mut ctx).is_pending());
}

#[test]
fn op2_static_comp_moves_items_from_pull_to_push() {
    let mut ctx = Context::from_waker(Waker::noop());
    let (mut push_in, pull) = handoff_op::<DF, u64>();
    let (push_out, mut pull_out) = handoff_op::<DF, u64>();
    let mut comp = StaticComp::new(pull, push_out);
    assert!(comp.step_move(&mut ctx).is_pending());
    let mut send = push_in.push(12);
    assert!(Pin::new(&mut send).poll(&mut ctx).is_ready());
    match comp.step_move(&mut ctx) {
        Poll::Ready(Some(mut fb)) => assert!(Pin::new(&mut fb).poll(&mut ctx).is_ready()),
        _ => panic!("an item was waiting"),
    }
    assert_eq!(ready(pull_out.poll_next(&mut ctx)), Some(Some(12)));
}

#[test]
fn op2_sleep_yield_now_is_pending_once() {
    let mut ctx = Context::from_waker(Waker::noop());
    let mut s = sleep_yield_now();
    assert!(Pin::new(&mut s).poll(&mut ctx).is_pending());
    assert!(Pin::new(&mut s).poll(&mut ctx).is_ready());
}

#[test]
fn op2_reference_then_clone_delivers_a_clone() {
    let mut ctx = Context::from_waker(Waker::noop());
    let (push, mut pull) = handoff_op::<DF, u64>();
    let mut op = spinachflow::op2::referenceop::ReferenceOp::new(spinachflow::op2::cloneop::CloneOp::new(push));
    let mut send = MovePushOp::push(&mut op, 21);
    assert!(Pin::new(&mut send).poll(&mut ctx).is_ready());
    assert_eq!(ready(pull.poll_next(&mut ctx)), Some(Some(21)));
}

/// An item whose `Debug` impl always reports an error.
struct Unprintable;

impl std::fmt::Debug for Unprintable {
    fn fmt(&self, _f: &mut std::fmt::Formatter<'_>) -> std::fmt::Result {
        Err(std::fmt::Error)
    }
}

#[test]
fn op2_debug_op_records_no_line_where_debug_fails() {
    let mut op = DebugOp::new("tag", NullOp::<Unprintable>::new());
    let _ = MovePushOp::push(&mut op, Unprintable);
    assert!(op.take_log().is_empty());
}
