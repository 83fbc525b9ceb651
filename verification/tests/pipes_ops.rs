use std::task::{Context, Waker};

use spinachflow::lattice::MaxMerge;
use spinachflow::pipes::casts::{ExclMovePipeFromExclRefPipe, ExclRefFromSharedRefPipe, SharedMoveFromSharedRefPipe};
use spinachflow::pipes::chain::{ClonePipe, DebugPipe, LatticePipe, MapFilterPipe, MovePipe, NullPipe, Pipe, SplitPipe};
use spinachflow::pipes::impls::{CloneOp, DebugOp, LatticeOp, MapFilterOp, NullOp, SplitOp, TeeOp};
use spinachflow::pipes::{ExclMoveOp, ExclRefOp, SharedMoveOp, SharedRefOp, UnaryFn};

/// Halves even numbers and drops odd ones.
struct HalveEven;

impl<'a> UnaryFn<&'a u64> for HalveEven {
    type Output = Option<u64>;

    fn call_spec(&self, input: &'a u64) -> Option<u64> {
        self.call(input)
    }

    fn call(&self, input: &'a u64) -> Option<u64> {
        if *input % 2 == 0 { Some(*input / 2) } else { None }
    }
}

#[test]
fn pipes_null_op_completes_at_once() {
    let mut op = NullOp::<u64>::new();
    futures::executor::block_on(SharedRefOp::push(&op, &1));
    futures::executor::block_on(ExclRefOp::push(&mut op, &1));
    futures::executor::block_on(SharedMoveOp::push(&op, 1));
    futures::executor::block_on(ExclMoveOp::push(&mut op, 1));
}

#[test]
fn pipes_debug_op_records_each_item() {
    let mut op = DebugOp::new("seen", NullOp::<u64>::new());
    let _ = ExclRefOp::push(&mut op, &3);
    let _ = SharedMoveOp::push(&op, 4);
    assert_eq!(op.take_log(), vec!["seen: 3".to_owned(), "seen: 4".to_owned()]);
    assert!(op.take_log().is_empty());
}

#[test]
fn pipes_lattice_op_pushes_the_accumulated_value() {
    let inner = DebugOp::new("value", NullOp::<u64>::new());
    let mut op = LatticeOp::<MaxMerge<u64>, _>::new(2, inner);
    let _ = op.push(7);
    let _ = op.push(5);
    futures::executor::block_on(op.push(9));
    let _ = op;
}

#[test]
fn pipes_lattice_op_value_moves_up_only() {
    let mut op = LatticeOp::<MaxMerge<u64>, _>::new(2, CloneOp::new(ExclMovePipeFromSharedMovePipeHelper::new()));
    let _ = op.push(7);
    let _ = op.push(5);
    let _ = op;
}

/// An exclusive by-value operator made from a shared one.
struct ExclMovePipeFromSharedMovePipeHelper;

impl ExclMovePipeFromSharedMovePipeHelper {
    fn new() -> spinachflow::pipes::casts::ExclMovePipeFromSharedMovePipe<NullOp<u64>> {
        spinachflow::pipes::casts::ExclMovePipeFromSharedMovePipe(NullOp::new())
    }
}

#[test]
fn pipes_tee_op_pushes_into_both() {
    let tee = TeeOp::new(DebugOp::new("left", NullOp::<u64>::new()), DebugOp::new("right", NullOp::<u64>::new()));
    futures::executor::block_on(SharedRefOp::push(&tee, &8));
    let _ = tee;
}

#[test]
fn pipes_split_op_pushes_into_every_registered_operator() {
    let (tx, rx) = tokio::sync::mpsc::channel::<DebugOp<NullOp<u64>>>(8);
    let mut split = SplitOp::new(rx);
    futures::executor::block_on(ExclRefOp::push(&mut split, &1));
    tx.try_send(DebugOp::new("a", NullOp::new())).ok().unwrap();
    tx.try_send(DebugOp::new("b", NullOp::new())).ok().unwrap();
    let outs = futures::executor::block_on(ExclRefOp::push(&mut split, &2));
    assert_eq!(outs.len(), 2);
    let outs = futures::executor::block_on(ExclRefOp::push(&mut split, &3));
    assert_eq!(outs.len(), 2);
}

#[test]
fn pipes_map_filter_op_keeps_and_drops() {
    let mut op = MapFilterOp::new(HalveEven, NullOp::<u64>::new());
    assert_eq!(futures::executor::block_on(ExclRefOp::push(&mut op, &6)), Some(()));
    assert_eq!(futures::executor::block_on(ExclRefOp::push(&mut op, &5)), None);
    assert_eq!(futures::executor::block_on(SharedRefOp::push(&op, &4)), Some(()));
}

#[test]
fn pipes_casts_forward_to_the_inner_operator() {
    let shared = SharedMoveFromSharedRefPipe(DebugOp::new("s", NullOp::<u64>::new()));
    futures::executor::block_on(shared.push(1));
    assert_eq!(shared.0.take_log(), vec!["s: 1".to_owned()]);
    let mut excl = ExclRefFromSharedRefPipe(DebugOp::new("e", NullOp::<u64>::new()));
    futures::executor::block_on(excl.push(&2));
    assert_eq!(excl.0.take_log(), vec!["e: 2".to_owned()]);
    let mut mv = ExclMovePipeFromExclRefPipe(DebugOp::new("m", NullOp::<u64>::new()));
    futures::executor::block_on(mv.push(3));
    assert_eq!(mv.0.take_log(), vec!["m: 3".to_owned()]);
}

#[test]
fn chain_debug_pipe_records_and_forwards() {
    let mut p = DebugPipe::new("d", NullPipe::<u64>::new());
    futures::executor::block_on(Pipe::push(&mut p, &5));
    futures::executor::block_on(MovePipe::push(&mut p, 6));
    assert_eq!(p.take_log(), vec!["d: 5".to_owned(), "d: 6".to_owned()]);
}

#[test]
fn chain_lattice_pipe_forwards_the_joined_value() {
    let mut p = LatticePipe::<MaxMerge<u64>, _>::new(3, DebugPipe::new("v", NullPipe::<u64>::new()));
    futures::executor::block_on(p.push(1));
    futures::executor::block_on(p.push(8));
    let _ = p;
}

#[test]
fn chain_clone_and_map_filter_pipes() {
    let mut c = ClonePipe::new(DebugPipe::new("c", NullPipe::<u64>::new()));
    futures::executor::block_on(Pipe::push(&mut c, &2));
    let mut m = MapFilterPipe::new(HalveEven, DebugPipe::new("m", NullPipe::<u64>::new()));
    assert_eq!(futures::executor::block_on(Pipe::push(&mut m, &10)), Some(()));
    assert_eq!(futures::executor::block_on(Pipe::push(&mut m, &11)), None);
}

#[test]
fn chain_split_pipe_takes_in_new_pipes_before_each_push() {
    let (tx, rx) = tokio::sync::mpsc::channel::<NullPipe<u64>>(8);
    let mut split = SplitPipe::new(rx);
    assert!(futures::executor::block_on(Pipe::push(&mut split, &1)).is_empty());
    tx.try_send(NullPipe::new()).ok().unwrap();
    assert_eq!(futures::executor::block_on(Pipe::push(&mut split, &2)).len(), 1);
    tx.try_send(NullPipe::new()).ok().unwrap();
    assert_eq!(futures::executor::block_on(Pipe::push(&mut split, &3)).len(), 2);
    let _ = Context::from_waker(Waker::noop());
}
