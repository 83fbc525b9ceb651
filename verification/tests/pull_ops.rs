use std::rc::Rc;
use std::task::{Context, Waker};

use spinachflow::lattice::MaxMerge;
use spinachflow::pull::{ChannelOp, CloneOp, LatticeOp, LatticeOp2, MapFilterOp, MoveNext, MovePullOp, NoOp, RefPullOp};
use spinachflow::task::Poll;

fn ready_ref<T: Copy>(p: Poll<Option<&T>>) -> Option<Option<T>> {
    match p {
        Poll::Ready(x) => Some(x.copied()),
        Poll::Pending => None,
    }
}

fn ready<T>(p: Poll<Option<T>>) -> Option<Option<T>> {
    match p {
        Poll::Ready(x) => Some(x),
        Poll::Pending => None,
    }
}

#[test]
fn pull_noop_is_always_pending() {
    let mut ctx = Context::from_waker(Waker::noop());
    let mut op = NoOp::<u64>::new();
    assert!(MovePullOp::poll_next(&mut op, &mut ctx).is_pending());
    assert!(RefPullOp::poll_next(&mut op, &mut ctx).is_pending());
}

#[test]
fn pull_channel_yields_sent_items_in_order() {
    let mut ctx = Context::from_waker(Waker::noop());
    let (tx, rx) = tokio::sync::mpsc::channel::<u64>(4);
    let mut op = ChannelOp::new(rx);
    assert!(op.poll_next(&mut ctx).is_pending());
    tx.try_send(1).unwrap();
    tx.try_send(2).unwrap();
    assert_eq!(ready(op.poll_next(&mut ctx)), Some(Some(1)));
    assert_eq!(ready(op.poll_next(&mut ctx)), Some(Some(2)));
    drop(tx);
    assert_eq!(ready(op.poll_next(&mut ctx)), Some(None));
}

#[test]
fn pull_lattice_op_accumulates_and_ends_with_upstream() {
    let mut ctx = Context::from_waker(Waker::noop());
    let (tx, rx) = tokio::sync::mpsc::channel::<u64>(4);
    let mut op = LatticeOp::<_, MaxMerge<u64>>::new(ChannelOp::new(rx), 0);
    assert_eq!(ready_ref(op.poll_next(&mut ctx)), Some(Some(0)));
    tx.try_send(5).unwrap();
    assert_eq!(ready_ref(op.poll_next(&mut ctx)), Some(Some(5)));
    tx.try_send(3).unwrap();
    assert_eq!(ready_ref(op.poll_next(&mut ctx)), Some(Some(5)));
    assert_eq!(ready_ref(op.poll_next(&mut ctx)), Some(Some(5)));
    drop(tx);
    assert_eq!(ready_ref(op.poll_next(&mut ctx)), Some(None));
}

#[test]
fn pull_clone_op_hands_out_clones() {
    let mut ctx = Context::from_waker(Waker::noop());
    let (tx, rx) = tokio::sync::mpsc::channel::<u64>(4);
    let lattice = LatticeOp::<_, MaxMerge<u64>>::new(ChannelOp::new(rx), 2);
    let mut op = CloneOp::new(lattice);
    tx.try_send(8).unwrap();
    assert_eq!(ready(op.poll_next(&mut ctx)), Some(Some(8)));
    drop(tx);
    assert_eq!(ready(op.poll_next(&mut ctx)), Some(None));
}

#[test]
fn pull_map_filter_maps_and_skips_dropped_items() {
    let mut ctx = Context::from_waker(Waker::noop());
    let (tx, rx) = tokio::sync::mpsc::channel::<u64>(4);
    let mut op = MapFilterOp::new(ChannelOp::new(rx), |x: u64| if x % 2 == 0 { Some(x * 10) } else { None });
    assert!(op.poll_next(&mut ctx).is_pending());
    tx.try_send(2).unwrap();
    tx.try_send(3).unwrap();
    assert_eq!(ready(op.poll_next(&mut ctx)), Some(Some(20)));
    assert!(op.poll_next(&mut ctx).is_pending());
    tx.try_send(4).unwrap();
    assert_eq!(ready(op.poll_next(&mut ctx)), Some(Some(40)));
    drop(tx);
    assert_eq!(ready(op.poll_next(&mut ctx)), Some(None));
}

#[test]
fn pull_move_next_completes_with_the_next_item() {
    let (tx, rx) = tokio::sync::mpsc::channel::<u64>(4);
    let mut op = ChannelOp::new(rx);
    tx.try_send(11).unwrap();
    let got = futures::executor::block_on(MoveNext::new(&mut op));
    assert_eq!(got, Some(11));
    drop(tx);
    let end = futures::executor::block_on(MoveNext::new(&mut op));
    assert_eq!(end, None);
}

#[test]
fn pull_lattice_op2_shares_its_value_between_clones() {
    let mut ctx = Context::from_waker(Waker::noop());
    let (tx, rx) = tokio::sync::mpsc::channel::<u64>(4);
    let mut first = LatticeOp2::<_, MaxMerge<u64>>::new(ChannelOp::new(rx), 1);
    let mut second = first.clone();
    tx.try_send(6).unwrap();
    let a = match first.poll_next(&mut ctx) {
        Poll::Ready(Some(rc)) => rc,
        _ => panic!("a lattice handle is always ready"),
    };
    assert_eq!(*a.borrow(), 6);
    let b = match second.poll_next(&mut ctx) {
        Poll::Ready(Some(rc)) => rc,
        _ => panic!("a lattice handle is always ready"),
    };
    assert!(Rc::ptr_eq(&a, &b));
    tx.try_send(4).unwrap();
    let _ = second.poll_next(&mut ctx);
    assert_eq!(*a.borrow(), 6);
    drop(tx);
    match first.poll_next(&mut ctx) {
        Poll::Ready(Some(rc)) => assert_eq!(*rc.borrow(), 6),
        _ => panic!("a lattice handle stays open after upstream ends"),
    }
}

struct CountWakes(std::sync::atomic::AtomicUsize);

impl std::task::Wake for CountWakes {
    fn wake(self: std::sync::Arc<Self>) {
        self.0.fetch_add(1, std::sync::atomic::Ordering::SeqCst);
    }

    fn wake_by_ref(self: &std::sync::Arc<Self>) {
        self.0.fetch_add(1, std::sync::atomic::Ordering::SeqCst);
    }
}

#[test]
fn pull_lattice_op2_new_delta_wakes_the_other_handles() {
    let counter = std::sync::Arc::new(CountWakes(std::sync::atomic::AtomicUsize::new(0)));
    let waker = Waker::from(counter.clone());
    let mut other_ctx = Context::from_waker(&waker);
    let mut ctx = Context::from_waker(Waker::noop());
    let (tx, rx) = tokio::sync::mpsc::channel::<u64>(4);
    let mut first = LatticeOp2::<_, MaxMerge<u64>>::new(ChannelOp::new(rx), 0);
    let mut second = first.clone();
    let _ = second.poll_next(&mut other_ctx);
    assert_eq!(counter.0.load(std::sync::atomic::Ordering::SeqCst), 0);
    let _ = first.poll_next(&mut ctx);
    assert_eq!(counter.0.load(std::sync::atomic::Ordering::SeqCst), 0);
    tx.try_send(3).unwrap();
    let _ = first.poll_next(&mut ctx);
    assert_eq!(counter.0.load(std::sync::atomic::Ordering::SeqCst), 1);
}

#[test]
fn pull_lattice_op2_merges_after_a_held_borrow_is_released() {
    let mut ctx = Context::from_waker(Waker::noop());
    let (tx, rx) = tokio::sync::mpsc::channel::<u64>(4);
    let mut first = LatticeOp2::<_, MaxMerge<u64>>::new(ChannelOp::new(rx), 1);
    let mut second = first.clone();
    let shared = match first.poll_next(&mut ctx) {
        Poll::Ready(Some(rc)) => rc,
        _ => panic!("a lattice handle is always ready"),
    };
    tx.try_send(9).unwrap();
    {
        // A reader holds the value while another handle polls a new delta:
        // the delta waits instead of panicking.
        let held = shared.borrow();
        let _ = second.poll_next(&mut ctx);
        assert_eq!(*held, 1);
    }
    // Once the borrow is released, that handle's next poll merges the
    // waiting delta.
    let _ = first.poll_next(&mut ctx);
    assert_eq!(*shared.borrow(), 1);
    let _ = second.poll_next(&mut ctx);
    assert_eq!(*shared.borrow(), 9);
}

#[test]
fn merge_backlog_merges_every_held_back_delta_in_order() {
    let mut cur: Vec<u64> = vec![1];
    let mut backlog: Vec<Vec<u64>> = vec![vec![2, 3], vec![], vec![4]];
    spinachflow::pull::latticeop2::merge_backlog::<spinachflow::lattice::SetUnionRepr<u64>>(&mut cur, &mut backlog);
    assert_eq!(cur, vec![1, 2, 3, 4]);
    assert!(backlog.is_empty());
    let mut top: u64 = 5;
    let mut more: Vec<u64> = vec![3, 9, 7];
    spinachflow::pull::latticeop2::merge_backlog::<MaxMerge<u64>>(&mut top, &mut more);
    assert_eq!(top, 9);
    assert!(more.is_empty());
}
