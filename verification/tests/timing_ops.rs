use std::task::{Context, Waker};
use std::time::Duration;

use spinachflow::op::flow::DF;
use spinachflow::op::op::{Op, PullOp};
use spinachflow::op::timingop::{BatchingCore, BlockingIntervalCore, LeakyIntervalCore};
use spinachflow::task::Poll;

/// A source that plays back a script of pull outcomes, then ends.
struct Script {
    steps: Vec<Poll<Option<u64>>>,
    pulls: usize,
}

fn script(steps: Vec<Poll<Option<u64>>>) -> Script {
    Script { steps, pulls: 0 }
}

impl Op for Script {}

impl PullOp for Script {
    type Outflow = DF<u64>;
    type Outdomain = u64;

    fn pulled(_pre: Self, _post: Self, _out: Poll<Option<u64>>) -> bool {
        true
    }

    fn poll_next(&mut self, _ctx: &mut Context<'_>) -> Poll<Option<u64>> {
        self.pulls += 1;
        if self.steps.is_empty() {
            Poll::Ready(None)
        } else {
            self.steps.remove(0)
        }
    }
}

fn ready<T>(p: Poll<Option<T>>) -> Option<Option<T>> {
    match p {
        Poll::Ready(x) => Some(x),
        Poll::Pending => None,
    }
}

const TICK: Duration = Duration::from_millis(40);

#[test]
fn batching_op_releases_buffered_items_in_order() {
    let mut ctx = Context::from_waker(Waker::noop());
    let mut op = BatchingCore::new(
        script(vec![Poll::Ready(Some(1)), Poll::Ready(Some(2)), Poll::Pending, Poll::Pending, Poll::Pending]),
        TICK,
    );
    let (out, restart) = op.poll_after_timer(false, &mut ctx);
    assert!(out.is_pending() && !restart);
    let (out, restart) = op.poll_after_timer(false, &mut ctx);
    assert!(out.is_pending() && !restart);
    let (out, restart) = op.poll_after_timer(true, &mut ctx);
    assert_eq!(ready(out), Some(Some(1)));
    assert!(!restart);
    let (out, restart) = op.poll_after_timer(true, &mut ctx);
    assert_eq!(ready(out), Some(Some(2)));
    assert!(!restart);
    // Nothing queued and the timer elapsed: pending, and the timer restarts.
    let (out, restart) = op.poll_after_timer(true, &mut ctx);
    assert!(out.is_pending() && restart);
}

#[test]
fn batching_op_keeps_buffered_items_past_the_end_of_upstream() {
    let mut ctx = Context::from_waker(Waker::noop());
    let mut op = BatchingCore::new(script(vec![Poll::Ready(Some(7)), Poll::Ready(Some(8))]), TICK);
    assert!(op.poll_after_timer(false, &mut ctx).0.is_pending());
    assert!(op.poll_after_timer(false, &mut ctx).0.is_pending());
    // Upstream has ended, but two items are still queued.
    assert!(op.poll_after_timer(false, &mut ctx).0.is_pending());
    assert_eq!(ready(op.poll_after_timer(true, &mut ctx).0), Some(Some(7)));
    assert_eq!(ready(op.poll_after_timer(true, &mut ctx).0), Some(Some(8)));
    let (out, restart) = op.poll_after_timer(true, &mut ctx);
    assert_eq!(ready(out), Some(None));
    assert!(restart);
}

#[test]
fn batching_op_reports_the_end_with_an_empty_queue() {
    let mut ctx = Context::from_waker(Waker::noop());
    let mut op = BatchingCore::new(script(vec![]), TICK);
    let (out, restart) = op.poll_after_timer(false, &mut ctx);
    assert_eq!(ready(out), Some(None));
    assert!(!restart);
    assert_eq!(op.interval(), TICK);
}

#[test]
fn blocking_interval_op_holds_items_until_the_timer() {
    let mut ctx = Context::from_waker(Waker::noop());
    let mut op = BlockingIntervalCore::new(script(vec![Poll::Ready(Some(1)), Poll::Pending]), TICK);
    let (out, restart) = op.poll_after_timer(false, &mut ctx);
    assert!(out.is_pending() && !restart);
    let (out, restart) = op.poll_after_timer(true, &mut ctx);
    assert_eq!(ready(out), Some(Some(1)));
    assert!(restart);
    let (out, restart) = op.poll_after_timer(true, &mut ctx);
    assert!(out.is_pending() && !restart);
    let (out, restart) = op.poll_after_timer(true, &mut ctx);
    assert_eq!(ready(out), Some(None));
    assert!(!restart);
    assert_eq!(op.interval(), TICK);
}

#[test]
fn blocking_interval_op_pulls_only_once_the_timer_elapsed() {
    let mut ctx = Context::from_waker(Waker::noop());
    let mut op = BlockingIntervalCore::new(script(vec![Poll::Ready(Some(4))]), TICK);
    for _ in 0..3 {
        let (out, restart) = op.poll_after_timer(false, &mut ctx);
        assert!(out.is_pending() && !restart);
    }
    // The item was not pulled while the timer ran.
    assert_eq!(ready(op.poll_after_timer(true, &mut ctx).0), Some(Some(4)));
}

#[test]
fn leaky_interval_op_drops_items_before_the_timer() {
    let mut ctx = Context::from_waker(Waker::noop());
    let mut op = LeakyIntervalCore::new(
        script(vec![Poll::Ready(Some(1)), Poll::Pending, Poll::Ready(Some(2))]),
        TICK,
    );
    let (out, restart) = op.poll_after_timer(false, &mut ctx);
    assert!(out.is_pending() && !restart);
    let (out, restart) = op.poll_after_timer(true, &mut ctx);
    assert!(out.is_pending() && !restart);
    let (out, restart) = op.poll_after_timer(true, &mut ctx);
    assert_eq!(ready(out), Some(Some(2)));
    assert!(restart);
    let (out, restart) = op.poll_after_timer(false, &mut ctx);
    assert_eq!(ready(out), Some(None));
    assert!(!restart);
    assert_eq!(op.interval(), TICK);
}
