//! The decisions of the operators that release items on a timer interval.
//! Each core holds what the operator keeps besides its timer, and takes
//! whether the timer has elapsed as an argument; it tells the caller, who
//! owns the timer, when to restart it.
use vstd::prelude::*;
use std::collections::VecDeque;
use std::task::Context;
use std::time::Duration;
use crate::task::Poll;
use super::op::PullOp;

verus! {

/// The core of an operator which releases individual items on a timer
/// interval. Items are implicitly buffered by stalling the pipeline: while
/// the timer runs, the upstream operator is not polled.
pub struct BlockingIntervalCore<O: PullOp> {
    op: O,
    interval: Duration,
}

impl<O: PullOp> BlockingIntervalCore<O> {
    pub closed spec fn op_spec(&self) -> O {
        self.op
    }

    pub closed spec fn interval_spec(&self) -> Duration {
        self.interval
    }

    pub fn new(op: O, interval: Duration) -> (r: Self)
        ensures
            r.op_spec() == op,
            r.interval_spec() == interval,
    {
        BlockingIntervalCore { op, interval }
    }

    /// The interval the timer runs for.
    pub fn interval(&self) -> (r: Duration)
        ensures
            r == self.interval_spec(),
    {
        self.interval
    }

    /// One pull, once the timer has been polled and found `elapsed` or
    /// not. While it runs the pull is pending and upstream is untouched;
    /// once it has elapsed, upstream is pulled and its outcome handed on.
    /// The second result says whether to restart the timer: after an item.
    pub fn poll_after_timer(&mut self, elapsed: bool, ctx: &mut Context<'_>) -> (r: (
        Poll<Option<O::Outdomain>>,
        bool,
    ))
        ensures
            final(self).interval_spec() == old(self).interval_spec(),
            !elapsed ==> r.0 is Pending && !r.1 && final(self).op_spec() == old(self).op_spec(),
            elapsed ==> O::pulled(old(self).op_spec(), final(self).op_spec(), r.0) && r.1 == (
            r.0 matches Poll::Ready(Some(_))),
    {
        if elapsed {
            let out = self.op.poll_next(ctx);
            let restart = match out {
                Poll::Ready(Some(_)) => true,
                _ => false,
            };
            (out, restart)
        } else {
            (Poll::Pending, false)
        }
    }
}

/// What a leaky interval operator gives, and whether it restarts its
/// timer, after upstream gave `r` and the timer was `elapsed` or not: an
/// item is released if the timer has elapsed and dropped otherwise; the
/// end of upstream and pending are handed on.
pub open spec fn leaky_outcome<T>(r: Poll<Option<T>>, elapsed: bool) -> (Poll<Option<T>>, bool) {
    match r {
        Poll::Ready(Some(x)) => if elapsed {
            (Poll::Ready(Some(x)), true)
        } else {
            (Poll::Pending, false)
        },
        _ => (r, false),
    }
}

/// The core of an operator which releases individual items on a timer
/// interval. An item that arrives while the timer runs is dropped, so this
/// only suits reactive flows, where a later value supersedes it.
pub struct LeakyIntervalCore<O: PullOp> {
    op: O,
    interval: Duration,
}

impl<O: PullOp> LeakyIntervalCore<O> {
    pub closed spec fn op_spec(&self) -> O {
        self.op
    }

    pub closed spec fn interval_spec(&self) -> Duration {
        self.interval
    }

    pub fn new(op: O, interval: Duration) -> (r: Self)
        ensures
            r.op_spec() == op,
            r.interval_spec() == interval,
    {
        LeakyIntervalCore { op, interval }
    }

    /// The interval the timer runs for.
    pub fn interval(&self) -> (r: Duration)
        ensures
            r == self.interval_spec(),
    {
        self.interval
    }

    /// One pull, once the timer has been polled and found `elapsed` or
    /// not: upstream is always pulled, and what it gave is decided by
    /// `leaky_outcome`.
    pub fn poll_after_timer(&mut self, elapsed: bool, ctx: &mut Context<'_>) -> (r: (
        Poll<Option<O::Outdomain>>,
        bool,
    ))
        ensures
            final(self).interval_spec() == old(self).interval_spec(),
            exists|u: Poll<Option<O::Outdomain>>|
                #[trigger] O::pulled(old(self).op_spec(), final(self).op_spec(), u) && r
                    == leaky_outcome(u, elapsed),
    {
        let ghost pre = *self;
        let u = self.op.poll_next(ctx);
        let ghost ug = u;
        let r = match u {
            Poll::Ready(Some(item)) => if elapsed {
                (Poll::Ready(Some(item)), true)
            } else {
                (Poll::Pending, false)
            },
            Poll::Ready(None) => (Poll::Ready(None), false),
            Poll::Pending => (Poll::Pending, false),
        };
        assert(O::pulled(pre.op_spec(), self.op_spec(), ug));
        r
    }
}

/// What a batching operator buffers after an upstream poll gave `r`.
pub open spec fn buffered_after<T>(buffer: Seq<T>, r: Poll<Option<T>>) -> Seq<T> {
    match r {
        Poll::Ready(Some(x)) => buffer.push(x),
        _ => buffer,
    }
}

/// What a batching operator reports when it has nothing to release: the
/// end of upstream, or pending.
pub open spec fn upstream_state<T>(r: Poll<Option<T>>) -> Poll<Option<T>> {
    match r {
        Poll::Ready(None) => Poll::Ready(None),
        _ => Poll::Pending,
    }
}

/// What a batching operator gives, the queue it keeps, and whether it
/// restarts its timer, from the queue `buffer`, after upstream gave `r`
/// and the timer was `elapsed` or not. Once the timer has elapsed the
/// front of the queue is released, one item per pull; while items are
/// queued the stream never ends; with an empty queue the end of upstream
/// or pending is reported, and an elapsed timer restarts.
pub open spec fn batching_outcome<T>(buffer: Seq<T>, r: Poll<Option<T>>, elapsed: bool) -> (
    Poll<Option<T>>,
    Seq<T>,
    bool,
) {
    let queued = buffered_after(buffer, r);
    if queued.len() > 0 {
        if elapsed {
            (Poll::Ready(Some(queued[0])), queued.drop_first(), false)
        } else {
            (Poll::Pending, queued, false)
        }
    } else {
        (upstream_state(r), queued, elapsed)
    }
}

/// The core of an operator which releases batches of items on a timer
/// interval. Items are buffered in a queue; once the timer elapses, the
/// buffered items become available one per pull, in the order they
/// arrived.
#[verifier::reject_recursive_types(T)]
pub struct BatchingCore<O: PullOp<Outdomain = T>, T> {
    op: O,
    interval: Duration,
    buffer: VecDeque<T>,
}

impl<O: PullOp<Outdomain = T>, T> BatchingCore<O, T> {
    pub closed spec fn op_spec(&self) -> O {
        self.op
    }

    pub closed spec fn interval_spec(&self) -> Duration {
        self.interval
    }

    /// The items received and not yet released, oldest first.
    pub closed spec fn buffer_spec(&self) -> Seq<T> {
        self.buffer@
    }

    pub fn new(op: O, interval: Duration) -> (r: Self)
        ensures
            r.op_spec() == op,
            r.interval_spec() == interval,
            r.buffer_spec() == Seq::<T>::empty(),
    {
        BatchingCore { op, interval, buffer: VecDeque::new() }
    }

    /// The interval the timer runs for.
    pub fn interval(&self) -> (r: Duration)
        ensures
            r == self.interval_spec(),
    {
        self.interval
    }

    /// One pull, once the timer has been polled and found `elapsed` or
    /// not: upstream is pulled, its item queued, and the rest decided by
    /// `batching_outcome`.
    pub fn poll_after_timer(&mut self, elapsed: bool, ctx: &mut Context<'_>) -> (r: (
        Poll<Option<T>>,
        bool,
    ))
        ensures
            final(self).interval_spec() == old(self).interval_spec(),
            exists|u: Poll<Option<T>>|
                #[trigger] O::pulled(old(self).op_spec(), final(self).op_spec(), u) && (
                r.0,
                final(self).buffer_spec(),
                r.1,
            ) == batching_outcome(old(self).buffer_spec(), u, elapsed),
    {
        let ghost pre = *self;
        let u = self.op.poll_next(ctx);
        let ghost ug = u;
        let upstream = match u {
            Poll::Ready(Some(item)) => {
                self.buffer.push_back(item);
                Poll::Pending
            },
            Poll::Ready(None) => Poll::Ready(None),
            Poll::Pending => Poll::Pending,
        };
        let ghost queued = self.buffer@;
        assert(queued == buffered_after(pre.buffer_spec(), ug));
        let r = if self.buffer.len() > 0 {
            if elapsed {
                match self.buffer.pop_front() {
                    Some(item) => {
                        assert(self.buffer@ =~= queued.drop_first());
                        (Poll::Ready(Some(item)), false)
                    },
                    None => (Poll::Pending, false),
                }
            } else {
                (Poll::Pending, false)
            }
        } else {
            (upstream, elapsed)
        };
        assert(O::pulled(pre.op_spec(), self.op_spec(), ug));
        r
    }
}

} // verus!
