use std::future::Future;
use std::pin::Pin;
use std::task::{Context, Waker};

use spinachflow::channel::drain_into;
use spinachflow::op::comp::{first_of, first_outcome};
use spinachflow::op::stdinop::{stdin_step, LineRead, StdinStep};
use spinachflow::op::tcpop::{tcp_step, FrameRead};
use spinachflow::op::util::sleep_yield_now;
use spinachflow::task::Poll;

#[test]
fn stdin_line_becomes_a_one_line_delta() {
    match stdin_step(LineRead::Line(Some("hello".to_owned()))) {
        StdinStep::Yield(Poll::Ready(Some(v))) => assert_eq!(v, vec!["hello".to_owned()]),
        _ => panic!("a line is yielded"),
    }
}

#[test]
fn stdin_end_and_pending_pass_through() {
    assert!(matches!(stdin_step(LineRead::Line(None)), StdinStep::Yield(Poll::Ready(None))));
    assert!(matches!(stdin_step(LineRead::Pending), StdinStep::Yield(Poll::Pending)));
}

#[test]
fn stdin_error_is_reported_and_read_again() {
    match stdin_step(LineRead::Failed("broken pipe".to_owned())) {
        StdinStep::Report(e) => assert_eq!(e, "broken pipe"),
        _ => panic!("an error is reported"),
    }
}

#[test]
fn tcp_parsed_frame_becomes_a_delta() {
    let step = tcp_step(FrameRead::Parsed(42u64));
    assert!(step.report.is_none());
    match step.out {
        Poll::Ready(Some(v)) => assert_eq!(v, vec![42]),
        _ => panic!("a parsed value is yielded"),
    }
}

#[test]
fn tcp_closed_stream_ends_the_flow() {
    let step = tcp_step(FrameRead::<u64>::Closed);
    assert!(matches!(step.out, Poll::Ready(None)));
    assert!(step.report.is_none());
    assert!(tcp_step(FrameRead::<u64>::Pending).out.is_pending());
}

#[test]
fn tcp_bad_frames_are_reported_and_dropped() {
    let read = tcp_step(FrameRead::<u64>::ReadFailed("reset".to_owned()));
    assert!(read.out.is_pending());
    assert_eq!(read.report, Some("reset".to_owned()));
    let parse = tcp_step(FrameRead::<u64>::ParseFailed("bad json".to_owned()));
    assert!(parse.out.is_pending());
    assert_eq!(parse.report, Some("bad json".to_owned()));
}

#[test]
fn first_of_takes_the_first_element() {
    assert_eq!(first_of(vec![3, 4, 5]), Some(3));
    assert_eq!(first_of(Vec::<u64>::new()), None);
}

#[test]
fn first_outcome_gives_the_first_output_or_waits() {
    assert!(matches!(first_outcome(Some(Some(vec![7, 8]))), Poll::Ready(Some(7))));
    assert!(matches!(first_outcome(Some(Some(Vec::<u64>::new()))), Poll::Ready(None)));
    assert!(matches!(first_outcome::<u64>(Some(None)), Poll::Ready(None)));
    assert!(first_outcome::<u64>(None).is_pending());
}

#[test]
fn drain_into_appends_queued_messages_in_order() {
    let (tx, mut rx) = tokio::sync::mpsc::channel::<u64>(8);
    let mut out = vec![1];
    drain_into(&mut rx, &mut out);
    assert_eq!(out, vec![1]);
    tx.try_send(2).unwrap();
    tx.try_send(3).unwrap();
    drain_into(&mut rx, &mut out);
    assert_eq!(out, vec![1, 2, 3]);
}

#[test]
fn op_sleep_yield_now_is_pending_once_then_ready() {
    let mut ctx = Context::from_waker(Waker::noop());
    let mut s = sleep_yield_now();
    assert!(Pin::new(&mut s).poll(&mut ctx).is_pending());
    assert!(Pin::new(&mut s).poll(&mut ctx).is_ready());
}
