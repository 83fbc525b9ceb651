//! Reading lines of standard input as deltas: the decision taken on each
//! read. The reading itself is done by the caller.
use vstd::prelude::*;
use crate::metadata::Order;
use crate::task::Poll;

verus! {

/// Lines of user input arrive in the order they were typed.
pub struct UserInputOrder;

impl Order for UserInputOrder {}

/// The outcome of one attempt to read a line.
pub enum LineRead {
    /// No line yet.
    Pending,
    /// A line, or `None` at the end of the input.
    Line(Option<String>),
    /// The read failed, with the error's text.
    Failed(String),
}

/// What to do after a read.
pub enum StdinStep {
    /// Return this outcome of the poll: a delta holding the one line, the
    /// end of the stream, or pending.
    Yield(Poll<Option<Vec<String>>>),
    /// Report the error and read again.
    Report(String),
}

/// The decision after one read of standard input: a line becomes a delta
/// holding it; the end of the input ends the stream; an error is reported
/// and the read is tried again.
pub fn stdin_step(read: LineRead) -> (r: StdinStep)
    ensures
        match read {
            LineRead::Pending => r == StdinStep::Yield(Poll::Pending),
            LineRead::Line(Some(s)) => r matches StdinStep::Yield(Poll::Ready(Some(v))) && v@ == seq![s],
            LineRead::Line(None) => r == StdinStep::Yield(Poll::Ready(None)),
            LineRead::Failed(e) => r == StdinStep::Report(e),
        },
{
    match read {
        LineRead::Pending => StdinStep::Yield(Poll::Pending),
        LineRead::Line(Some(s)) => StdinStep::Yield(Poll::Ready(Some(vec![s]))),
        LineRead::Line(None) => StdinStep::Yield(Poll::Ready(None)),
        LineRead::Failed(e) => StdinStep::Report(e),
    }
}

} // verus!
