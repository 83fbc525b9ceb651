//! Reading length-delimited JSON frames from a TCP stream as deltas: the
//! decision taken on each frame. Reading and parsing are done by the
//! caller.
use vstd::prelude::*;
use crate::task::Poll;

verus! {

/// The outcome of one attempt to read and parse a frame.
pub enum FrameRead<T> {
    /// No frame yet.
    Pending,
    /// The stream has ended.
    Closed,
    /// Reading a frame failed, with the error's text.
    ReadFailed(String),
    /// A frame was read and parsed into a value.
    Parsed(T),
    /// A frame was read but did not parse, with the error's text.
    ParseFailed(String),
}

/// What a poll returns after a frame, and the error to report, if any.
pub struct TcpStep<T> {
    pub out: Poll<Option<Vec<T>>>,
    pub report: Option<String>,
}

/// The decision after one frame: a parsed value becomes a delta holding
/// it; the end of the stream ends the flow; a frame that could not be read
/// or parsed is reported and dropped, and the poll is pending.
pub fn tcp_step<T>(read: FrameRead<T>) -> (r: TcpStep<T>)
    ensures
        match read {
            FrameRead::Pending => r.out is Pending && r.report is None,
            FrameRead::Closed => r.out == Poll::<Option<Vec<T>>>::Ready(None) && r.report is None,
            FrameRead::ReadFailed(e) => r.out is Pending && r.report == Some(e),
            FrameRead::Parsed(x) => r.out matches Poll::Ready(Some(v)) && v@ == seq![x]
                && r.report is None,
            FrameRead::ParseFailed(e) => r.out is Pending && r.report == Some(e),
        },
{
    match read {
        FrameRead::Pending => TcpStep { out: Poll::Pending, report: None },
        FrameRead::Closed => TcpStep { out: Poll::Ready(None), report: None },
        FrameRead::ReadFailed(e) => TcpStep { out: Poll::Pending, report: Some(e) },
        FrameRead::Parsed(x) => TcpStep { out: Poll::Ready(Some(vec![x])), report: None },
        FrameRead::ParseFailed(e) => TcpStep { out: Poll::Pending, report: Some(e) },
    }
}

} // verus!
