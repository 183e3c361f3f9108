//! What happens on the stream, as the caller reports it, and the reader's
//! rule for each frame.

use vstd::prelude::*;

verus! {

/// How an attempt to write a frame on the stream ended.
#[derive(Clone, Copy, Debug, PartialEq, Eq, Structural)]
pub enum WriteOutcome {
    /// The frame is on the wire.
    Written,
    /// The write failed; the stream has been shut down in both directions.
    Failed,
    /// There was no stream to write on.
    NoConnection,
}

/// What a read on the stream returned.
#[derive(Debug, PartialEq, Eq)]
pub enum ReadEvent {
    /// A frame of binary data.
    Binary(Vec<u8>),
    /// A frame of another kind: text, ping, pong or close.
    Other,
    /// The read failed.
    Failed,
}

/// What the reader does after a read.
#[derive(Debug, PartialEq, Eq)]
pub enum ReaderStep {
    /// Decode the payload and hand the message to the inbound queue, then
    /// read on.
    Forward(Vec<u8>),
    /// Read on.
    Skip,
    /// End the reader: the connection is lost.
    Stop,
}

/// Mathematical value of a [`ReaderStep`].
pub enum ReaderStepView {
    Forward(Seq<u8>),
    Skip,
    Stop,
}

impl View for ReaderStep {
    type V = ReaderStepView;

    open spec fn view(&self) -> ReaderStepView {
        match self {
            ReaderStep::Forward(payload) => ReaderStepView::Forward(payload@),
            ReaderStep::Skip => ReaderStepView::Skip,
            ReaderStep::Stop => ReaderStepView::Stop,
        }
    }
}

/// Mathematical value of a [`ReadEvent`].
pub enum ReadEventView {
    Binary(Seq<u8>),
    Other,
    Failed,
}

impl View for ReadEvent {
    type V = ReadEventView;

    open spec fn view(&self) -> ReadEventView {
        match self {
            ReadEvent::Binary(payload) => ReadEventView::Binary(payload@),
            ReadEvent::Other => ReadEventView::Other,
            ReadEvent::Failed => ReadEventView::Failed,
        }
    }
}

/// The reader's rule: the payload of a binary frame is forwarded as it
/// came, a frame of another kind is passed over, and a failed read ends the
/// reader.
pub open spec fn spec_reader_step(event: ReadEventView) -> ReaderStepView {
    match event {
        ReadEventView::Binary(payload) => ReaderStepView::Forward(payload),
        ReadEventView::Other => ReaderStepView::Skip,
        ReadEventView::Failed => ReaderStepView::Stop,
    }
}

/// Decides what the reader does after a read.
pub fn reader_step(event: ReadEvent) -> (step: ReaderStep)
    ensures
        step@ == spec_reader_step(event@),
{
    match event {
        ReadEvent::Binary(payload) => ReaderStep::Forward(payload),
        ReadEvent::Other => ReaderStep::Skip,
        ReadEvent::Failed => ReaderStep::Stop,
    }
}

} // verus!
