use vstd::prelude::*;

verus! {

/// Why a read did not produce a result.
#[derive(Debug, Clone, PartialEq)]
pub enum DecoderError {
    /// The codec is busy writing, or can no longer be used for reading.
    NotInReadableState,
    /// A read is already under way and waits for the transport's answer.
    InReadablePartialState,
    /// A partial read was abandoned; holds the number of bytes discarded.
    AbortedRead(u64),
    /// The stream is closed; holds the transport's own message.
    StreamClosed(String),
    /// The read failed; holds the reason.
    ReadFailed(String),
}

/// What a read produced.
#[derive(Debug, Clone, PartialEq)]
pub enum DecoderOk {
    /// Nothing was available and no frame is under way.
    StreamEmpty,
    /// A frame is under way; holds the number of bytes still needed.
    NotEnough(u32),
    /// One complete message.
    Message(Vec<u8>),
}

/// Mathematical value of a [`DecoderError`].
pub enum DecoderErrorView {
    NotInReadableState,
    InReadablePartialState,
    AbortedRead(u64),
    StreamClosed(Seq<char>),
    ReadFailed(Seq<char>),
}

/// Mathematical value of a [`DecoderOk`].
pub enum DecoderOkView {
    StreamEmpty,
    NotEnough(u32),
    Message(Seq<u8>),
}

impl View for DecoderError {
    type V = DecoderErrorView;

    open spec fn view(&self) -> DecoderErrorView {
        match *self {
            DecoderError::NotInReadableState => DecoderErrorView::NotInReadableState,
            DecoderError::InReadablePartialState => DecoderErrorView::InReadablePartialState,
            DecoderError::AbortedRead(n) => DecoderErrorView::AbortedRead(n),
            DecoderError::StreamClosed(reason) => DecoderErrorView::StreamClosed(reason@),
            DecoderError::ReadFailed(reason) => DecoderErrorView::ReadFailed(reason@),
        }
    }
}

impl View for DecoderOk {
    type V = DecoderOkView;

    open spec fn view(&self) -> DecoderOkView {
        match *self {
            DecoderOk::StreamEmpty => DecoderOkView::StreamEmpty,
            DecoderOk::NotEnough(n) => DecoderOkView::NotEnough(n),
            DecoderOk::Message(bytes) => DecoderOkView::Message(bytes@),
        }
    }
}

/// Mathematical value of the outcome of a read.
pub open spec fn read_result_view(r: Result<DecoderOk, DecoderError>) -> Result<
    DecoderOkView,
    DecoderErrorView,
> {
    match r {
        Ok(ok) => Ok(ok@),
        Err(e) => Err(e@),
    }
}

} // verus!
