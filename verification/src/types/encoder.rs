use vstd::prelude::*;

verus! {

/// Snapshot of the send side, attached to size errors.
#[derive(Debug, Clone, PartialEq, Copy)]
pub struct EncoderBufferringStatus {
    /// Size of the write that was asked for.
    pub requested_size: u64,
    /// Bytes buffered when it was asked for.
    pub internal_size: u64,
    /// Maximum message size of the codec.
    pub max_message_size: u64,
}

/// What a write achieved.
#[derive(Debug, Clone, PartialEq, Copy)]
pub enum EncoderOk {
    /// The chunk was buffered; holds the bytes buffered so far.
    PartialOk(u64),
    /// One frame was transmitted; holds its payload length.
    FullOk(u64),
}

/// Why a write was not carried out.
#[derive(Debug, Clone, PartialEq)]
pub enum EncoderError {
    /// The codec is busy reading, or can no longer be used for writing.
    NotInWritableState,
    /// A frame is already under way and waits for the transport's answer.
    InWritablePartialState,
    /// A partial write was abandoned; holds the number of bytes discarded.
    AbortedPartialWrite(u64),
    /// The stream is closed; holds the transport's own message.
    StreamClosed(String),
    /// The chunk does not fit into the send buffer.
    PartialTooBig(EncoderBufferringStatus),
    /// The message is larger than the codec allows.
    DataTooBig(EncoderBufferringStatus),
    /// The transport failed while writing; holds its own message.
    WriteFailed(String),
}

/// Mathematical value of an [`EncoderError`].
pub enum EncoderErrorView {
    NotInWritableState,
    InWritablePartialState,
    AbortedPartialWrite(u64),
    StreamClosed(Seq<char>),
    PartialTooBig(EncoderBufferringStatus),
    DataTooBig(EncoderBufferringStatus),
    WriteFailed(Seq<char>),
}

impl View for EncoderError {
    type V = EncoderErrorView;

    open spec fn view(&self) -> EncoderErrorView {
        match *self {
            EncoderError::NotInWritableState => EncoderErrorView::NotInWritableState,
            EncoderError::InWritablePartialState => EncoderErrorView::InWritablePartialState,
            EncoderError::AbortedPartialWrite(n) => EncoderErrorView::AbortedPartialWrite(n),
            EncoderError::StreamClosed(reason) => EncoderErrorView::StreamClosed(reason@),
            EncoderError::PartialTooBig(status) => EncoderErrorView::PartialTooBig(status),
            EncoderError::DataTooBig(status) => EncoderErrorView::DataTooBig(status),
            EncoderError::WriteFailed(reason) => EncoderErrorView::WriteFailed(reason@),
        }
    }
}

/// Mathematical value of the outcome of a buffering or completing write.
pub open spec fn write_result_view(r: Result<EncoderOk, EncoderError>) -> Result<
    EncoderOk,
    EncoderErrorView,
> {
    match r {
        Ok(ok) => Ok(ok),
        Err(e) => Err(e@),
    }
}

} // verus!
