use crate::traits::{Decoder, Encoder};
use crate::types::decoder::{read_result_view, DecoderError, DecoderErrorView, DecoderOk, DecoderOkView};
use crate::types::encoder::{write_result_view, EncoderError, EncoderErrorView, EncoderOk};
use crate::types::ldcodec::{
    begin_read_spec, begin_write_spec, finish_write_spec, on_read_spec, write_partial_spec,
    CodecModel, LDCodec, ReadEvent, ReadEventView, ReadStep, ReadStepView, WriteEvent,
    WriteEventView,
};
use crate::types::wire::append_bytes;
use vstd::prelude::*;

verus! {

/// Reason that a stream gives once it has been shut down.
pub open spec fn shutdown_reason() -> Seq<char> {
    "stream shut down"@
}

fn shutdown_text() -> (r: String)
    ensures
        r@ == shutdown_reason(),
{
    "stream shut down".to_owned()
}

/// Mathematical value of an in-memory stream.
pub struct StreamModel {
    /// Bytes that can be read, oldest first.
    pub readable: Seq<u8>,
    /// Bytes written and not yet flushed.
    pub unflushed: Seq<u8>,
    /// Whether the stream has been shut down.
    pub shut: bool,
}

impl StreamModel {
    /// An open stream that holds nothing.
    pub open spec fn empty() -> StreamModel {
        StreamModel { readable: Seq::empty(), unflushed: Seq::empty(), shut: false }
    }

    /// Number of bytes that an attempt to read at most `max` bytes takes.
    pub open spec fn taken(self, max: nat) -> nat {
        if max <= self.readable.len() {
            max
        } else {
            self.readable.len()
        }
    }

    /// One attempt to read at most `max` bytes: the oldest bytes, as many as
    /// there are; with none there, "would block", or "closed" after shutdown.
    pub open spec fn read(self, max: nat) -> (StreamModel, ReadEventView) {
        if self.readable.len() == 0 {
            if self.shut {
                (self, ReadEventView::Closed(shutdown_reason()))
            } else {
                (self, ReadEventView::WouldBlock)
            }
        } else {
            (
                StreamModel { readable: self.readable.skip(self.taken(max) as int), ..self },
                ReadEventView::Filled(self.readable.take(self.taken(max) as int)),
            )
        }
    }

    /// Accepting `bytes` for writing.
    pub open spec fn written(self, bytes: Seq<u8>) -> StreamModel {
        StreamModel { unflushed: self.unflushed + bytes, ..self }
    }

    /// Committing what was written: it becomes readable, after what already is.
    pub open spec fn flushed(self) -> StreamModel {
        StreamModel {
            readable: self.readable + self.unflushed,
            unflushed: Seq::empty(),
            ..self
        }
    }

    /// Transmitting one frame: written and flushed, unless the stream is shut.
    pub open spec fn transmit(self, bytes: Seq<u8>) -> (StreamModel, WriteEventView) {
        if self.shut {
            (self, WriteEventView::Closed(shutdown_reason()))
        } else {
            (self.written(bytes).flushed(), WriteEventView::Flushed)
        }
    }
}

/// An in-memory duplex byte queue: what is written and flushed can be read
/// back, in order, in pieces of any size.
#[derive(Debug)]
pub struct LDCodecDebugStream {
    queue: Vec<u8>,
    current_write_buffer: Vec<u8>,
    shut: bool,
}

impl View for LDCodecDebugStream {
    type V = StreamModel;

    closed spec fn view(&self) -> StreamModel {
        StreamModel {
            readable: self.queue@,
            unflushed: self.current_write_buffer@,
            shut: self.shut,
        }
    }
}

impl Default for LDCodecDebugStream {
    fn default() -> (s: LDCodecDebugStream)
        ensures
            s@ == StreamModel::empty(),
    {
        LDCodecDebugStream { queue: Vec::new(), current_write_buffer: Vec::new(), shut: false }
    }
}

impl LDCodecDebugStream {
    /// One non-blocking attempt to read at most `max` bytes.
    pub fn try_read(&mut self, max: usize) -> (event: ReadEvent)
        ensures
            (final(self)@, event@) == old(self)@.read(max as nat),
    {
        if self.queue.len() == 0 {
            if self.shut {
                return ReadEvent::Closed(shutdown_text());
            }
            return ReadEvent::WouldBlock;
        }
        let n: usize = if max <= self.queue.len() {
            max
        } else {
            self.queue.len()
        };
        let rest: Vec<u8> = self.queue.split_off(n);
        let mut head: Vec<u8> = Vec::new();
        head.append(&mut self.queue);
        self.queue = rest;
        ReadEvent::Filled(head)
    }

    /// Accepts all of `buf` for writing and returns its length. Nothing
    /// becomes readable before the next flush.
    pub fn write(&mut self, buf: &[u8]) -> (accepted: usize)
        ensures
            final(self)@ == old(self)@.written(buf@),
            accepted == buf@.len(),
    {
        append_bytes(&mut self.current_write_buffer, buf);
        buf.len()
    }

    /// Commits what was written since the last flush.
    pub fn flush(&mut self)
        ensures
            final(self)@ == old(self)@.flushed(),
    {
        self.queue.append(&mut self.current_write_buffer);
    }

    /// Shuts the stream down: what is readable stays readable, then reads
    /// report closure, and nothing more is transmitted.
    pub fn shutdown(&mut self)
        ensures
            final(self)@ == (StreamModel { shut: true, ..old(self)@ }),
    {
        self.shut = true;
    }

    /// Transmits one frame as a unit: writes it and flushes, unless the
    /// stream has been shut down.
    pub fn transmit(&mut self, bytes: &[u8]) -> (event: WriteEvent)
        ensures
            (final(self)@, event@) == old(self)@.transmit(bytes@),
    {
        if self.shut {
            return WriteEvent::Closed(shutdown_text());
        }
        self.write(bytes);
        self.flush();
        WriteEvent::Flushed
    }
}

/// One whole read of a codec against a stream: the attempt for the prefix
/// and, where that completes the prefix of a frame with a payload, the
/// attempt for the payload.
pub open spec fn read_call_spec(c: CodecModel, s: StreamModel) -> (
    CodecModel,
    StreamModel,
    Result<DecoderOkView, DecoderErrorView>,
) {
    match begin_read_spec(c) {
        (c1, ReadStepView::Done(r)) => (c1, s, r),
        (c1, ReadStepView::Attempt(n1)) => {
            let (s1, e1) = s.read(n1 as nat);
            match on_read_spec(c1, e1) {
                (c2, ReadStepView::Done(r)) => (c2, s1, r),
                (c2, ReadStepView::Attempt(n2)) => {
                    let (s2, e2) = s1.read(n2 as nat);
                    match on_read_spec(c2, e2) {
                        (c3, ReadStepView::Done(r)) => (c3, s2, r),
                        (c3, ReadStepView::Attempt(_)) => (
                            c3,
                            s2,
                            Err(DecoderErrorView::InReadablePartialState),
                        ),
                    }
                },
            }
        },
    }
}

/// One whole write of a message by a codec to a stream.
pub open spec fn write_call_spec(c: CodecModel, s: StreamModel, data: Seq<u8>) -> (
    CodecModel,
    StreamModel,
    Result<EncoderOk, EncoderErrorView>,
) {
    match begin_write_spec(c, data) {
        (c1, Err(e)) => (c1, s, Err(e)),
        (c1, Ok(bytes)) => {
            let (s1, event) = s.transmit(bytes);
            let (c2, r) = finish_write_spec(c1, event);
            (c2, s1, r)
        },
    }
}

/// A codec on an in-memory stream of its own: what it writes, it reads back.
#[derive(Debug)]
pub struct LoopbackCodec {
    codec: LDCodec,
    stream: LDCodecDebugStream,
}

impl LoopbackCodec {
    /// The codec's value.
    pub closed spec fn codec(&self) -> CodecModel {
        self.codec@
    }

    /// The stream's value.
    pub closed spec fn stream(&self) -> StreamModel {
        self.stream@
    }

    /// The invariant: that of the codec.
    pub open spec fn wf(&self) -> bool {
        self.codec().wf()
    }

    /// A codec for messages of at most `max_size` bytes on `stream`.
    pub fn new(stream: LDCodecDebugStream, max_size: u64) -> (l: LoopbackCodec)
        ensures
            l.codec() == CodecModel::fresh(max_size),
            l.stream() == stream@,
            l.wf(),
    {
        LoopbackCodec { codec: LDCodec::new(max_size), stream }
    }

    /// Shuts the stream down.
    pub fn shutdown(&mut self)
        ensures
            final(self).codec() == old(self).codec(),
            final(self).stream() == (StreamModel { shut: true, ..old(self).stream() }),
    {
        self.stream.shutdown();
    }
}

impl Decoder for LoopbackCodec {
    open spec fn decoder_inv(&self) -> bool {
        self.wf()
    }

    fn try_read_decoded(&mut self) -> (r: Result<DecoderOk, DecoderError>)
        ensures
            (final(self).codec(), final(self).stream(), read_result_view(r)) == read_call_spec(
                old(self).codec(),
                old(self).stream(),
            ),
    {
        let first: u64 = match self.codec.begin_read() {
            ReadStep::Done(r) => {
                return r;
            },
            ReadStep::Attempt(n) => n,
        };
        let event: ReadEvent = self.stream.try_read(first as usize);
        let second: u64 = match self.codec.on_read(event) {
            ReadStep::Done(r) => {
                return r;
            },
            ReadStep::Attempt(n) => n,
        };
        let event: ReadEvent = self.stream.try_read(second as usize);
        match self.codec.on_read(event) {
            ReadStep::Done(r) => r,
            // A read never asks for a third attempt.
            ReadStep::Attempt(_) => Err(DecoderError::InReadablePartialState),
        }
    }
}

impl Encoder for LoopbackCodec {
    open spec fn encoder_inv(&self) -> bool {
        self.wf()
    }

    fn write_encoded(&mut self, data: Vec<u8>) -> (r: Result<EncoderOk, EncoderError>)
        ensures
            (final(self).codec(), final(self).stream(), write_result_view(r)) == write_call_spec(
                old(self).codec(),
                old(self).stream(),
                data@,
            ),
    {
        match self.codec.begin_write(data) {
            Err(e) => Err(e),
            Ok(bytes) => {
                let event: WriteEvent = self.stream.transmit(bytes.as_slice());
                self.codec.finish_write(event)
            },
        }
    }

    fn write_partial(&mut self, data: Vec<u8>) -> (r: Result<EncoderOk, EncoderError>)
        ensures
            (final(self).codec(), write_result_view(r)) == write_partial_spec(
                old(self).codec(),
                data@,
            ),
            final(self).stream() == old(self).stream(),
    {
        self.codec.write_partial(data)
    }
}

} // verus!
