use crate::types::decoder::{read_result_view, DecoderError, DecoderErrorView, DecoderOk, DecoderOkView};
use crate::types::encoder::{
    write_result_view, EncoderBufferringStatus, EncoderError, EncoderErrorView, EncoderOk,
};
use crate::types::wire::{append_bytes, decode_prefix, encode_prefix, frame, le_value};
use vstd::prelude::*;

verus! {

/// Where the codec stands.
#[derive(Debug, Clone, Copy, PartialEq, Eq, Structural, PartialOrd, Ord)]
pub enum CodecState {
    /// Idle: nothing buffered, nothing under way.
    Ready,
    /// A frame was handed to the driver and the transport's answer is awaited.
    Write,
    /// Chunks of a message are buffered for sending.
    PartialWrite,
    /// A read attempt was asked for and the transport's answer is awaited.
    Read,
    /// Part of a frame has been received.
    PartialRead,
    /// A write failed on the transport: the stream can no longer be framed.
    Unwrittable,
    /// The transport is closed, or the peer broke the framing rules.
    Closed,
}

/// What the transport answered to one non-blocking read attempt.
#[derive(Debug, Clone, PartialEq)]
pub enum ReadEvent {
    /// These bytes arrived.
    Filled(Vec<u8>),
    /// Nothing is available right now.
    WouldBlock,
    /// The transport is closed; holds its message.
    Closed(String),
    /// The transport failed; holds its message.
    Failed(String),
}

/// What the transport answered to the transmission of one frame.
#[derive(Debug, Clone, PartialEq)]
pub enum WriteEvent {
    /// The whole frame was accepted and flushed.
    Flushed,
    /// The transport is closed; holds its message.
    Closed(String),
    /// The transport failed; holds its message.
    Failed(String),
}

/// What the driver of a read does next.
#[derive(Debug, PartialEq)]
pub enum ReadStep {
    /// Attempt to read at most this many bytes and report the answer.
    Attempt(u64),
    /// The read is over, with this outcome.
    Done(Result<DecoderOk, DecoderError>),
}

/// Mathematical value of a [`ReadEvent`].
pub enum ReadEventView {
    Filled(Seq<u8>),
    WouldBlock,
    Closed(Seq<char>),
    Failed(Seq<char>),
}

/// Mathematical value of a [`WriteEvent`].
pub enum WriteEventView {
    Flushed,
    Closed(Seq<char>),
    Failed(Seq<char>),
}

/// Mathematical value of a [`ReadStep`].
pub enum ReadStepView {
    Attempt(u64),
    Done(Result<DecoderOkView, DecoderErrorView>),
}

impl View for ReadEvent {
    type V = ReadEventView;

    open spec fn view(&self) -> ReadEventView {
        match *self {
            ReadEvent::Filled(bytes) => ReadEventView::Filled(bytes@),
            ReadEvent::WouldBlock => ReadEventView::WouldBlock,
            ReadEvent::Closed(reason) => ReadEventView::Closed(reason@),
            ReadEvent::Failed(reason) => ReadEventView::Failed(reason@),
        }
    }
}

impl View for WriteEvent {
    type V = WriteEventView;

    open spec fn view(&self) -> WriteEventView {
        match *self {
            WriteEvent::Flushed => WriteEventView::Flushed,
            WriteEvent::Closed(reason) => WriteEventView::Closed(reason@),
            WriteEvent::Failed(reason) => WriteEventView::Failed(reason@),
        }
    }
}

impl View for ReadStep {
    type V = ReadStepView;

    open spec fn view(&self) -> ReadStepView {
        match *self {
            ReadStep::Attempt(n) => ReadStepView::Attempt(n),
            ReadStep::Done(r) => ReadStepView::Done(read_result_view(r)),
        }
    }
}

/// Mathematical value of the outcome of starting a frame.
pub open spec fn frame_result_view(r: Result<Vec<u8>, EncoderError>) -> Result<
    Seq<u8>,
    EncoderErrorView,
> {
    match r {
        Ok(bytes) => Ok(bytes@),
        Err(e) => Err(e@),
    }
}

/// Reason reported when a peer announces a payload above the size limit.
pub open spec fn oversize_reason() -> Seq<char> {
    "declared length exceeds the maximum message size"@
}

/// Reason reported when the transport hands over more bytes than were asked for.
pub open spec fn overrun_reason() -> Seq<char> {
    "transport delivered more bytes than requested"@
}

/// Mathematical value of a codec.
pub struct CodecModel {
    /// The state tag.
    pub state: CodecState,
    /// Bytes received of the frame under way: prefix first, then payload.
    pub recv: Seq<u8>,
    /// Bytes buffered for the next frame to send.
    pub send: Seq<u8>,
    /// The configured maximum message size.
    pub max_size: u64,
    /// Why the codec is closed, once it is.
    pub reason: Seq<char>,
    /// Payload length of the frame whose transmission is under way.
    pub in_flight: u64,
}

impl CodecModel {
    /// A codec that has done nothing yet.
    pub open spec fn fresh(max_size: u64) -> CodecModel {
        CodecModel {
            state: CodecState::Ready,
            recv: Seq::empty(),
            send: Seq::empty(),
            max_size,
            reason: Seq::empty(),
            in_flight: 0,
        }
    }

    /// Largest payload that a frame may carry: the configured maximum, capped
    /// by what a four-byte prefix can announce.
    pub open spec fn limit(self) -> nat {
        if self.max_size <= u32::MAX {
            self.max_size as nat
        } else {
            u32::MAX as nat
        }
    }

    /// Bytes that the frame under way still lacks in its current part:
    /// of the prefix while that is incomplete, of the payload afterwards.
    pub open spec fn wanted(self) -> nat {
        if self.recv.len() < 4 {
            (4 - self.recv.len()) as nat
        } else {
            (le_value(self.recv) + 4 - self.recv.len()) as nat
        }
    }

    /// The invariant of a codec.
    pub open spec fn wf(self) -> bool {
        &&& self.send.len() <= self.limit()
        &&& (self.state == CodecState::PartialWrite <==> self.send.len() > 0)
        &&& (self.state == CodecState::PartialRead ==> self.recv.len() > 0)
        &&& (self.recv.len() > 0 ==> self.state == CodecState::PartialRead || self.state
            == CodecState::Read)
        &&& (self.recv.len() >= 4 ==> le_value(self.recv) <= self.limit() && self.recv.len() - 4
            < le_value(self.recv))
        &&& (self.state == CodecState::Write ==> self.in_flight <= self.limit())
        &&& (self.state != CodecState::Write ==> self.in_flight == 0)
    }

    /// The codec after a read attempt that brought nothing new: idle if no
    /// frame is under way, waiting for more otherwise.
    pub open spec fn rested(self) -> CodecModel {
        CodecModel {
            state: if self.recv.len() == 0 {
                CodecState::Ready
            } else {
                CodecState::PartialRead
            },
            ..self
        }
    }

    /// The codec once closed for `reason`: nothing stays buffered.
    pub open spec fn shut(self, reason: Seq<char>) -> CodecModel {
        CodecModel {
            state: CodecState::Closed,
            recv: Seq::empty(),
            send: Seq::empty(),
            reason,
            in_flight: 0,
            ..self
        }
    }

    /// The snapshot attached to a size error for a write of `requested` bytes.
    pub open spec fn status(self, requested: nat) -> EncoderBufferringStatus {
        EncoderBufferringStatus {
            requested_size: requested as u64,
            internal_size: self.send.len() as u64,
            max_message_size: self.max_size,
        }
    }

    /// The error with which the state alone refuses a write, if it does.
    pub open spec fn write_refusal(self) -> Option<EncoderErrorView> {
        match self.state {
            CodecState::Closed => Some(EncoderErrorView::StreamClosed(self.reason)),
            CodecState::Write => Some(EncoderErrorView::InWritablePartialState),
            CodecState::Ready | CodecState::PartialWrite => None,
            _ => Some(EncoderErrorView::NotInWritableState),
        }
    }
}

/// Starting a read: which attempt to make, or why none is made.
pub open spec fn begin_read_spec(c: CodecModel) -> (CodecModel, ReadStepView) {
    match c.state {
        CodecState::Closed => (c, ReadStepView::Done(Err(DecoderErrorView::StreamClosed(c.reason)))),
        CodecState::Ready | CodecState::PartialRead => (
            CodecModel { state: CodecState::Read, ..c },
            ReadStepView::Attempt(c.wanted() as u64),
        ),
        CodecState::Read => (c, ReadStepView::Done(Err(DecoderErrorView::InReadablePartialState))),
        _ => (c, ReadStepView::Done(Err(DecoderErrorView::NotInReadableState))),
    }
}

/// A read attempt brought nothing: `StreamEmpty` if no frame is under way,
/// else the number of bytes still needed.
pub open spec fn stalled_spec(c: CodecModel) -> (CodecModel, ReadStepView) {
    (
        c.rested(),
        ReadStepView::Done(
            Ok(
                if c.recv.len() == 0 {
                    DecoderOkView::StreamEmpty
                } else {
                    DecoderOkView::NotEnough(c.wanted() as u32)
                },
            ),
        ),
    )
}

/// A read attempt brought `bytes`, no more than were wanted.
pub open spec fn absorbed_spec(c: CodecModel, bytes: Seq<u8>) -> (CodecModel, ReadStepView) {
    let recv = c.recv + bytes;
    let grown = CodecModel { recv, ..c };
    if recv.len() < 4 {
        (
            CodecModel { state: CodecState::PartialRead, ..grown },
            ReadStepView::Done(Ok(DecoderOkView::NotEnough(grown.wanted() as u32))),
        )
    } else if le_value(recv) > c.max_size {
        (
            c.shut(oversize_reason()),
            ReadStepView::Done(Err(DecoderErrorView::ReadFailed(oversize_reason()))),
        )
    } else if recv.len() - 4 == le_value(recv) {
        (
            CodecModel { state: CodecState::Ready, recv: Seq::empty(), ..c },
            ReadStepView::Done(Ok(DecoderOkView::Message(recv.skip(4)))),
        )
    } else if c.recv.len() < 4 {
        (CodecModel { state: CodecState::Read, ..grown }, ReadStepView::Attempt(grown.wanted() as u64))
    } else {
        (
            CodecModel { state: CodecState::PartialRead, ..grown },
            ReadStepView::Done(Ok(DecoderOkView::NotEnough(grown.wanted() as u32))),
        )
    }
}

/// The transport's answer to a read attempt: the next attempt, or the outcome.
pub open spec fn on_read_spec(c: CodecModel, event: ReadEventView) -> (CodecModel, ReadStepView) {
    if c.state == CodecState::Closed {
        (c, ReadStepView::Done(Err(DecoderErrorView::StreamClosed(c.reason))))
    } else if c.state != CodecState::Read {
        (c, ReadStepView::Done(Err(DecoderErrorView::NotInReadableState)))
    } else {
        match event {
            ReadEventView::Closed(reason) => (
                c.shut(reason),
                ReadStepView::Done(Err(DecoderErrorView::StreamClosed(reason))),
            ),
            ReadEventView::Failed(reason) => (
                c.rested(),
                ReadStepView::Done(Err(DecoderErrorView::ReadFailed(reason))),
            ),
            ReadEventView::WouldBlock => stalled_spec(c),
            ReadEventView::Filled(bytes) => if bytes.len() == 0 {
                stalled_spec(c)
            } else if bytes.len() > c.wanted() {
                (
                    c.shut(overrun_reason()),
                    ReadStepView::Done(Err(DecoderErrorView::ReadFailed(overrun_reason()))),
                )
            } else {
                absorbed_spec(c, bytes)
            },
        }
    }
}

/// Giving up the frame under way: the bytes received of it are discarded and
/// counted.
pub open spec fn abort_read_spec(c: CodecModel) -> (CodecModel, DecoderErrorView) {
    (
        CodecModel {
            state: if c.state == CodecState::Read || c.state == CodecState::PartialRead {
                CodecState::Ready
            } else {
                c.state
            },
            recv: Seq::empty(),
            ..c
        },
        DecoderErrorView::AbortedRead(c.recv.len() as u64),
    )
}

/// Buffering one more chunk of a message.
pub open spec fn write_partial_spec(c: CodecModel, data: Seq<u8>) -> (
    CodecModel,
    Result<EncoderOk, EncoderErrorView>,
) {
    match c.write_refusal() {
        Some(e) => (c, Err(e)),
        None => if c.send.len() + data.len() > c.limit() {
            (c, Err(EncoderErrorView::PartialTooBig(c.status(data.len()))))
        } else {
            let send = c.send + data;
            (
                CodecModel {
                    state: if send.len() > 0 {
                        CodecState::PartialWrite
                    } else {
                        CodecState::Ready
                    },
                    send,
                    ..c
                },
                Ok(EncoderOk::PartialOk(send.len() as u64)),
            )
        },
    }
}

/// Starting the transmission of one message: what was buffered, then `data`.
/// On success the second component is the frame to put on the wire.
pub open spec fn begin_write_spec(c: CodecModel, data: Seq<u8>) -> (
    CodecModel,
    Result<Seq<u8>, EncoderErrorView>,
) {
    match c.write_refusal() {
        Some(e) => (c, Err(e)),
        None => if c.send.len() + data.len() > c.limit() {
            (c, Err(EncoderErrorView::DataTooBig(c.status(data.len()))))
        } else {
            let payload = c.send + data;
            (
                CodecModel {
                    state: CodecState::Write,
                    send: Seq::empty(),
                    in_flight: payload.len() as u64,
                    ..c
                },
                Ok(frame(payload)),
            )
        },
    }
}

/// The transport's answer to the transmission of the frame under way.
pub open spec fn finish_write_spec(c: CodecModel, event: WriteEventView) -> (
    CodecModel,
    Result<EncoderOk, EncoderErrorView>,
) {
    if c.state == CodecState::Closed {
        (c, Err(EncoderErrorView::StreamClosed(c.reason)))
    } else if c.state != CodecState::Write {
        (c, Err(EncoderErrorView::NotInWritableState))
    } else {
        match event {
            WriteEventView::Flushed => (
                CodecModel { state: CodecState::Ready, in_flight: 0, ..c },
                Ok(EncoderOk::FullOk(c.in_flight)),
            ),
            WriteEventView::Failed(reason) => (
                CodecModel { state: CodecState::Unwrittable, in_flight: 0, ..c },
                Err(EncoderErrorView::WriteFailed(reason)),
            ),
            WriteEventView::Closed(reason) => (
                c.shut(reason),
                Err(EncoderErrorView::StreamClosed(reason)),
            ),
        }
    }
}

/// Giving up the message being assembled: the buffered bytes are discarded
/// and counted.
pub open spec fn abort_partial_write_spec(c: CodecModel) -> (CodecModel, EncoderErrorView) {
    (
        CodecModel {
            state: if c.state == CodecState::PartialWrite {
                CodecState::Ready
            } else {
                c.state
            },
            send: Seq::empty(),
            ..c
        },
        EncoderErrorView::AbortedPartialWrite(c.send.len() as u64),
    )
}

/// The codec: a receive buffer, a send buffer, the size limit and a state tag.
/// It owns no transport; its driver performs the attempts it asks for.
///
/// One state tag serves both directions, so reads and writes take turns: while
/// a frame is being received no write is accepted, and while a message is
/// being assembled or transmitted no read is. A failed transmission leaves
/// the codec unwritable, and closure of the transport closes it for good.
#[derive(Debug)]
pub struct LDCodec {
    buffer: Vec<u8>,
    pending: Vec<u8>,
    max_size: u64,
    state: CodecState,
    reason: String,
    in_flight: u64,
}

impl View for LDCodec {
    type V = CodecModel;

    closed spec fn view(&self) -> CodecModel {
        CodecModel {
            state: self.state,
            recv: self.buffer@,
            send: self.pending@,
            max_size: self.max_size,
            reason: self.reason@,
            in_flight: self.in_flight,
        }
    }
}

fn oversize_text() -> (r: String)
    ensures
        r@ == oversize_reason(),
{
    "declared length exceeds the maximum message size".to_owned()
}

fn overrun_text() -> (r: String)
    ensures
        r@ == overrun_reason(),
{
    "transport delivered more bytes than requested".to_owned()
}

impl LDCodec {
    /// A codec for messages of at most `max_size` bytes.
    pub fn new(max_size: u64) -> (codec: LDCodec)
        ensures
            codec@ == CodecModel::fresh(max_size),
            codec@.wf(),
    {
        LDCodec {
            buffer: Vec::new(),
            pending: Vec::new(),
            max_size,
            state: CodecState::Ready,
            reason: String::new(),
            in_flight: 0,
        }
    }

    /// The state tag.
    pub fn state(&self) -> (s: CodecState)
        ensures
            s == self@.state,
    {
        self.state
    }

    /// The configured maximum message size.
    pub fn max_size(&self) -> (n: u64)
        ensures
            n == self@.max_size,
    {
        self.max_size
    }

    /// Number of bytes received of the frame under way.
    pub fn buffered_read(&self) -> (n: usize)
        ensures
            n == self@.recv.len(),
    {
        self.buffer.len()
    }

    /// Number of bytes buffered for the next frame to send.
    pub fn buffered_write(&self) -> (n: usize)
        ensures
            n == self@.send.len(),
    {
        self.pending.len()
    }

    /// Largest payload that a frame may carry.
    pub fn limit(&self) -> (n: u64)
        ensures
            n == self@.limit(),
    {
        if self.max_size <= 0xffff_ffff {
            self.max_size
        } else {
            0xffff_ffff
        }
    }

    /// Bytes that the next read attempt should ask for.
    pub fn wanted_bytes(&self) -> (n: u64)
        requires
            self@.wf(),
        ensures
            n == self@.wanted(),
            1 <= n <= u32::MAX,
    {
        let have: usize = self.buffer.len();
        if have < 4 {
            (4 - have) as u64
        } else {
            let declared: u32 = decode_prefix(self.buffer.as_slice());
            declared as u64 - (have as u64 - 4)
        }
    }

    fn shut(&mut self, reason: String)
        ensures
            final(self)@ == old(self)@.shut(reason@),
    {
        self.state = CodecState::Closed;
        self.buffer.clear();
        self.pending.clear();
        self.reason = reason;
        self.in_flight = 0;
    }

    fn rest(&mut self)
        ensures
            final(self)@ == old(self)@.rested(),
    {
        if self.buffer.len() == 0 {
            self.state = CodecState::Ready;
        } else {
            self.state = CodecState::PartialRead;
        }
    }

    fn stalled(&mut self) -> (step: ReadStep)
        requires
            old(self)@.wf(),
            old(self)@.state == CodecState::Read,
        ensures
            (final(self)@, step@) == stalled_spec(old(self)@),
    {
        if self.buffer.len() == 0 {
            self.rest();
            ReadStep::Done(Ok(DecoderOk::StreamEmpty))
        } else {
            let wanted: u64 = self.wanted_bytes();
            self.rest();
            ReadStep::Done(Ok(DecoderOk::NotEnough(wanted as u32)))
        }
    }

    fn absorb(&mut self, bytes: Vec<u8>) -> (step: ReadStep)
        requires
            old(self)@.wf(),
            old(self)@.state == CodecState::Read,
            0 < bytes@.len() <= old(self)@.wanted(),
        ensures
            (final(self)@, step@) == absorbed_spec(old(self)@, bytes@),
            final(self)@.wf(),
    {
        let had: usize = self.buffer.len();
        let ghost incoming = bytes@;
        let mut bytes = bytes;
        self.buffer.append(&mut bytes);
        proof {
            if had >= 4 {
                assert(le_value(self.buffer@) == le_value(old(self).buffer@));
            }
        }
        if self.buffer.len() < 4 {
            self.state = CodecState::PartialRead;
            let wanted: u64 = self.wanted_bytes();
            return ReadStep::Done(Ok(DecoderOk::NotEnough(wanted as u32)));
        }
        let declared: u32 = decode_prefix(self.buffer.as_slice());
        if declared as u64 > self.max_size {
            self.shut(oversize_text());
            return ReadStep::Done(Err(DecoderError::ReadFailed(oversize_text())));
        }
        if self.buffer.len() - 4 == declared as usize {
            let message: Vec<u8> = self.buffer.split_off(4);
            self.buffer.clear();
            self.state = CodecState::Ready;
            assert(message@ =~= (old(self).buffer@ + incoming).skip(4));
            return ReadStep::Done(Ok(DecoderOk::Message(message)));
        }
        let wanted: u64 = self.wanted_bytes();
        if had < 4 {
            self.state = CodecState::Read;
            ReadStep::Attempt(wanted)
        } else {
            self.state = CodecState::PartialRead;
            ReadStep::Done(Ok(DecoderOk::NotEnough(wanted as u32)))
        }
    }

    /// Starts a read. In the states `Ready` and `PartialRead` the codec asks
    /// for one attempt of as many bytes as the frame under way still lacks in
    /// its current part; in every other state the read is refused and the
    /// codec stays as it is.
    pub fn begin_read(&mut self) -> (step: ReadStep)
        requires
            old(self)@.wf(),
        ensures
            (final(self)@, step@) == begin_read_spec(old(self)@),
            final(self)@.wf(),
    {
        match self.state {
            CodecState::Closed => ReadStep::Done(
                Err(DecoderError::StreamClosed(self.reason.clone())),
            ),
            CodecState::Ready | CodecState::PartialRead => {
                let wanted: u64 = self.wanted_bytes();
                self.state = CodecState::Read;
                ReadStep::Attempt(wanted)
            },
            CodecState::Read => ReadStep::Done(Err(DecoderError::InReadablePartialState)),
            _ => ReadStep::Done(Err(DecoderError::NotInReadableState)),
        }
    }

    /// Takes the transport's answer to the attempt that the codec asked for,
    /// and says what comes next: a second attempt, for the payload, when the
    /// answer completed the prefix of a frame that has one; otherwise the
    /// outcome of the read.
    ///
    /// Bytes that arrive are kept until the frame is complete. Closure closes
    /// the codec for good; so does a prefix that announces more than the
    /// maximum message size, and an answer longer than what was asked for. A
    /// failure of the transport is passed on and leaves what was received.
    pub fn on_read(&mut self, event: ReadEvent) -> (step: ReadStep)
        requires
            old(self)@.wf(),
        ensures
            (final(self)@, step@) == on_read_spec(old(self)@, event@),
            final(self)@.wf(),
    {
        match self.state {
            CodecState::Closed => {
                return ReadStep::Done(Err(DecoderError::StreamClosed(self.reason.clone())));
            },
            CodecState::Read => {},
            _ => {
                return ReadStep::Done(Err(DecoderError::NotInReadableState));
            },
        }
        match event {
            ReadEvent::Closed(reason) => {
                self.shut(reason.clone());
                ReadStep::Done(Err(DecoderError::StreamClosed(reason)))
            },
            ReadEvent::Failed(reason) => {
                self.rest();
                ReadStep::Done(Err(DecoderError::ReadFailed(reason)))
            },
            ReadEvent::WouldBlock => self.stalled(),
            ReadEvent::Filled(bytes) => {
                if bytes.len() == 0 {
                    self.stalled()
                } else if bytes.len() as u64 > self.wanted_bytes() {
                    self.shut(overrun_text());
                    ReadStep::Done(Err(DecoderError::ReadFailed(overrun_text())))
                } else {
                    self.absorb(bytes)
                }
            },
        }
    }

    /// Abandons the frame under way. The result is always `AbortedRead`, with
    /// the number of bytes discarded.
    pub fn abort_read(&mut self) -> (e: DecoderError)
        requires
            old(self)@.wf(),
        ensures
            (final(self)@, e@) == abort_read_spec(old(self)@),
            final(self)@.wf(),
    {
        let discarded: u64 = self.buffer.len() as u64;
        self.buffer.clear();
        match self.state {
            CodecState::Read | CodecState::PartialRead => {
                self.state = CodecState::Ready;
            },
            _ => {},
        }
        DecoderError::AbortedRead(discarded)
    }

    fn write_refusal(&self) -> (e: Option<EncoderError>)
        ensures
            match e {
                Some(e) => self@.write_refusal() == Some(e@),
                None => self@.write_refusal().is_none(),
            },
    {
        match self.state {
            CodecState::Closed => Some(EncoderError::StreamClosed(self.reason.clone())),
            CodecState::Write => Some(EncoderError::InWritablePartialState),
            CodecState::Ready | CodecState::PartialWrite => None,
            _ => Some(EncoderError::NotInWritableState),
        }
    }

    fn status(&self, requested: usize) -> (s: EncoderBufferringStatus)
        ensures
            s == self@.status(requested as nat),
    {
        EncoderBufferringStatus {
            requested_size: requested as u64,
            internal_size: self.pending.len() as u64,
            max_message_size: self.max_size,
        }
    }

    fn fits(&self, added: usize) -> (b: bool)
        requires
            self@.wf(),
        ensures
            b == (self@.send.len() + added <= self@.limit()),
    {
        added as u64 <= self.limit() - self.pending.len() as u64
    }

    /// Buffers one more chunk of a message without touching the transport.
    /// A chunk that would take the buffer over the limit is refused and the
    /// buffer stays as it is.
    pub fn write_partial(&mut self, data: Vec<u8>) -> (r: Result<EncoderOk, EncoderError>)
        requires
            old(self)@.wf(),
        ensures
            (final(self)@, write_result_view(r)) == write_partial_spec(old(self)@, data@),
            final(self)@.wf(),
    {
        if let Some(e) = self.write_refusal() {
            return Err(e);
        }
        if !self.fits(data.len()) {
            return Err(EncoderError::PartialTooBig(self.status(data.len())));
        }
        let mut data = data;
        self.pending.append(&mut data);
        if self.pending.len() > 0 {
            self.state = CodecState::PartialWrite;
        } else {
            self.state = CodecState::Ready;
        }
        Ok(EncoderOk::PartialOk(self.pending.len() as u64))
    }

    /// Starts the transmission of one message, made of what was buffered and
    /// then `data`, and returns its frame: the bytes to put on the wire. A
    /// message over the limit is refused before anything is handed out, and
    /// the buffer stays as it is. Until the transport's answer is handed to
    /// `finish_write`, the codec refuses every other operation.
    pub fn begin_write(&mut self, data: Vec<u8>) -> (r: Result<Vec<u8>, EncoderError>)
        requires
            old(self)@.wf(),
        ensures
            (final(self)@, frame_result_view(r)) == begin_write_spec(old(self)@, data@),
            final(self)@.wf(),
    {
        if let Some(e) = self.write_refusal() {
            return Err(e);
        }
        if !self.fits(data.len()) {
            return Err(EncoderError::DataTooBig(self.status(data.len())));
        }
        let total: u64 = self.pending.len() as u64 + data.len() as u64;
        let mut out: Vec<u8> = encode_prefix(total as u32);
        out.append(&mut self.pending);
        append_bytes(&mut out, data.as_slice());
        self.state = CodecState::Write;
        self.in_flight = total;
        assert(out@ =~= frame(old(self)@.send + data@));
        Ok(out)
    }

    /// Takes the transport's answer to the transmission of the frame under
    /// way: `FullOk` with the payload's length once it is flushed; after a
    /// failure the codec is unwritable, after closure it is closed.
    pub fn finish_write(&mut self, event: WriteEvent) -> (r: Result<EncoderOk, EncoderError>)
        requires
            old(self)@.wf(),
        ensures
            (final(self)@, write_result_view(r)) == finish_write_spec(old(self)@, event@),
            final(self)@.wf(),
    {
        match self.state {
            CodecState::Closed => {
                return Err(EncoderError::StreamClosed(self.reason.clone()));
            },
            CodecState::Write => {},
            _ => {
                return Err(EncoderError::NotInWritableState);
            },
        }
        let sent: u64 = self.in_flight;
        self.in_flight = 0;
        match event {
            WriteEvent::Flushed => {
                self.state = CodecState::Ready;
                Ok(EncoderOk::FullOk(sent))
            },
            WriteEvent::Failed(reason) => {
                self.state = CodecState::Unwrittable;
                Err(EncoderError::WriteFailed(reason))
            },
            WriteEvent::Closed(reason) => {
                self.shut(reason.clone());
                Err(EncoderError::StreamClosed(reason))
            },
        }
    }

    /// Abandons the message being assembled. The result is always
    /// `AbortedPartialWrite`, with the number of bytes discarded.
    pub fn abort_partial_write(&mut self) -> (e: EncoderError)
        requires
            old(self)@.wf(),
        ensures
            (final(self)@, e@) == abort_partial_write_spec(old(self)@),
            final(self)@.wf(),
    {
        let discarded: u64 = self.pending.len() as u64;
        self.pending.clear();
        match self.state {
            CodecState::PartialWrite => {
                self.state = CodecState::Ready;
            },
            _ => {},
        }
        EncoderError::AbortedPartialWrite(discarded)
    }
}

} // verus!
