use crate::types::debug_stream::{read_call_spec, shutdown_reason, write_call_spec, StreamModel};
use crate::types::decoder::{DecoderErrorView, DecoderOkView};
use crate::types::encoder::{EncoderErrorView, EncoderOk};
use crate::types::ldcodec::{
    absorbed_spec, begin_read_spec, begin_write_spec, finish_write_spec, on_read_spec,
    write_partial_spec, CodecModel, CodecState, ReadEventView, ReadStepView, WriteEventView,
};
use crate::types::wire::{frame, le_bytes, le_value, lemma_frame_layout};
use vstd::prelude::*;

verus! {

/// An open stream whose readable bytes are `bytes` and which holds nothing
/// unflushed.
pub open spec fn stream_holding(bytes: Seq<u8>) -> StreamModel {
    StreamModel { readable: bytes, unflushed: Seq::empty(), shut: false }
}

/// Round trip: an idle codec that writes a message within the limit to an
/// empty stream and then reads from that stream gets the message back, byte
/// for byte, and codec and stream are again as they were.
pub proof fn lemma_round_trip(c: CodecModel, m: Seq<u8>)
    requires
        c.wf(),
        c.state == CodecState::Ready,
        m.len() <= c.limit(),
    ensures
        write_call_spec(c, StreamModel::empty(), m) == (
            c,
            stream_holding(frame(m)),
            Ok::<EncoderOk, EncoderErrorView>(EncoderOk::FullOk(m.len() as u64)),
        ),
        read_call_spec(c, stream_holding(frame(m))) == (
            c,
            StreamModel::empty(),
            Ok::<DecoderOkView, DecoderErrorView>(DecoderOkView::Message(m)),
        ),
{
    lemma_written_frame(c, m);
    lemma_read_whole_frame(c, m);
}

/// Writing: an idle codec puts exactly the frame of the message on an empty
/// stream and reports the payload's length.
pub proof fn lemma_written_frame(c: CodecModel, m: Seq<u8>)
    requires
        c.wf(),
        c.state == CodecState::Ready,
        m.len() <= c.limit(),
    ensures
        write_call_spec(c, StreamModel::empty(), m) == (
            c,
            stream_holding(frame(m)),
            Ok::<EncoderOk, EncoderErrorView>(EncoderOk::FullOk(m.len() as u64)),
        ),
{
    assert(c.send =~= Seq::empty());
    assert(c.send + m =~= m);
    let s = StreamModel::empty();
    assert(s.written(frame(m)).flushed().readable =~= frame(m));
    assert((CodecModel { state: CodecState::Ready, in_flight: 0, send: Seq::empty(), ..c }) == c);
}

/// The codec that has received the first `j` bytes of the frame of `m` and
/// waits for more: the idle codec `c` itself while `j` is 0.
pub open spec fn midway(c: CodecModel, m: Seq<u8>, j: int) -> CodecModel {
    if j <= 0 {
        c
    } else {
        CodecModel { state: CodecState::PartialRead, recv: frame(m).take(j), ..c }
    }
}

/// What a read reports when `k` bytes of the frame of `m` have arrived.
pub open spec fn progress(m: Seq<u8>, k: int) -> DecoderOkView {
    if k == 4 + m.len() {
        DecoderOkView::Message(m)
    } else if k <= 0 {
        DecoderOkView::StreamEmpty
    } else if k < 4 {
        DecoderOkView::NotEnough((4 - k) as u32)
    } else {
        DecoderOkView::NotEnough((4 + m.len() - k) as u32)
    }
}

/// The codec that is midway through a frame meets the invariant, and its
/// buffer announces the frame's payload length once the prefix is complete.
pub proof fn lemma_midway(c: CodecModel, m: Seq<u8>, j: int)
    requires
        c.wf(),
        c.state == CodecState::Ready,
        m.len() <= c.limit(),
        0 <= j < 4 + m.len(),
    ensures
        midway(c, m, j).wf(),
        midway(c, m, j).recv == frame(m).take(j),
        j >= 4 ==> le_value(frame(m).take(j)) == m.len(),
        midway(c, m, j).wanted() == (if j < 4 {
            4 - j
        } else {
            4 + m.len() - j
        }),
{
    let f = frame(m);
    lemma_frame_layout(m);
    assert(c.recv =~= Seq::empty());
    assert(f.take(0) =~= Seq::<u8>::empty());
    if j >= 4 {
        assert(le_value(f.take(j)) == le_value(f));
    }
}

proof fn lemma_chunk_nothing(c: CodecModel, m: Seq<u8>, j: int)
    requires
        c.wf(),
        c.state == CodecState::Ready,
        m.len() <= c.limit(),
        0 <= j < 4 + m.len(),
    ensures
        read_call_spec(midway(c, m, j), stream_holding(frame(m).subrange(j, j))) == (
            midway(c, m, j),
            StreamModel::empty(),
            Ok::<DecoderOkView, DecoderErrorView>(progress(m, j)),
        ),
{
    lemma_midway(c, m, j);
    let s = stream_holding(frame(m).subrange(j, j));
    assert(s.readable =~= Seq::<u8>::empty());
    assert(s == StreamModel::empty());
    assert(c.recv =~= Seq::empty());
}

proof fn lemma_chunk_within_part(c: CodecModel, m: Seq<u8>, j: int, k: int)
    requires
        c.wf(),
        c.state == CodecState::Ready,
        m.len() <= c.limit(),
        0 <= j < k <= 4 + m.len(),
        k < 4 || j >= 4,
    ensures
        read_call_spec(midway(c, m, j), stream_holding(frame(m).subrange(j, k))) == (
            if k == 4 + m.len() {
                c
            } else {
                midway(c, m, k)
            },
            StreamModel::empty(),
            Ok::<DecoderOkView, DecoderErrorView>(progress(m, k)),
        ),
{
    let f = frame(m);
    lemma_frame_layout(m);
    lemma_midway(c, m, j);
    assert(c.recv =~= Seq::empty());
    let cj = midway(c, m, j);
    let s = stream_holding(f.subrange(j, k));
    let (b1, step1) = begin_read_spec(cj);
    let n1 = cj.wanted();
    assert(step1 == ReadStepView::Attempt(n1 as u64));
    let (t1, e1) = s.read(n1);
    assert(s.taken(n1) == k - j);
    assert(s.readable.take(k - j) =~= f.subrange(j, k));
    assert(e1 == ReadEventView::Filled(f.subrange(j, k)));
    assert(t1.readable =~= Seq::<u8>::empty());
    assert(t1 == StreamModel::empty());
    assert(b1.recv + f.subrange(j, k) =~= f.take(k));
    let (b2, step2) = absorbed_spec(b1, f.subrange(j, k));
    assert(on_read_spec(b1, e1) == (b2, step2));
    if k >= 4 {
        assert(le_value(f.take(k)) == le_value(f));
        if k == 4 + m.len() {
            assert(f.take(k) =~= f);
            assert(f.skip(4) =~= m);
            assert(b2 == c);
            assert(step2 == ReadStepView::Done(Ok(DecoderOkView::Message(m))));
        } else {
            assert(b2 == midway(c, m, k));
        }
    } else {
        assert(b2 == midway(c, m, k));
    }
}

proof fn lemma_chunk_across_parts(c: CodecModel, m: Seq<u8>, j: int, k: int)
    requires
        c.wf(),
        c.state == CodecState::Ready,
        m.len() <= c.limit(),
        0 <= j < 4 <= k <= 4 + m.len(),
    ensures
        read_call_spec(midway(c, m, j), stream_holding(frame(m).subrange(j, k))) == (
            if k == 4 + m.len() {
                c
            } else {
                midway(c, m, k)
            },
            StreamModel::empty(),
            Ok::<DecoderOkView, DecoderErrorView>(progress(m, k)),
        ),
{
    let f = frame(m);
    let head = f.take(4);
    lemma_frame_layout(m);
    lemma_midway(c, m, j);
    assert(c.recv =~= Seq::empty());
    let cj = midway(c, m, j);
    let s = stream_holding(f.subrange(j, k));
    let (b1, step1) = begin_read_spec(cj);
    assert(step1 == ReadStepView::Attempt((4 - j) as u64));
    let (t1, e1) = s.read((4 - j) as nat);
    assert(s.taken((4 - j) as nat) == 4 - j);
    assert(s.readable.take(4 - j) =~= f.subrange(j, 4));
    assert(e1 == ReadEventView::Filled(f.subrange(j, 4)));
    assert(t1.readable =~= f.subrange(4, k));
    assert(b1.recv + f.subrange(j, 4) =~= head);
    let (b2, step2) = absorbed_spec(b1, f.subrange(j, 4));
    assert(on_read_spec(b1, e1) == (b2, step2));
    if m.len() == 0 {
        assert(head.skip(4) =~= m);
        assert(t1.readable =~= Seq::<u8>::empty());
        assert(t1 == StreamModel::empty());
        assert(b2 == c);
    } else {
        assert(step2 == ReadStepView::Attempt(m.len() as u64));
        assert(b2 == CodecModel { state: CodecState::Read, recv: head, ..c });
        lemma_second_attempt(c, m, k);
    }
}

proof fn lemma_second_attempt(c: CodecModel, m: Seq<u8>, k: int)
    requires
        c.wf(),
        c.state == CodecState::Ready,
        0 < m.len() <= c.limit(),
        4 <= k <= 4 + m.len(),
    ensures
        ({
            let b2 = CodecModel { state: CodecState::Read, recv: frame(m).take(4), ..c };
            let t1 = stream_holding(frame(m).subrange(4, k));
            let (t2, e2) = t1.read(m.len());
            &&& t2 == StreamModel::empty()
            &&& on_read_spec(b2, e2) == (
                if k == 4 + m.len() {
                    c
                } else {
                    midway(c, m, k)
                },
                ReadStepView::Done(Ok(progress(m, k))),
            )
        }),
{
    let f = frame(m);
    let head = f.take(4);
    lemma_frame_layout(m);
    assert(c.recv =~= Seq::empty());
    let b2 = CodecModel { state: CodecState::Read, recv: head, ..c };
    let t1 = stream_holding(f.subrange(4, k));
    let (t2, e2) = t1.read(m.len());
    let (b3, step3) = on_read_spec(b2, e2);
    if k == 4 {
        assert(t1.readable =~= Seq::<u8>::empty());
        assert(e2 == ReadEventView::WouldBlock);
        assert(t2 == StreamModel::empty());
        assert(b3 == midway(c, m, k));
    } else {
        assert(t1.taken(m.len()) == k - 4);
        assert(t1.readable.take(k - 4) =~= f.subrange(4, k));
        assert(e2 == ReadEventView::Filled(f.subrange(4, k)));
        assert(t2.readable =~= Seq::<u8>::empty());
        assert(t2 == StreamModel::empty());
        assert(head + f.subrange(4, k) =~= f.take(k));
        assert(le_value(f.take(k)) == le_value(f));
        assert((b3, step3) == absorbed_spec(b2, f.subrange(4, k)));
        if k == 4 + m.len() {
            assert(f.take(k) =~= f);
            assert(f.skip(4) =~= m);
            assert(b3 == c);
        } else {
            assert(b3 == midway(c, m, k));
        }
    }
}

/// Reading does not depend on how the transport cuts the bytes: a codec that
/// has the first `j` bytes of a frame and finds the bytes from `j` to `k` on
/// the stream takes them all; it hands out the message if they complete the
/// frame, and otherwise reports what is missing and has the first `k` bytes.
pub proof fn lemma_read_any_chunking(c: CodecModel, m: Seq<u8>, j: int, k: int)
    requires
        c.wf(),
        c.state == CodecState::Ready,
        m.len() <= c.limit(),
        0 <= j <= k <= 4 + m.len(),
        j < 4 + m.len(),
    ensures
        midway(c, m, j).wf(),
        read_call_spec(midway(c, m, j), stream_holding(frame(m).subrange(j, k))) == (
            if k == 4 + m.len() {
                c
            } else {
                midway(c, m, k)
            },
            StreamModel::empty(),
            Ok::<DecoderOkView, DecoderErrorView>(progress(m, k)),
        ),
{
    lemma_midway(c, m, j);
    if k == j {
        lemma_chunk_nothing(c, m, j);
    } else if j < 4 && k >= 4 {
        lemma_chunk_across_parts(c, m, j, k);
    } else {
        lemma_chunk_within_part(c, m, j, k);
    }
}

/// Reading: an idle codec that finds exactly one frame on the stream hands
/// out its payload and leaves the stream empty.
pub proof fn lemma_read_whole_frame(c: CodecModel, m: Seq<u8>)
    requires
        c.wf(),
        c.state == CodecState::Ready,
        m.len() <= c.limit(),
    ensures
        read_call_spec(c, stream_holding(frame(m))) == (
            c,
            StreamModel::empty(),
            Ok::<DecoderOkView, DecoderErrorView>(DecoderOkView::Message(m)),
        ),
{
    let f = frame(m);
    lemma_frame_layout(m);
    lemma_read_any_chunking(c, m, 0, 4 + m.len() as int);
    assert(f.subrange(0, 4 + m.len() as int) =~= f);
}

/// Prefix correctness: the frame that a write hands to the transport is four
/// bytes longer than the message, and its first four bytes are the message's
/// length in little-endian order.
pub proof fn lemma_prefix(c: CodecModel, m: Seq<u8>)
    requires
        c.wf(),
        c.state == CodecState::Ready,
        m.len() <= c.limit(),
    ensures
        begin_write_spec(c, m).1 == Ok::<Seq<u8>, EncoderErrorView>(frame(m)),
        frame(m).len() == 4 + m.len(),
        frame(m).take(4) == le_bytes(m.len() as u32),
        le_value(frame(m).take(4)) == m.len(),
        frame(m).skip(4) == m,
{
    lemma_frame_layout(m);
    assert(c.send + m =~= m);
}

/// Size ceiling: a message that, with what is buffered, exceeds the limit is
/// refused with `DataTooBig`; codec and stream stay as they were, so nothing
/// reaches the wire.
pub proof fn lemma_size_ceiling(c: CodecModel, s: StreamModel, m: Seq<u8>)
    requires
        c.wf(),
        c.state == CodecState::Ready || c.state == CodecState::PartialWrite,
        c.send.len() + m.len() > c.limit(),
    ensures
        write_call_spec(c, s, m) == (
            c,
            s,
            Err::<EncoderOk, EncoderErrorView>(EncoderErrorView::DataTooBig(c.status(m.len()))),
        ),
        begin_write_spec(c, m).1.is_err(),
{
}

/// Partial read resumption: when only the first `k` bytes of a frame are on
/// the stream, a read reports how many bytes the part under way still lacks,
/// of the prefix or of the payload; once the rest is there, the next read
/// hands out the whole message.
pub proof fn lemma_partial_read_resumption(c: CodecModel, m: Seq<u8>, k: int)
    requires
        c.wf(),
        c.state == CodecState::Ready,
        m.len() <= c.limit(),
        0 < k < 4 + m.len(),
    ensures
        ({
            let (c1, s1, r1) = read_call_spec(c, stream_holding(frame(m).take(k)));
            &&& r1 == Ok::<DecoderOkView, DecoderErrorView>(
                DecoderOkView::NotEnough(
                    if k < 4 {
                        (4 - k) as u32
                    } else {
                        (4 + m.len() - k) as u32
                    },
                ),
            )
            &&& s1 == StreamModel::empty()
            &&& c1.wf()
            &&& c1.state == CodecState::PartialRead
            &&& c1.recv == frame(m).take(k)
            &&& read_call_spec(c1, stream_holding(frame(m).skip(k))) == (
                c,
                StreamModel::empty(),
                Ok::<DecoderOkView, DecoderErrorView>(DecoderOkView::Message(m)),
            )
        }),
{
    let f = frame(m);
    lemma_frame_layout(m);
    lemma_read_any_chunking(c, m, 0, k);
    lemma_read_any_chunking(c, m, k, 4 + m.len() as int);
    assert(f.subrange(0, k) =~= f.take(k));
    assert(f.subrange(k, 4 + m.len() as int) =~= f.skip(k));
}

/// Partial write accumulation: three chunks buffered one after the other and
/// then completed by a write of nothing go out as one frame, whose payload is
/// the chunks in order and whose prefix is their total length.
pub proof fn lemma_partial_write_accumulation(c: CodecModel, x: Seq<u8>, y: Seq<u8>, z: Seq<u8>)
    requires
        c.wf(),
        c.state == CodecState::Ready,
        x.len() + y.len() + z.len() <= c.limit(),
    ensures
        ({
            let (c1, r1) = write_partial_spec(c, x);
            let (c2, r2) = write_partial_spec(c1, y);
            let (c3, r3) = write_partial_spec(c2, z);
            &&& r1 == Ok::<EncoderOk, EncoderErrorView>(EncoderOk::PartialOk(x.len() as u64))
            &&& r2 == Ok::<EncoderOk, EncoderErrorView>(
                EncoderOk::PartialOk((x.len() + y.len()) as u64),
            )
            &&& r3 == Ok::<EncoderOk, EncoderErrorView>(
                EncoderOk::PartialOk((x.len() + y.len() + z.len()) as u64),
            )
            &&& c3.send == x + y + z
            &&& write_call_spec(c3, StreamModel::empty(), Seq::empty()) == (
                c,
                stream_holding(frame(x + y + z)),
                Ok::<EncoderOk, EncoderErrorView>(
                    EncoderOk::FullOk((x.len() + y.len() + z.len()) as u64),
                ),
            )
        }),
{
    assert(c.send =~= Seq::empty());
    assert(c.send + x =~= x);
    let (c1, r1) = write_partial_spec(c, x);
    let (c2, r2) = write_partial_spec(c1, y);
    let (c3, r3) = write_partial_spec(c2, z);
    assert(c3.send =~= x + y + z);
    let payload = x + y + z;
    assert(c3.send + Seq::<u8>::empty() =~= payload);
    let s = StreamModel::empty();
    assert(s.written(frame(payload)).flushed().readable =~= frame(payload));
    assert((CodecModel { state: CodecState::Ready, in_flight: 0, send: Seq::empty(), ..c3 }) == c);
}

/// Empty stream: a read by an idle codec from an open stream that holds
/// nothing reports `StreamEmpty`, which is no error, and changes nothing.
pub proof fn lemma_empty_stream(c: CodecModel, s: StreamModel)
    requires
        c.wf(),
        c.state == CodecState::Ready,
        s.readable.len() == 0,
        !s.shut,
    ensures
        read_call_spec(c, s) == (
            c,
            s,
            Ok::<DecoderOkView, DecoderErrorView>(DecoderOkView::StreamEmpty),
        ),
{
    assert(c.recv =~= Seq::empty());
}

/// Closure on reading: when the stream reports that it is closed, the read
/// fails with `StreamClosed` and the codec is closed.
pub proof fn lemma_closure_on_read(c: CodecModel, s: StreamModel)
    requires
        c.wf(),
        c.state == CodecState::Ready || c.state == CodecState::PartialRead,
        s.readable.len() == 0,
        s.shut,
    ensures
        read_call_spec(c, s) == (
            c.shut(shutdown_reason()),
            s,
            Err::<DecoderOkView, DecoderErrorView>(DecoderErrorView::StreamClosed(shutdown_reason())),
        ),
{
}

/// Closure on writing: when the stream reports that it is closed, the write
/// of a message within the limit fails with `StreamClosed` and the codec is
/// closed.
pub proof fn lemma_closure_on_write(c: CodecModel, s: StreamModel, m: Seq<u8>)
    requires
        c.wf(),
        c.state == CodecState::Ready || c.state == CodecState::PartialWrite,
        c.send.len() + m.len() <= c.limit(),
        s.shut,
    ensures
        write_call_spec(c, s, m) == (
            c.shut(shutdown_reason()),
            s,
            Err::<EncoderOk, EncoderErrorView>(EncoderErrorView::StreamClosed(shutdown_reason())),
        ),
{
}

/// Closure is final: once the transport has answered a read attempt or the
/// transmission of a frame with closure, the codec is closed with the
/// transport's reason, and the next read and the next write fail with
/// `StreamClosed` and that reason.
pub proof fn lemma_closure_is_final(c: CodecModel, reason: Seq<char>, m: Seq<u8>)
    requires
        c.wf(),
    ensures
        c.state == CodecState::Read ==> on_read_spec(c, ReadEventView::Closed(reason)) == (
            c.shut(reason),
            ReadStepView::Done(Err(DecoderErrorView::StreamClosed(reason))),
        ),
        c.state == CodecState::Write ==> finish_write_spec(c, WriteEventView::Closed(reason)) == (
            c.shut(reason),
            Err::<EncoderOk, EncoderErrorView>(EncoderErrorView::StreamClosed(reason)),
        ),
        c.shut(reason).wf(),
        begin_read_spec(c.shut(reason)) == (
            c.shut(reason),
            ReadStepView::Done(Err(DecoderErrorView::StreamClosed(reason))),
        ),
        begin_write_spec(c.shut(reason), m) == (
            c.shut(reason),
            Err::<Seq<u8>, EncoderErrorView>(EncoderErrorView::StreamClosed(reason)),
        ),
{
}

/// No resurrection: on a closed codec every operation, whatever the stream
/// holds and whatever the transport answers, fails with `StreamClosed` and
/// the codec's own reason, and leaves codec and stream as they were. So a
/// repeated call fails in the same way.
pub proof fn lemma_closed_stays_closed(
    c: CodecModel,
    s: StreamModel,
    m: Seq<u8>,
    read_event: ReadEventView,
    write_event: WriteEventView,
)
    requires
        c.state == CodecState::Closed,
    ensures
        read_call_spec(c, s) == (
            c,
            s,
            Err::<DecoderOkView, DecoderErrorView>(DecoderErrorView::StreamClosed(c.reason)),
        ),
        write_call_spec(c, s, m) == (
            c,
            s,
            Err::<EncoderOk, EncoderErrorView>(EncoderErrorView::StreamClosed(c.reason)),
        ),
        write_partial_spec(c, m) == (
            c,
            Err::<EncoderOk, EncoderErrorView>(EncoderErrorView::StreamClosed(c.reason)),
        ),
        on_read_spec(c, read_event) == (
            c,
            ReadStepView::Done(Err(DecoderErrorView::StreamClosed(c.reason))),
        ),
        finish_write_spec(c, write_event) == (
            c,
            Err::<EncoderOk, EncoderErrorView>(EncoderErrorView::StreamClosed(c.reason)),
        ),
{
}

/// A read makes at most two attempts: after the one that completes the
/// prefix, the answer to the next always ends the read.
pub proof fn lemma_two_attempts(c: CodecModel, first: ReadEventView, second: ReadEventView)
    requires
        c.wf(),
        begin_read_spec(c).1 is Attempt,
        on_read_spec(begin_read_spec(c).0, first).1 is Attempt,
    ensures
        on_read_spec(on_read_spec(begin_read_spec(c).0, first).0, second).1 is Done,
{
    let c1 = begin_read_spec(c).0;
    let c2 = on_read_spec(c1, first).0;
    assert(c2.recv.len() >= 4);
}

/// The invariant survives every step of the codec.
pub proof fn lemma_steps_keep_invariant(
    c: CodecModel,
    m: Seq<u8>,
    read_event: ReadEventView,
    write_event: WriteEventView,
)
    requires
        c.wf(),
    ensures
        begin_read_spec(c).0.wf(),
        on_read_spec(c, read_event).0.wf(),
        write_partial_spec(c, m).0.wf(),
        begin_write_spec(c, m).0.wf(),
        finish_write_spec(c, write_event).0.wf(),
{
    match read_event {
        ReadEventView::Filled(bytes) => {
            if c.recv.len() >= 4 {
                assert(le_value(c.recv + bytes) == le_value(c.recv));
            }
        },
        _ => {},
    }
}

} // verus!
