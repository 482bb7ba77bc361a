use vstd::prelude::*;

verus! {

/// The four bytes that stand for `n`, least significant byte first.
pub open spec fn le_bytes(n: u32) -> Seq<u8> {
    seq![
        (n % 256) as u8,
        ((n / 256) % 256) as u8,
        ((n / 65536) % 256) as u8,
        ((n / 16777216) % 256) as u8,
    ]
}

/// The number that the first four bytes of `b` stand for, least significant
/// byte first.
pub open spec fn le_value(b: Seq<u8>) -> nat
    recommends
        b.len() >= 4,
{
    (b[0] as nat) + 256 * (b[1] as nat) + 65536 * (b[2] as nat) + 16777216 * (b[3] as nat)
}

/// The wire image of one message: its length as a prefix, then its bytes.
pub open spec fn frame(payload: Seq<u8>) -> Seq<u8>
    recommends
        payload.len() <= u32::MAX,
{
    le_bytes(payload.len() as u32) + payload
}

/// Reading back the bytes written for `n` gives `n`.
pub proof fn lemma_le_round_trip(n: u32)
    ensures
        le_bytes(n).len() == 4,
        le_value(le_bytes(n)) == n,
{
}

/// A frame is four bytes longer than its payload, starts with the payload's
/// length in little-endian order, and carries the payload unchanged after it.
pub proof fn lemma_frame_layout(payload: Seq<u8>)
    requires
        payload.len() <= u32::MAX,
    ensures
        frame(payload).len() == 4 + payload.len(),
        frame(payload).subrange(0, 4) == le_bytes(payload.len() as u32),
        le_value(frame(payload).subrange(0, 4)) == payload.len(),
        le_value(frame(payload)) == payload.len(),
        frame(payload).skip(4) == payload,
{
    let f = frame(payload);
    lemma_le_round_trip(payload.len() as u32);
    assert(f.subrange(0, 4) =~= le_bytes(payload.len() as u32));
    assert(f.skip(4) =~= payload);
}

/// Writes `n` as a four-byte little-endian prefix.
pub fn encode_prefix(n: u32) -> (out: Vec<u8>)
    ensures
        out@ == le_bytes(n),
{
    let mut out: Vec<u8> = Vec::with_capacity(4);
    out.push((n % 256) as u8);
    out.push(((n / 256) % 256) as u8);
    out.push(((n / 65536) % 256) as u8);
    out.push(((n / 16777216) % 256) as u8);
    assert(out@ =~= le_bytes(n));
    out
}

/// Reads the four-byte little-endian prefix at the start of `bytes`.
pub fn decode_prefix(bytes: &[u8]) -> (n: u32)
    requires
        bytes@.len() >= 4,
    ensures
        n == le_value(bytes@),
{
    let b0: u32 = bytes[0] as u32;
    let b1: u32 = bytes[1] as u32;
    let b2: u32 = bytes[2] as u32;
    let b3: u32 = bytes[3] as u32;
    b0 + 256 * b1 + 65536 * b2 + 16777216 * b3
}

/// Appends a copy of `src` to `dst`.
pub fn append_bytes(dst: &mut Vec<u8>, src: &[u8])
    ensures
        final(dst)@ == old(dst)@ + src@,
{
    let ghost before = dst@;
    let mut i: usize = 0;
    while i < src.len()
        invariant
            i <= src@.len(),
            dst@ == before + src@.subrange(0, i as int),
        decreases src@.len() - i,
    {
        dst.push(src[i]);
        i += 1;
        assert(dst@ =~= before + src@.subrange(0, i as int));
    }
    assert(src@.subrange(0, src@.len() as int) =~= src@);
}

/// Builds the wire image of one message.
pub fn encode_frame(payload: &[u8]) -> (out: Vec<u8>)
    requires
        payload@.len() <= u32::MAX,
    ensures
        out@ == frame(payload@),
{
    let mut out = encode_prefix(payload.len() as u32);
    append_bytes(&mut out, payload);
    out
}

} // verus!
