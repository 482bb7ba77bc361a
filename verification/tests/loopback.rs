use ldcodec::traits::{Decoder, Encoder};
use ldcodec::types::debug_stream::{LDCodecDebugStream, LoopbackCodec};
use ldcodec::types::decoder::{DecoderError, DecoderOk};
use ldcodec::types::encoder::{EncoderBufferringStatus, EncoderError, EncoderOk};
use ldcodec::types::ldcodec::{CodecState, LDCodec, ReadEvent, ReadStep, WriteEvent};
use ldcodec::types::wire::{append_bytes, decode_prefix, encode_frame, encode_prefix};

#[test]
fn it_works() {
    let mut codec = LoopbackCodec::new(LDCodecDebugStream::default(), 64);

    let data = vec![0xA1, 0xB2, 0xC3, 0xD4, 0xA5];
    match codec.write_encoded(data) {
        Ok(_) => {
            println!("test: success");
        }
        Err(e) => {
            println!("test: failed: {:?}", e);
        }
    }
    match codec.try_read_decoded() {
        Ok(msg) => match msg {
            DecoderOk::Message(data) => {
                println!("test: success, proper message available!");
                println!(" > size : {}", data.len());
                println!(" > data : {:x?}", data);
                assert_eq!(data, vec![0xA1, 0xB2, 0xC3, 0xD4, 0xA5]);
            }
            DecoderOk::StreamEmpty => {
                println!("test: success, stream empty");
                panic!("the message that was written is not there");
            }
            DecoderOk::NotEnough(size) => {
                println!("test: success, not enough data: {:?}", size);
                panic!("the message that was written is incomplete");
            }
        },
        Err(e) => {
            println!("test: failed: {:?}", e);
            panic!("the read failed");
        }
    }
}

#[test]
fn round_trip_of_many_lengths() {
    for len in [0usize, 1, 2, 3, 4, 5, 63, 64] {
        let mut codec = LoopbackCodec::new(LDCodecDebugStream::default(), 64);
        let data: Vec<u8> = (0..len).map(|i| (i * 7 + 3) as u8).collect();
        assert_eq!(codec.write_encoded(data.clone()), Ok(EncoderOk::FullOk(len as u64)));
        assert_eq!(codec.try_read_decoded(), Ok(DecoderOk::Message(data)));
        assert_eq!(codec.try_read_decoded(), Ok(DecoderOk::StreamEmpty));
    }
}

#[test]
fn messages_come_out_in_the_order_written() {
    let mut codec = LoopbackCodec::new(LDCodecDebugStream::default(), 64);
    assert_eq!(codec.write_encoded(vec![1, 2, 3]), Ok(EncoderOk::FullOk(3)));
    assert_eq!(codec.write_encoded(vec![]), Ok(EncoderOk::FullOk(0)));
    assert_eq!(codec.write_encoded(vec![9]), Ok(EncoderOk::FullOk(1)));
    assert_eq!(codec.try_read_decoded(), Ok(DecoderOk::Message(vec![1, 2, 3])));
    assert_eq!(codec.try_read_decoded(), Ok(DecoderOk::Message(vec![])));
    assert_eq!(codec.try_read_decoded(), Ok(DecoderOk::Message(vec![9])));
    assert_eq!(codec.try_read_decoded(), Ok(DecoderOk::StreamEmpty));
}

#[test]
fn oversized_message_leaves_the_stream_empty() {
    let mut codec = LoopbackCodec::new(LDCodecDebugStream::default(), 4);
    assert_eq!(
        codec.write_encoded(vec![1, 2, 3, 4, 5]),
        Err(EncoderError::DataTooBig(EncoderBufferringStatus {
            requested_size: 5,
            internal_size: 0,
            max_message_size: 4,
        }))
    );
    assert_eq!(codec.try_read_decoded(), Ok(DecoderOk::StreamEmpty));
}

#[test]
fn partial_writes_are_sent_on_completion() {
    let mut codec = LoopbackCodec::new(LDCodecDebugStream::default(), 64);
    assert_eq!(codec.write_partial(vec![1]), Ok(EncoderOk::PartialOk(1)));
    assert_eq!(codec.write_partial(vec![2, 3]), Ok(EncoderOk::PartialOk(3)));
    assert_eq!(codec.write_partial(vec![4]), Ok(EncoderOk::PartialOk(4)));
    assert_eq!(codec.try_read_decoded(), Err(DecoderError::NotInReadableState));
    assert_eq!(codec.write_encoded(Vec::new()), Ok(EncoderOk::FullOk(4)));
    assert_eq!(codec.try_read_decoded(), Ok(DecoderOk::Message(vec![1, 2, 3, 4])));
}

#[test]
fn empty_open_stream_reads_as_stream_empty() {
    let mut codec = LoopbackCodec::new(LDCodecDebugStream::default(), 64);
    assert_eq!(codec.try_read_decoded(), Ok(DecoderOk::StreamEmpty));
    assert_eq!(codec.try_read_decoded(), Ok(DecoderOk::StreamEmpty));
}

#[test]
fn shut_stream_closes_the_codec_for_good() {
    let mut codec = LoopbackCodec::new(LDCodecDebugStream::default(), 64);
    codec.shutdown();
    let closed = "stream shut down".to_string();
    assert_eq!(codec.try_read_decoded(), Err(DecoderError::StreamClosed(closed.clone())));
    assert_eq!(codec.try_read_decoded(), Err(DecoderError::StreamClosed(closed.clone())));
    assert_eq!(codec.write_encoded(vec![1]), Err(EncoderError::StreamClosed(closed.clone())));
    assert_eq!(codec.write_partial(vec![1]), Err(EncoderError::StreamClosed(closed.clone())));
    assert_eq!(codec.try_read_decoded(), Err(DecoderError::StreamClosed(closed)));
}

#[test]
fn write_to_a_shut_stream_reports_closure() {
    let mut codec = LoopbackCodec::new(LDCodecDebugStream::default(), 64);
    codec.shutdown();
    let closed = "stream shut down".to_string();
    assert_eq!(codec.write_encoded(vec![1]), Err(EncoderError::StreamClosed(closed.clone())));
    assert_eq!(codec.write_encoded(vec![1]), Err(EncoderError::StreamClosed(closed.clone())));
    assert_eq!(codec.try_read_decoded(), Err(DecoderError::StreamClosed(closed)));
}

#[test]
fn what_was_flushed_before_shutdown_is_still_read() {
    let mut codec = LoopbackCodec::new(LDCodecDebugStream::default(), 64);
    assert_eq!(codec.write_encoded(vec![7, 8]), Ok(EncoderOk::FullOk(2)));
    codec.shutdown();
    assert_eq!(codec.try_read_decoded(), Ok(DecoderOk::Message(vec![7, 8])));
    assert_eq!(
        codec.try_read_decoded(),
        Err(DecoderError::StreamClosed("stream shut down".to_string()))
    );
}

#[test]
fn stream_hands_out_bytes_in_order_and_in_pieces() {
    let mut stream = LDCodecDebugStream::default();
    assert_eq!(stream.try_read(4), ReadEvent::WouldBlock);
    assert_eq!(stream.write(&[1, 2, 3]), 3);
    assert_eq!(stream.try_read(4), ReadEvent::WouldBlock);
    assert_eq!(stream.write(&[4, 5]), 2);
    stream.flush();
    assert_eq!(stream.try_read(2), ReadEvent::Filled(vec![1, 2]));
    assert_eq!(stream.try_read(0), ReadEvent::Filled(vec![]));
    assert_eq!(stream.try_read(10), ReadEvent::Filled(vec![3, 4, 5]));
    assert_eq!(stream.try_read(1), ReadEvent::WouldBlock);
    assert_eq!(stream.transmit(&[6]), WriteEvent::Flushed);
    stream.shutdown();
    assert_eq!(stream.transmit(&[7]), WriteEvent::Closed("stream shut down".to_string()));
    assert_eq!(stream.try_read(1), ReadEvent::Filled(vec![6]));
    assert_eq!(stream.try_read(1), ReadEvent::Closed("stream shut down".to_string()));
}

#[test]
fn prefix_is_little_endian() {
    assert_eq!(encode_prefix(0), vec![0, 0, 0, 0]);
    assert_eq!(encode_prefix(5), vec![5, 0, 0, 0]);
    assert_eq!(encode_prefix(0x0102_0304), vec![4, 3, 2, 1]);
    assert_eq!(encode_prefix(u32::MAX), vec![255, 255, 255, 255]);
    assert_eq!(decode_prefix(&[4, 3, 2, 1]), 0x0102_0304);
    assert_eq!(decode_prefix(&[255, 255, 255, 255, 9]), u32::MAX);
    assert_eq!(decode_prefix(&[0, 1, 0, 0]), 256);
    for n in [0u32, 1, 255, 256, 65_535, 65_536, 16_777_216, 0xDEAD_BEEF] {
        assert_eq!(encode_prefix(n), n.to_le_bytes().to_vec());
        assert_eq!(decode_prefix(&encode_prefix(n)), n);
    }
}

#[test]
fn frame_is_prefix_then_payload() {
    assert_eq!(
        encode_frame(&[0xA1, 0xB2, 0xC3, 0xD4, 0xA5]),
        vec![0x05, 0x00, 0x00, 0x00, 0xA1, 0xB2, 0xC3, 0xD4, 0xA5]
    );
    assert_eq!(encode_frame(&[]), vec![0, 0, 0, 0]);
    let mut dst = vec![1u8];
    append_bytes(&mut dst, &[2, 3]);
    assert_eq!(dst, vec![1, 2, 3]);
}

fn read_once(codec: &mut LDCodec, stream: &mut LDCodecDebugStream) -> Result<DecoderOk, DecoderError> {
    let mut step = codec.begin_read();
    loop {
        match step {
            ReadStep::Done(outcome) => return outcome,
            ReadStep::Attempt(wanted) => {
                let event = stream.try_read(wanted as usize);
                step = codec.on_read(event);
            }
        }
    }
}

#[test]
fn stream_delivers_the_prefix_in_two_chunks() {
    let mut codec = LDCodec::new(64);
    let mut stream = LDCodecDebugStream::default();
    stream.write(&[0x05, 0x00]);
    stream.flush();
    assert_eq!(read_once(&mut codec, &mut stream), Ok(DecoderOk::NotEnough(2)));
    assert_eq!(codec.state(), CodecState::PartialRead);
    stream.write(&[0x00, 0x00, 0xA1, 0xB2, 0xC3, 0xD4, 0xA5]);
    stream.flush();
    assert_eq!(
        read_once(&mut codec, &mut stream),
        Ok(DecoderOk::Message(vec![0xA1, 0xB2, 0xC3, 0xD4, 0xA5]))
    );
    assert_eq!(codec.state(), CodecState::Ready);
    assert_eq!(read_once(&mut codec, &mut stream), Ok(DecoderOk::StreamEmpty));
}

#[test]
fn frame_cut_at_every_place_is_read_back() {
    let payload: Vec<u8> = vec![10, 20, 30, 40, 50, 60];
    let wire = encode_frame(&payload);
    for cut in 1..wire.len() {
        let mut codec = LDCodec::new(64);
        let mut stream = LDCodecDebugStream::default();
        stream.write(&wire[..cut]);
        stream.flush();
        let missing = if cut < 4 { 4 - cut } else { wire.len() - cut };
        assert_eq!(read_once(&mut codec, &mut stream), Ok(DecoderOk::NotEnough(missing as u32)));
        assert_eq!(codec.buffered_read(), cut);
        stream.write(&wire[cut..]);
        stream.flush();
        assert_eq!(read_once(&mut codec, &mut stream), Ok(DecoderOk::Message(payload.clone())));
        assert_eq!(codec.state(), CodecState::Ready);
    }
}

#[test]
fn frame_delivered_byte_by_byte_is_read_back() {
    let payload: Vec<u8> = vec![1, 2, 3];
    let wire = encode_frame(&payload);
    let mut codec = LDCodec::new(64);
    let mut stream = LDCodecDebugStream::default();
    for (i, byte) in wire.iter().enumerate() {
        stream.write(&[*byte]);
        stream.flush();
        let outcome = read_once(&mut codec, &mut stream);
        if i + 1 == wire.len() {
            assert_eq!(outcome, Ok(DecoderOk::Message(payload.clone())));
        } else if i + 1 < 4 {
            assert_eq!(outcome, Ok(DecoderOk::NotEnough((3 - i) as u32)));
        } else {
            assert_eq!(outcome, Ok(DecoderOk::NotEnough((wire.len() - i - 1) as u32)));
        }
    }
}

#[test]
fn two_frames_on_the_stream_are_read_one_at_a_time() {
    let mut codec = LDCodec::new(64);
    let mut stream = LDCodecDebugStream::default();
    stream.write(&encode_frame(&[1, 2]));
    stream.write(&encode_frame(&[3]));
    stream.flush();
    assert_eq!(read_once(&mut codec, &mut stream), Ok(DecoderOk::Message(vec![1, 2])));
    assert_eq!(read_once(&mut codec, &mut stream), Ok(DecoderOk::Message(vec![3])));
    assert_eq!(read_once(&mut codec, &mut stream), Ok(DecoderOk::StreamEmpty));
}
