use crate::types::decoder::{DecoderError, DecoderOk};
use crate::types::encoder::{EncoderError, EncoderOk};
use vstd::prelude::*;

verus! {

/// Something that hands out one message at a time from a stream of bytes:
/// a complete message, word that the stream is empty, or the number of bytes
/// that the message under way still lacks.
pub trait Decoder {
    /// The invariant that the decoder needs and keeps.
    spec fn decoder_inv(&self) -> bool;

    /// Attempts to produce the next complete message.
    fn try_read_decoded(&mut self) -> (r: Result<DecoderOk, DecoderError>)
        requires
            old(self).decoder_inv(),
        ensures
            final(self).decoder_inv(),
    ;
}

/// Something that frames messages and puts them on a stream of bytes, whole
/// or assembled from chunks.
pub trait Encoder {
    /// The invariant that the encoder needs and keeps.
    spec fn encoder_inv(&self) -> bool;

    /// Frames and transmits one message: what was buffered, then `data`.
    fn write_encoded(&mut self, data: Vec<u8>) -> (r: Result<EncoderOk, EncoderError>)
        requires
            old(self).encoder_inv(),
        ensures
            final(self).encoder_inv(),
    ;

    /// Buffers one more chunk of a message that is sent later.
    fn write_partial(&mut self, data: Vec<u8>) -> (r: Result<EncoderOk, EncoderError>)
        requires
            old(self).encoder_inv(),
        ensures
            final(self).encoder_inv(),
    ;
}

} // verus!
