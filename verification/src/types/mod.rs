pub mod debug_stream;
pub mod decoder;
pub mod encoder;
pub mod laws;
pub mod ldcodec;
pub mod wire;
