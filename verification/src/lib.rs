//! Length-delimited message framing as a transport-free state machine.
//!
//! A frame on the wire is a four-byte little-endian length followed by that
//! many payload bytes. The codec never touches a transport itself: it tells
//! its driver what to attempt next, and is told what the transport answered.

pub mod traits;
pub mod types;
