//! A point-to-point message channel over a local byte stream.
//!
//! Values travel as frames: a 4-byte big-endian length followed by that many
//! bytes of encoded payload. This crate holds the verified core of the
//! channel — the frame format, the payload codec, and the decision logic of
//! receiving and teardown. The unverified shell around it performs the
//! actual socket reads and writes and feeds their outcomes back in.

pub mod channel;
pub mod codec;
pub mod error;
pub mod protocol;
pub mod wire;
