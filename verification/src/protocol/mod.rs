//! The wire protocol: framing, the channel handshake and the command codes.

use vstd::prelude::*;

pub mod channel;
pub mod command;
pub mod packet;

verus! {

/// The magic literal `OHOS HDC` that opens every handshake banner.
pub const HANDSHAKE_BANNER: [u8; 8] = [79, 72, 79, 83, 32, 72, 68, 67];

/// Largest payload, in bytes, that one frame may carry (511 KiB).
pub const MAX_PACKET_SIZE: usize = 511 * 1024;

/// Default buffer size, in bytes.
pub const DEFAULT_BUF_SIZE: usize = 1024;

/// Number of bytes of the big-endian length prefix of a frame.
pub const PACKET_LENGTH_SIZE: usize = 4;

} // verus!
