//! Defaults and limits shared by the sender and the receiver.

use vstd::prelude::*;

verus! {

/// Default sample rate, in Hz.
pub const DEFAULT_SAMPLE_RATE: u32 = 48000;

/// Default channel count (stereo).
pub const DEFAULT_CHANNELS: u16 = 2;

/// Default codec bitrate, in bits per second.
pub const DEFAULT_BITRATE: u32 = 128_000;

/// Default codec frame duration, in microseconds (10 ms).
pub const DEFAULT_FRAME_SIZE_US: u32 = 10_000;

/// Largest number of tracks that run at once.
pub const MAX_TRACKS: usize = 16;

/// Default UDP port of the audio stream.
pub const DEFAULT_UDP_PORT: u16 = 5000;

/// Default port of the control socket.
pub const DEFAULT_WS_PORT: u16 = 8080;

/// Default jitter buffer depth, in milliseconds.
pub const DEFAULT_JITTER_BUFFER_MS: u32 = 20;

/// Largest datagram that is sent or accepted, in bytes.
pub const MAX_PACKET_SIZE: usize = 1472;

/// Default capacity of a frame ring, in frames.
pub const RING_BUFFER_CAPACITY: usize = 256;

/// Largest capacity a frame ring can be made with; the queue behind the ring
/// refuses capacities that its index type cannot count a lap of.
pub const MAX_RING_CAPACITY: usize = 0x0100_0000;

} // verus!
