//! Frames, the frame ring and the jitter buffer.

pub mod buffer;
pub mod capture;
pub mod device;
pub mod jitter;
pub mod playback;
pub mod samples;

pub use buffer::{AudioFrame, RingBuffer};
pub use capture::AudioCapture;
pub use jitter::{JitterBuffer, JitterBufferStats};
pub use playback::AudioPlayback;
