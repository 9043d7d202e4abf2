//! The records that the control plane and the data plane exchange.

use vstd::prelude::*;

verus! {

/// What a track carries; it selects the codec's mode.
#[derive(Clone, Copy, Debug, PartialEq, Eq, Structural)]
pub enum TrackType {
    Voice,
    Music,
    LowLatency,
}

/// The configuration of one track.
#[derive(Clone, Debug)]
pub struct TrackConfig {
    /// The track's id, or `None` to have one assigned.
    pub track_id: Option<u8>,
    pub name: String,
    pub device_id: String,
    /// Sample rate in Hz.
    pub sample_rate: u32,
    /// Channel count, 1 or 2.
    pub channels: u16,
    /// Codec bitrate in bits per second.
    pub bitrate: u32,
    /// Codec frame duration in microseconds: 2500, 5000, 10000 or 20000.
    pub frame_size_us: u32,
    pub track_type: TrackType,
    pub fec_enabled: bool,
}

/// One audio device as the control surface lists it.
#[derive(Clone, Debug)]
pub struct AudioDeviceInfo {
    pub id: String,
    pub name: String,
    pub is_input: bool,
    pub is_output: bool,
    pub is_default: bool,
    pub sample_rates: Vec<u32>,
    pub channels: Vec<u16>,
}

} // verus!
