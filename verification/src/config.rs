//! Codec configuration and its presets.

use vstd::prelude::*;

use crate::constants::{DEFAULT_BITRATE, DEFAULT_SAMPLE_RATE};
use crate::protocol::TrackType;

verus! {

/// The kind of signal the encoder is told to expect.
#[derive(Clone, Copy, Debug, PartialEq, Eq, Structural)]
pub enum OpusSignal {
    Auto,
    Voice,
    Music,
}

/// The widest audio band the encoder may use.
#[derive(Clone, Copy, Debug, PartialEq, Eq, Structural)]
pub enum OpusBandwidth {
    Narrowband,
    Mediumband,
    Wideband,
    Superwideband,
    Fullband,
}

/// Everything an encoder is set up with.
#[derive(Clone, Copy, Debug)]
pub struct OpusConfig {
    /// Sample rate in Hz.
    pub sample_rate: u32,
    /// Channel count, 1 or 2.
    pub channels: u16,
    pub application: TrackType,
    /// Bitrate in bits per second.
    pub bitrate: u32,
    /// Samples per channel in one frame.
    pub frame_size: usize,
    /// Variable bitrate.
    pub vbr: bool,
    /// Constrained variable bitrate; only read when `vbr` is set.
    pub cvbr: bool,
    /// Encoder effort, 0 to 10.
    pub complexity: u8,
    /// In-band forward error correction.
    pub fec: bool,
    /// Expected packet loss in percent; only read when `fec` is set.
    pub packet_loss_perc: u8,
    /// Discontinuous transmission.
    pub dtx: bool,
    pub signal: OpusSignal,
    pub max_bandwidth: OpusBandwidth,
}

/// Samples per channel in a frame of `duration_us` microseconds, rounded down.
pub open spec fn frame_samples(sample_rate: u32, duration_us: u32) -> nat {
    ((sample_rate as nat) * (duration_us as nat) / 1_000_000) as nat
}

impl OpusConfig {
    /// Speech: mono, 32 kbit/s, 10 ms frames, forward error correction and
    /// discontinuous transmission on.
    pub open spec fn spec_voice() -> OpusConfig {
        OpusConfig {
            sample_rate: DEFAULT_SAMPLE_RATE,
            channels: 1,
            application: TrackType::Voice,
            bitrate: 32_000,
            frame_size: 480,
            vbr: true,
            cvbr: false,
            complexity: 8,
            fec: true,
            packet_loss_perc: 5,
            dtx: true,
            signal: OpusSignal::Voice,
            max_bandwidth: OpusBandwidth::Wideband,
        }
    }

    #[verifier::when_used_as_spec(spec_voice)]
    pub fn voice() -> (config: Self)
        ensures
            config == Self::spec_voice(),
    {
        OpusConfig {
            sample_rate: DEFAULT_SAMPLE_RATE,
            channels: 1,
            application: TrackType::Voice,
            bitrate: 32_000,
            frame_size: 480,
            vbr: true,
            cvbr: false,
            complexity: 8,
            fec: true,
            packet_loss_perc: 5,
            dtx: true,
            signal: OpusSignal::Voice,
            max_bandwidth: OpusBandwidth::Wideband,
        }
    }

    /// Music: stereo, 128 kbit/s, 10 ms frames, full band, highest effort.
    pub open spec fn spec_music() -> OpusConfig {
        OpusConfig {
            sample_rate: DEFAULT_SAMPLE_RATE,
            channels: 2,
            application: TrackType::Music,
            bitrate: DEFAULT_BITRATE,
            frame_size: 480,
            vbr: true,
            cvbr: true,
            complexity: 10,
            fec: false,
            packet_loss_perc: 0,
            dtx: false,
            signal: OpusSignal::Music,
            max_bandwidth: OpusBandwidth::Fullband,
        }
    }

    #[verifier::when_used_as_spec(spec_music)]
    pub fn music() -> (config: Self)
        ensures
            config == Self::spec_music(),
    {
        OpusConfig {
            sample_rate: DEFAULT_SAMPLE_RATE,
            channels: 2,
            application: TrackType::Music,
            bitrate: DEFAULT_BITRATE,
            frame_size: 480,
            vbr: true,
            cvbr: true,
            complexity: 10,
            fec: false,
            packet_loss_perc: 0,
            dtx: false,
            signal: OpusSignal::Music,
            max_bandwidth: OpusBandwidth::Fullband,
        }
    }

    /// Lowest delay: stereo, 96 kbit/s at constant bitrate, 2.5 ms frames.
    pub open spec fn spec_low_latency() -> OpusConfig {
        OpusConfig {
            sample_rate: DEFAULT_SAMPLE_RATE,
            channels: 2,
            application: TrackType::LowLatency,
            bitrate: 96_000,
            frame_size: 120,
            vbr: false,
            cvbr: false,
            complexity: 5,
            fec: false,
            packet_loss_perc: 0,
            dtx: false,
            signal: OpusSignal::Auto,
            max_bandwidth: OpusBandwidth::Fullband,
        }
    }

    #[verifier::when_used_as_spec(spec_low_latency)]
    pub fn low_latency() -> (config: Self)
        ensures
            config == Self::spec_low_latency(),
    {
        OpusConfig {
            sample_rate: DEFAULT_SAMPLE_RATE,
            channels: 2,
            application: TrackType::LowLatency,
            bitrate: 96_000,
            frame_size: 120,
            vbr: false,
            cvbr: false,
            complexity: 5,
            fec: false,
            packet_loss_perc: 0,
            dtx: false,
            signal: OpusSignal::Auto,
            max_bandwidth: OpusBandwidth::Fullband,
        }
    }

    /// Samples per channel in a frame of `duration_us` microseconds at
    /// `sample_rate`, rounded down.
    pub fn frame_size_from_us(sample_rate: u32, duration_us: u32) -> (n: usize)
        requires
            frame_samples(sample_rate, duration_us) <= usize::MAX,
        ensures
            n == frame_samples(sample_rate, duration_us),
    {
        assert(sample_rate as nat * duration_us as nat <= 0xffff_ffff * 0xffff_ffff)
            by (nonlinear_arith)
            requires
                sample_rate <= 0xffff_ffff,
                duration_us <= 0xffff_ffff,
        ;
        (sample_rate as u64 * duration_us as u64 / 1_000_000) as usize
    }

    /// Duration of one frame in microseconds, rounded down.
    pub fn frame_duration_us(&self) -> (us: u128)
        requires
            self.sample_rate > 0,
        ensures
            us == (self.frame_size as nat) * 1_000_000 / (self.sample_rate as nat),
    {
        self.frame_size as u128 * 1_000_000 / self.sample_rate as u128
    }
}

} // verus!
