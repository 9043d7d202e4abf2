//! The encoder's configuration, frame-size rule and statistics.

use vstd::prelude::*;
use vstd::string::StringExecFns;

use crate::config::{frame_samples, OpusBandwidth, OpusConfig, OpusSignal};
use crate::error::CodecError;
use crate::ratio::Ratio;
use crate::text::{decimal, with_number};

verus! {

/// One control that is set on the codec's encoder.
#[derive(Clone, Copy, Debug)]
pub enum EncoderSetting {
    Bitrate(u32),
    Vbr(bool),
    VbrConstraint(bool),
    Complexity(u8),
    InbandFec(bool),
    PacketLossPerc(u8),
    Dtx(bool),
    Signal(OpusSignal),
    MaxBandwidth(OpusBandwidth),
}

impl EncoderSetting {
    /// The name of the control in error messages.
    pub open spec fn label(self) -> Seq<char> {
        match self {
            EncoderSetting::Bitrate(_) => "bitrate"@,
            EncoderSetting::Vbr(_) => "VBR"@,
            EncoderSetting::VbrConstraint(_) => "CVBR"@,
            EncoderSetting::Complexity(_) => "complexity"@,
            EncoderSetting::InbandFec(_) => "FEC"@,
            EncoderSetting::PacketLossPerc(_) => "packet loss"@,
            EncoderSetting::Dtx(_) => "DTX"@,
            EncoderSetting::Signal(_) => "signal type"@,
            EncoderSetting::MaxBandwidth(_) => "bandwidth"@,
        }
    }

    /// The message for a control that the codec refused: `Failed to set`, the
    /// control's name, a colon and the codec's own words.
    pub open spec fn failure_text(self, cause: Seq<char>) -> Seq<char> {
        "Failed to set "@ + self.label() + ": "@ + cause
    }

    /// The error for a control that the codec refused with the words `cause`.
    pub fn failure(&self, cause: &str) -> (e: CodecError)
        ensures
            e matches CodecError::EncoderInit(msg) && msg@ == self.failure_text(cause@),
    {
        let label = match self {
            EncoderSetting::Bitrate(_) => "bitrate",
            EncoderSetting::Vbr(_) => "VBR",
            EncoderSetting::VbrConstraint(_) => "CVBR",
            EncoderSetting::Complexity(_) => "complexity",
            EncoderSetting::InbandFec(_) => "FEC",
            EncoderSetting::PacketLossPerc(_) => "packet loss",
            EncoderSetting::Dtx(_) => "DTX",
            EncoderSetting::Signal(_) => "signal type",
            EncoderSetting::MaxBandwidth(_) => "bandwidth",
        };
        let msg = String::from_str("Failed to set ").concat(label).concat(": ").concat(cause);
        CodecError::EncoderInit(msg)
    }
}

/// The controls that set an encoder up for a configuration, in the order
/// they are applied: bitrate, VBR, the VBR constraint where both `vbr` and
/// `cvbr` are set, complexity, FEC, the expected loss where `fec` is set,
/// DTX, signal type and bandwidth.
pub open spec fn settings_of(config: OpusConfig) -> Seq<EncoderSetting> {
    seq![EncoderSetting::Bitrate(config.bitrate), EncoderSetting::Vbr(config.vbr)] + (if config.vbr
        && config.cvbr {
        seq![EncoderSetting::VbrConstraint(true)]
    } else {
        Seq::empty()
    }) + seq![EncoderSetting::Complexity(config.complexity), EncoderSetting::InbandFec(config.fec)]
        + (if config.fec {
        seq![EncoderSetting::PacketLossPerc(config.packet_loss_perc)]
    } else {
        Seq::empty()
    }) + seq![
        EncoderSetting::Dtx(config.dtx),
        EncoderSetting::Signal(config.signal),
        EncoderSetting::MaxBandwidth(config.max_bandwidth),
    ]
}

/// The controls of a change of the FEC setting: FEC itself, then the
/// expected loss where FEC is switched on.
pub open spec fn fec_settings_of(enabled: bool, packet_loss_perc: u8) -> Seq<EncoderSetting> {
    if enabled {
        seq![EncoderSetting::InbandFec(true), EncoderSetting::PacketLossPerc(packet_loss_perc)]
    } else {
        seq![EncoderSetting::InbandFec(false)]
    }
}

/// What an encoder has counted.
#[derive(Clone, Copy, Debug)]
pub struct EncoderStats {
    pub frames_encoded: u64,
    pub bytes_produced: u64,
    /// Bytes per encoded frame; zero before the first frame.
    pub average_frame_size: Ratio,
}

/// An encoder as plain values.
pub struct EncoderState {
    pub config: OpusConfig,
    pub frames_encoded: u64,
    pub bytes_produced: u64,
}

/// The message for a channel count that the codec does not take.
pub open spec fn unsupported_channels(channels: u16) -> Seq<char> {
    "Unsupported channel count: "@ + decimal(channels as nat)
}

/// What making an encoder from a preset gives: with one or two channels, an
/// encoder with nothing counted whose configuration is the preset's at the
/// given sample rate and channel count, with frames of `duration_us`
/// microseconds; with any other channel count, `EncoderInit`.
pub open spec fn made_from_preset(
    r: Result<OpusEncoder, CodecError>,
    preset: OpusConfig,
    sample_rate: u32,
    channels: u16,
    duration_us: u32,
) -> bool {
    if 1 <= channels <= 2 {
        r is Ok && r->Ok_0@ == (EncoderState {
            config: OpusConfig {
                sample_rate,
                channels,
                frame_size: frame_samples(sample_rate, duration_us) as usize,
                ..preset
            },
            frames_encoded: 0,
            bytes_produced: 0,
        })
    } else {
        r is Err && (r->Err_0 matches CodecError::EncoderInit(msg) && msg@ == unsupported_channels(
            channels,
        ))
    }
}

/// The control side of one track's encoder.
pub struct OpusEncoder {
    config: OpusConfig,
    frames_encoded: u64,
    bytes_produced: u64,
}

impl View for OpusEncoder {
    type V = EncoderState;

    closed spec fn view(&self) -> EncoderState {
        EncoderState {
            config: self.config,
            frames_encoded: self.frames_encoded,
            bytes_produced: self.bytes_produced,
        }
    }
}

impl OpusEncoder {
    #[verifier::type_invariant]
    spec fn inv(self) -> bool {
        &&& 1 <= self.config.channels <= 2
        &&& self.config.frame_size * 2 <= usize::MAX
    }

    /// An encoder for the configuration, with nothing counted. A channel
    /// count other than 1 or 2 fails with `EncoderInit` and the message
    /// `Unsupported channel count:` followed by the count.
    pub fn new(config: OpusConfig) -> (r: Result<Self, CodecError>)
        requires
            config.frame_size * 2 <= usize::MAX,
        ensures
            1 <= config.channels <= 2 ==> r is Ok && r->Ok_0@ == (EncoderState {
                config,
                frames_encoded: 0,
                bytes_produced: 0,
            }),
            !(1 <= config.channels <= 2) ==> r is Err && (r->Err_0 matches CodecError::EncoderInit(
                msg,
            ) && msg@ == unsupported_channels(config.channels)),
    {
        if config.channels != 1 && config.channels != 2 {
            return Err(
                CodecError::EncoderInit(
                    with_number("Unsupported channel count: ", config.channels as u64),
                ),
            );
        }
        Ok(Self { config, frames_encoded: 0, bytes_produced: 0 })
    }

    /// The voice preset at the given sample rate and channel count, with 10 ms frames.
    pub fn voice(sample_rate: u32, channels: u16) -> (r: Result<Self, CodecError>)
        ensures
            made_from_preset(r, OpusConfig::voice(), sample_rate, channels, 10_000),
    {
        Self::preset(OpusConfig::voice(), sample_rate, channels, 10_000)
    }

    /// The music preset at the given sample rate and channel count, with 10 ms frames.
    pub fn music(sample_rate: u32, channels: u16) -> (r: Result<Self, CodecError>)
        ensures
            made_from_preset(r, OpusConfig::music(), sample_rate, channels, 10_000),
    {
        Self::preset(OpusConfig::music(), sample_rate, channels, 10_000)
    }

    /// The low-latency preset at the given sample rate and channel count, with 2.5 ms frames.
    pub fn low_latency(sample_rate: u32, channels: u16) -> (r: Result<Self, CodecError>)
        ensures
            made_from_preset(r, OpusConfig::low_latency(), sample_rate, channels, 2_500),
    {
        Self::preset(OpusConfig::low_latency(), sample_rate, channels, 2_500)
    }

    fn preset(base: OpusConfig, sample_rate: u32, channels: u16, duration_us: u32) -> (r: Result<
        Self,
        CodecError,
    >)
        requires
            duration_us <= 10_000,
        ensures
            made_from_preset(r, base, sample_rate, channels, duration_us),
    {
        assert(sample_rate as nat * duration_us as nat <= 0xffff_ffff * 10_000) by (nonlinear_arith)
            requires
                sample_rate <= 0xffff_ffff,
                duration_us <= 10_000,
        ;
        let mut config = base;
        config.sample_rate = sample_rate;
        config.channels = channels;
        config.frame_size = OpusConfig::frame_size_from_us(sample_rate, duration_us);
        Self::new(config)
    }

    /// The controls to set on a fresh codec encoder, in order.
    pub fn settings(&self) -> (list: Vec<EncoderSetting>)
        ensures
            list@ == settings_of(self@.config),
    {
        let config = &self.config;
        let mut list: Vec<EncoderSetting> = Vec::new();
        list.push(EncoderSetting::Bitrate(config.bitrate));
        list.push(EncoderSetting::Vbr(config.vbr));
        if config.vbr && config.cvbr {
            list.push(EncoderSetting::VbrConstraint(true));
        }
        list.push(EncoderSetting::Complexity(config.complexity));
        list.push(EncoderSetting::InbandFec(config.fec));
        if config.fec {
            list.push(EncoderSetting::PacketLossPerc(config.packet_loss_perc));
        }
        list.push(EncoderSetting::Dtx(config.dtx));
        list.push(EncoderSetting::Signal(config.signal));
        list.push(EncoderSetting::MaxBandwidth(config.max_bandwidth));
        list
    }

    /// The controls to set on the codec for a change of the FEC setting, in order.
    pub fn fec_settings(enabled: bool, packet_loss_perc: u8) -> (list: Vec<EncoderSetting>)
        ensures
            list@ == fec_settings_of(enabled, packet_loss_perc),
    {
        let mut list: Vec<EncoderSetting> = Vec::new();
        list.push(EncoderSetting::InbandFec(enabled));
        if enabled {
            list.push(EncoderSetting::PacketLossPerc(packet_loss_perc));
        }
        list
    }

    /// Whether a block of `sample_count` interleaved samples is one frame:
    /// `frame_size` samples for each channel. Any other count fails with
    /// `InvalidFrameSize` and the count.
    pub fn begin_encode(&self, sample_count: usize) -> (r: Result<usize, CodecError>)
        ensures
            sample_count == self@.config.frame_size * self@.config.channels ==> r == Ok::<
                usize,
                CodecError,
            >(sample_count),
            sample_count != self@.config.frame_size * self@.config.channels ==> r == Err::<
                usize,
                CodecError,
            >(CodecError::InvalidFrameSize(sample_count)),
    {
        if sample_count != self.samples_per_frame() {
            return Err(CodecError::InvalidFrameSize(sample_count));
        }
        Ok(sample_count)
    }

    /// Takes in what the codec made of one frame: a packet of `size` bytes
    /// counts as one frame and `size` bytes; the codec's failure becomes
    /// `EncodingFailed` with its words and counts nothing.
    pub fn finish_encode(&mut self, outcome: Result<usize, String>) -> (r: Result<usize, CodecError>)
        ensures
            final(self)@.config == old(self)@.config,
            match outcome {
                Ok(size) => r == Ok::<usize, CodecError>(size) && final(self)@.frames_encoded == old(self)@.frames_encoded.wrapping_add(1) && final(self)@.bytes_produced == old(self)@.bytes_produced.wrapping_add(size as u64),
                Err(cause) => r == Err::<usize, CodecError>(CodecError::EncodingFailed(cause))
                    && final(self)@ == old(self)@,
            },
    {
        proof {
            use_type_invariant(&*self);
        }
        match outcome {
            Ok(size) => {
                self.frames_encoded = self.frames_encoded.wrapping_add(1);
                self.bytes_produced = self.bytes_produced.wrapping_add(size as u64);
                Ok(size)
            },
            Err(cause) => Err(CodecError::EncodingFailed(cause)),
        }
    }

    /// Records a bitrate that the codec has accepted.
    pub fn set_bitrate(&mut self, bitrate: u32)
        ensures
            final(self)@ == (EncoderState {
                config: OpusConfig { bitrate, ..old(self)@.config },
                ..old(self)@
            }),
    {
        proof {
            use_type_invariant(&*self);
        }
        self.config.bitrate = bitrate;
    }

    /// Records an FEC setting that the codec has accepted.
    pub fn set_fec(&mut self, enabled: bool, packet_loss_perc: u8)
        ensures
            final(self)@ == (EncoderState {
                config: OpusConfig { fec: enabled, packet_loss_perc, ..old(self)@.config },
                ..old(self)@
            }),
    {
        proof {
            use_type_invariant(&*self);
        }
        self.config.fec = enabled;
        self.config.packet_loss_perc = packet_loss_perc;
    }

    pub fn config(&self) -> (config: &OpusConfig)
        ensures
            *config == self@.config,
            1 <= config.channels <= 2,
    {
        proof {
            use_type_invariant(self);
        }
        &self.config
    }

    /// Samples per channel in one frame.
    pub fn frame_size(&self) -> (n: usize)
        ensures
            n == self@.config.frame_size,
    {
        self.config.frame_size
    }

    /// Samples in one frame, all channels together.
    pub fn samples_per_frame(&self) -> (n: usize)
        ensures
            n == self@.config.frame_size * self@.config.channels,
    {
        proof {
            use_type_invariant(self);
        }
        assert(self.config.frame_size * self.config.channels <= self.config.frame_size * 2)
            by (nonlinear_arith)
            requires
                self.config.channels <= 2,
        ;
        self.config.frame_size * self.config.channels as usize
    }

    /// Duration of one frame in microseconds, rounded down.
    pub fn frame_duration_us(&self) -> (us: u128)
        requires
            self@.config.sample_rate > 0,
        ensures
            us == (self@.config.frame_size as nat) * 1_000_000 / (self@.config.sample_rate as nat),
    {
        self.config.frame_duration_us()
    }

    pub fn stats(&self) -> (stats: EncoderStats)
        ensures
            stats.frames_encoded == self@.frames_encoded,
            stats.bytes_produced == self@.bytes_produced,
            stats.average_frame_size == Ratio::spec_of(
                self@.bytes_produced as nat,
                self@.frames_encoded as nat,
            ),
    {
        EncoderStats {
            frames_encoded: self.frames_encoded,
            bytes_produced: self.bytes_produced,
            average_frame_size: Ratio::of(self.bytes_produced as u128, self.frames_encoded as u128),
        }
    }

    pub fn reset_stats(&mut self)
        ensures
            final(self)@ == (EncoderState {
                frames_encoded: 0,
                bytes_produced: 0,
                ..old(self)@
            }),
    {
        proof {
            use_type_invariant(&*self);
        }
        self.frames_encoded = 0;
        self.bytes_produced = 0;
    }
}

} // verus!
