//! The decoder's parameters and statistics.

use vstd::prelude::*;

use crate::codec::encoder::unsupported_channels;
use crate::error::CodecError;
use crate::ratio::Ratio;
use crate::text::with_number;

verus! {

/// Samples the decoding buffer holds: 120 ms of stereo at 48 kHz.
pub const DECODE_BUFFER_LEN: usize = 11520;

/// What a decoder has counted.
#[derive(Clone, Copy, Debug)]
pub struct DecoderStats {
    pub frames_decoded: u64,
    pub frames_lost: u64,
    pub samples_produced: u64,
    /// Concealed frames over all frames; zero before the first frame.
    pub loss_rate: Ratio,
}

/// A decoder as plain values.
pub struct DecoderState {
    pub sample_rate: u32,
    pub channels: u16,
    pub frame_size: usize,
    pub frames_decoded: u64,
    pub frames_lost: u64,
    pub samples_produced: u64,
}

impl DecoderState {
    /// The decoder after it decoded a frame of `n` samples in each channel.
    pub open spec fn decoded(self, n: usize) -> DecoderState {
        DecoderState {
            frames_decoded: self.frames_decoded.wrapping_add(1),
            samples_produced: self.samples_produced.wrapping_add((n * self.channels) as u64),
            ..self
        }
    }

    /// The decoder after it concealed a lost frame with `n` samples in each channel.
    pub open spec fn concealed(self, n: usize) -> DecoderState {
        DecoderState {
            frames_lost: self.frames_lost.wrapping_add(1),
            samples_produced: self.samples_produced.wrapping_add((n * self.channels) as u64),
            ..self
        }
    }
}

/// The control side of one track's decoder.
pub struct OpusDecoder {
    sample_rate: u32,
    channels: u16,
    frame_size: usize,
    frames_decoded: u64,
    frames_lost: u64,
    samples_produced: u64,
}

impl View for OpusDecoder {
    type V = DecoderState;

    closed spec fn view(&self) -> DecoderState {
        DecoderState {
            sample_rate: self.sample_rate,
            channels: self.channels,
            frame_size: self.frame_size,
            frames_decoded: self.frames_decoded,
            frames_lost: self.frames_lost,
            samples_produced: self.samples_produced,
        }
    }
}

impl OpusDecoder {
    #[verifier::type_invariant]
    spec fn inv(self) -> bool {
        1 <= self.channels <= 2
    }

    /// A decoder with nothing counted. A channel count other than 1 or 2
    /// fails with `DecoderInit` and the message `Unsupported channel count:`
    /// followed by the count.
    pub fn new(sample_rate: u32, channels: u16, frame_size: usize) -> (r: Result<Self, CodecError>)
        ensures
            1 <= channels <= 2 ==> r is Ok && r->Ok_0@ == (DecoderState {
                sample_rate,
                channels,
                frame_size,
                frames_decoded: 0,
                frames_lost: 0,
                samples_produced: 0,
            }),
            !(1 <= channels <= 2) ==> r is Err && (r->Err_0 matches CodecError::DecoderInit(msg)
                && msg@ == unsupported_channels(channels)),
    {
        if channels != 1 && channels != 2 {
            return Err(
                CodecError::DecoderInit(with_number("Unsupported channel count: ", channels as u64)),
            );
        }
        Ok(
            Self {
                sample_rate,
                channels,
                frame_size,
                frames_decoded: 0,
                frames_lost: 0,
                samples_produced: 0,
            },
        )
    }

    /// A decoder for one or two channels, with nothing counted.
    pub fn mono_or_stereo(sample_rate: u32, is_stereo: bool, frame_size: usize) -> (decoder: Self)
        ensures
            decoder@ == (DecoderState {
                sample_rate,
                channels: if is_stereo {
                    2
                } else {
                    1
                },
                frame_size,
                frames_decoded: 0,
                frames_lost: 0,
                samples_produced: 0,
            }),
    {
        Self {
            sample_rate,
            channels: if is_stereo {
                2
            } else {
                1
            },
            frame_size,
            frames_decoded: 0,
            frames_lost: 0,
            samples_produced: 0,
        }
    }

    /// Takes in what the codec made of one packet, with or without FEC:
    /// `n` samples in each channel count as one decoded frame and
    /// `n * channels` samples, which is what is returned; the codec's failure
    /// becomes `DecodingFailed` with its words and counts nothing.
    pub fn finish_decode(&mut self, outcome: Result<usize, String>) -> (r: Result<usize, CodecError>)
        requires
            outcome matches Ok(n) ==> n * old(self)@.channels <= DECODE_BUFFER_LEN,
        ensures
            match outcome {
                Ok(n) => r == Ok::<usize, CodecError>((n * old(self)@.channels) as usize) && final(
                    self
                )@ == old(self)@.decoded(n),
                Err(cause) => r == Err::<usize, CodecError>(CodecError::DecodingFailed(cause))
                    && final(self)@ == old(self)@,
            },
    {
        proof {
            use_type_invariant(&*self);
        }
        match outcome {
            Ok(n) => {
                let total = n * self.channels as usize;
                self.frames_decoded = self.frames_decoded.wrapping_add(1);
                self.samples_produced = self.samples_produced.wrapping_add(total as u64);
                Ok(total)
            },
            Err(cause) => Err(CodecError::DecodingFailed(cause)),
        }
    }

    /// Takes in a concealment frame that the codec made for a missing packet:
    /// as `finish_decode`, but the frame counts as lost, not as decoded.
    pub fn finish_plc(&mut self, outcome: Result<usize, String>) -> (r: Result<usize, CodecError>)
        requires
            outcome matches Ok(n) ==> n * old(self)@.channels <= DECODE_BUFFER_LEN,
        ensures
            match outcome {
                Ok(n) => r == Ok::<usize, CodecError>((n * old(self)@.channels) as usize) && final(
                    self
                )@ == old(self)@.concealed(n),
                Err(cause) => r == Err::<usize, CodecError>(CodecError::DecodingFailed(cause))
                    && final(self)@ == old(self)@,
            },
    {
        proof {
            use_type_invariant(&*self);
        }
        match outcome {
            Ok(n) => {
                let total = n * self.channels as usize;
                self.frames_lost = self.frames_lost.wrapping_add(1);
                self.samples_produced = self.samples_produced.wrapping_add(total as u64);
                Ok(total)
            },
            Err(cause) => Err(CodecError::DecodingFailed(cause)),
        }
    }

    pub fn sample_rate(&self) -> (n: u32)
        ensures
            n == self@.sample_rate,
    {
        self.sample_rate
    }

    /// The channel count, 1 or 2.
    pub fn channels(&self) -> (n: u16)
        ensures
            n == self@.channels,
            1 <= n <= 2,
    {
        proof {
            use_type_invariant(self);
        }
        self.channels
    }

    /// Samples per channel in one frame.
    pub fn frame_size(&self) -> (n: usize)
        ensures
            n == self@.frame_size,
    {
        self.frame_size
    }

    pub fn stats(&self) -> (stats: DecoderStats)
        ensures
            stats.frames_decoded == self@.frames_decoded,
            stats.frames_lost == self@.frames_lost,
            stats.samples_produced == self@.samples_produced,
            stats.loss_rate == Ratio::spec_of(
                self@.frames_lost as nat,
                (self@.frames_decoded + self@.frames_lost) as nat,
            ),
    {
        DecoderStats {
            frames_decoded: self.frames_decoded,
            frames_lost: self.frames_lost,
            samples_produced: self.samples_produced,
            loss_rate: Ratio::of(
                self.frames_lost as u128,
                self.frames_decoded as u128 + self.frames_lost as u128,
            ),
        }
    }

    pub fn reset_stats(&mut self)
        ensures
            final(self)@ == (DecoderState {
                frames_decoded: 0,
                frames_lost: 0,
                samples_produced: 0,
                ..old(self)@
            }),
    {
        proof {
            use_type_invariant(&*self);
        }
        self.frames_decoded = 0;
        self.frames_lost = 0;
        self.samples_produced = 0;
    }
}

} // verus!
