//! The capture pump of one input device: its life cycle, and what happens to
//! each block of samples the device hands over.

use vstd::prelude::*;
use vstd::string::StringExecFns;

use crate::audio::buffer::{AudioFrame, RingBuffer};
use crate::constants::DEFAULT_SAMPLE_RATE;

verus! {

/// Where a pipeline is in its life.
#[derive(Clone, Copy, Debug, PartialEq, Eq, Structural)]
pub enum PipelineState {
    Created,
    Running,
    Stopped,
}

/// How a device stream is opened.
#[derive(Clone, Copy, Debug)]
pub struct StreamSettings {
    pub channels: u16,
    /// Sample rate in Hz.
    pub sample_rate: u32,
    /// Frames per device callback, or `None` for the device's own choice.
    pub buffer_size: Option<u32>,
}

impl StreamSettings {
    /// The settings for a request: the device's default channel count and
    /// the default sample rate stand in for what the request leaves open.
    pub fn resolve(
        default_channels: u16,
        sample_rate: Option<u32>,
        channels: Option<u16>,
        buffer_size: Option<u32>,
    ) -> (settings: Self)
        ensures
            settings.channels == (match channels {
                Some(n) => n,
                None => default_channels,
            }),
            settings.sample_rate == (match sample_rate {
                Some(n) => n,
                None => DEFAULT_SAMPLE_RATE,
            }),
            settings.buffer_size == buffer_size,
    {
        StreamSettings {
            channels: match channels {
                Some(n) => n,
                None => default_channels,
            },
            sample_rate: match sample_rate {
                Some(n) => n,
                None => DEFAULT_SAMPLE_RATE,
            },
            buffer_size,
        }
    }
}

/// A capture pump as plain values.
pub struct CaptureState {
    pub track_id: u8,
    pub device_id: Seq<char>,
    pub state: PipelineState,
    /// The sequence number of the next captured frame.
    pub sequence: u32,
    /// Samples captured since the last start.
    pub samples_captured: u64,
    pub config: StreamSettings,
}

impl CaptureState {
    /// The pump after `start`: running, with both counters at zero. A pump
    /// that is running already is left as it is.
    pub open spec fn start(self) -> CaptureState {
        if self.state == PipelineState::Running {
            self
        } else {
            CaptureState {
                state: PipelineState::Running,
                sequence: 0,
                samples_captured: 0,
                ..self
            }
        }
    }

    /// The pump after `stop`: stopped if it was running, else as it was.
    pub open spec fn stop(self) -> CaptureState {
        if self.state == PipelineState::Running {
            CaptureState { state: PipelineState::Stopped, ..self }
        } else {
            self
        }
    }

    /// The frame that a running pump makes of a block of samples.
    pub open spec fn frame_of(self, samples: Vec<u32>, timestamp: u64) -> AudioFrame {
        AudioFrame { samples, channels: self.config.channels, timestamp, sequence: self.sequence }
    }

    /// The pump after the device handed over `count` samples: a running pump
    /// moves its sequence number on by one and adds the samples to its count.
    pub open spec fn after_input(self, count: nat) -> CaptureState {
        if self.state == PipelineState::Running {
            CaptureState {
                sequence: self.sequence.wrapping_add(1),
                samples_captured: self.samples_captured.wrapping_add(count as u64),
                ..self
            }
        } else {
            self
        }
    }
}

/// The capture pump of one input device.
pub struct AudioCapture {
    track_id: u8,
    device_id: String,
    state: PipelineState,
    sequence: u32,
    samples_captured: u64,
    config: StreamSettings,
}

impl View for AudioCapture {
    type V = CaptureState;

    closed spec fn view(&self) -> CaptureState {
        CaptureState {
            track_id: self.track_id,
            device_id: self.device_id@,
            state: self.state,
            sequence: self.sequence,
            samples_captured: self.samples_captured,
            config: self.config,
        }
    }
}

impl AudioCapture {
    /// A pump for the device, not yet started. `default_channels` is the
    /// channel count of the device's default configuration.
    pub fn new(
        track_id: u8,
        device_id: &str,
        default_channels: u16,
        sample_rate: Option<u32>,
        channels: Option<u16>,
        buffer_size: Option<u32>,
    ) -> (capture: Self)
        ensures
            capture@.track_id == track_id,
            capture@.device_id == device_id@,
            capture@.state == PipelineState::Created,
            capture@.sequence == 0,
            capture@.samples_captured == 0,
            capture@.config.channels == (match channels {
                Some(n) => n,
                None => default_channels,
            }),
            capture@.config.sample_rate == (match sample_rate {
                Some(n) => n,
                None => DEFAULT_SAMPLE_RATE,
            }),
            capture@.config.buffer_size == buffer_size,
    {
        Self {
            track_id,
            device_id: String::from_str(device_id),
            state: PipelineState::Created,
            sequence: 0,
            samples_captured: 0,
            config: StreamSettings::resolve(default_channels, sample_rate, channels, buffer_size),
        }
    }

    /// Starts the pump. Returns whether a device stream has to be opened:
    /// `false` when the pump was running already.
    pub fn start(&mut self) -> (opened: bool)
        ensures
            opened == (old(self)@.state != PipelineState::Running),
            final(self)@ == old(self)@.start(),
    {
        if self.is_running() {
            return false;
        }
        self.sequence = 0;
        self.samples_captured = 0;
        self.state = PipelineState::Running;
        true
    }

    /// Stops the pump. Returns whether it was running, that is whether a
    /// device stream has to be closed.
    pub fn stop(&mut self) -> (closed: bool)
        ensures
            closed == (old(self)@.state == PipelineState::Running),
            final(self)@ == old(self)@.stop(),
    {
        if self.is_running() {
            self.state = PipelineState::Stopped;
            true
        } else {
            false
        }
    }

    /// What the device callback does with a block of samples. A pump that is
    /// not running drops the block and changes nothing. A running pump makes
    /// a frame of it, with the pump's channel count, the timestamp and the
    /// next capture sequence number, counts the samples, and pushes the frame
    /// onto the ring, which drops it and counts an overflow when full.
    /// Returns whether the frame went into the ring.
    pub fn on_input(&mut self, samples: Vec<u32>, timestamp: u64, ring: &mut RingBuffer) -> (pushed:
        bool)
        ensures
            final(self)@ == old(self)@.after_input(samples@.len()),
            old(self)@.state == PipelineState::Running ==> final(ring)@ == old(ring)@.push(
                old(self)@.frame_of(samples, timestamp),
            ) && pushed == !old(ring)@.is_full(),
            old(self)@.state != PipelineState::Running ==> final(ring)@ == old(ring)@ && !pushed,
    {
        if !self.is_running() {
            return false;
        }
        let seq = self.sequence;
        self.sequence = self.sequence.wrapping_add(1);
        self.samples_captured = self.samples_captured.wrapping_add(samples.len() as u64);
        let frame = AudioFrame::new(samples, self.config.channels, timestamp, seq);
        ring.push(frame)
    }

    pub fn is_running(&self) -> (b: bool)
        ensures
            b == (self@.state == PipelineState::Running),
    {
        match self.state {
            PipelineState::Running => true,
            _ => false,
        }
    }

    pub fn state(&self) -> (state: PipelineState)
        ensures
            state == self@.state,
    {
        self.state
    }

    pub fn track_id(&self) -> (id: u8)
        ensures
            id == self@.track_id,
    {
        self.track_id
    }

    pub fn device_id(&self) -> (id: &String)
        ensures
            id@ == self@.device_id,
    {
        &self.device_id
    }

    pub fn current_sequence(&self) -> (n: u32)
        ensures
            n == self@.sequence,
    {
        self.sequence
    }

    pub fn samples_captured(&self) -> (n: u64)
        ensures
            n == self@.samples_captured,
    {
        self.samples_captured
    }

    pub fn config(&self) -> (config: &StreamSettings)
        ensures
            *config == self@.config,
    {
        &self.config
    }

    pub fn sample_rate(&self) -> (n: u32)
        ensures
            n == self@.config.sample_rate,
    {
        self.config.sample_rate
    }

    pub fn channels(&self) -> (n: u16)
        ensures
            n == self@.config.channels,
    {
        self.config.channels
    }
}

} // verus!
