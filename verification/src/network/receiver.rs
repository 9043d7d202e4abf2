//! The receiving side: each datagram is parsed and counted, and each packet
//! goes to the pipeline of its track, which is made when the track is first seen.

use vstd::prelude::*;

use crate::audio::buffer::{AudioFrame, RingBuffer};
use crate::audio::jitter::{JitterBuffer, JitterState};
use crate::audio::playback::release;
use crate::codec::decoder::{DecoderState, OpusDecoder, DECODE_BUFFER_LEN};
use crate::error::CodecError;
use crate::constants::DEFAULT_SAMPLE_RATE;
use crate::network::packet::{decode, parse_packet, well_formed, ReceivedPacket};
use crate::network::sender::TRACK_IDS;

verus! {

/// Slots in the jitter buffer of a track.
pub const TRACK_JITTER_CAPACITY: usize = 32;

/// Frames that wait in a track's jitter buffer before the first is released.
pub const TRACK_JITTER_MIN_DELAY: usize = 2;

/// Samples per channel in a frame of a track: 10 ms at the default rate.
pub const TRACK_FRAME_SIZE: usize = 480;

/// What a receiver has counted.
#[derive(Clone, Copy, Debug)]
pub struct ReceiverStats {
    pub packets_received: u64,
    pub bytes_received: u64,
    pub invalid_packets: u64,
}

/// The receiving side of one endpoint's socket.
pub struct AudioReceiver {
    packets_received: u64,
    bytes_received: u64,
    invalid_packets: u64,
}

impl View for AudioReceiver {
    type V = ReceiverStats;

    closed spec fn view(&self) -> ReceiverStats {
        ReceiverStats {
            packets_received: self.packets_received,
            bytes_received: self.bytes_received,
            invalid_packets: self.invalid_packets,
        }
    }
}

impl AudioReceiver {
    pub fn new() -> (receiver: Self)
        ensures
            receiver@ == (ReceiverStats { packets_received: 0, bytes_received: 0, invalid_packets: 0 }),
    {
        AudioReceiver { packets_received: 0, bytes_received: 0, invalid_packets: 0 }
    }

    /// Takes in one datagram. A well-formed one gives its packet and counts
    /// as one packet and its bytes. Any other gives `None` and counts as one
    /// invalid packet; the receiver goes on.
    pub fn accept(&mut self, datagram: &[u8]) -> (packet: Option<ReceivedPacket>)
        ensures
            well_formed(datagram@) ==> packet is Some && packet->0@ == decode(datagram@) && final(self)@ == (ReceiverStats {
                packets_received: old(self)@.packets_received.wrapping_add(1),
                bytes_received: old(self)@.bytes_received.wrapping_add(datagram@.len() as u64),
                ..old(self)@
            }),
            !well_formed(datagram@) ==> packet is None && final(self)@ == (ReceiverStats {
                invalid_packets: old(self)@.invalid_packets.wrapping_add(1),
                ..old(self)@
            }),
    {
        match parse_packet(datagram) {
            Ok(packet) => {
                self.packets_received = self.packets_received.wrapping_add(1);
                self.bytes_received = self.bytes_received.wrapping_add(datagram.len() as u64);
                Some(packet)
            },
            Err(_) => {
                self.invalid_packets = self.invalid_packets.wrapping_add(1);
                None
            },
        }
    }

    pub fn stats(&self) -> (stats: ReceiverStats)
        ensures
            stats == self@,
    {
        ReceiverStats {
            packets_received: self.packets_received,
            bytes_received: self.bytes_received,
            invalid_packets: self.invalid_packets,
        }
    }
}

/// The pipeline of one received track as plain values.
pub struct TrackView {
    pub decoder: DecoderState,
    pub jitter: JitterState,
    pub packets_received: u64,
    pub packets_lost: u64,
}

impl TrackView {
    /// The pipeline of a track that was just seen: a decoder at the default
    /// sample rate, mono or stereo as the first packet says, an empty jitter
    /// buffer, and nothing counted.
    pub open spec fn fresh(is_stereo: bool) -> TrackView {
        TrackView {
            decoder: DecoderState {
                sample_rate: DEFAULT_SAMPLE_RATE,
                channels: if is_stereo {
                    2
                } else {
                    1
                },
                frame_size: TRACK_FRAME_SIZE,
                frames_decoded: 0,
                frames_lost: 0,
                samples_produced: 0,
            },
            jitter: JitterState::empty(TRACK_JITTER_CAPACITY as nat, TRACK_JITTER_MIN_DELAY),
            packets_received: 0,
            packets_lost: 0,
        }
    }

    /// The pipeline after a packet arrived and the codec either made `n`
    /// samples a channel of it or failed: the packet is counted, and it
    /// counts as decoded by the decoder or as lost.
    pub open spec fn after_packet(self, outcome: Result<usize, String>) -> TrackView {
        match outcome {
            Ok(n) => TrackView {
                decoder: self.decoder.decoded(n),
                packets_received: self.packets_received.wrapping_add(1),
                ..self
            },
            Err(_) => TrackView {
                packets_received: self.packets_received.wrapping_add(1),
                packets_lost: self.packets_lost.wrapping_add(1),
                ..self
            },
        }
    }

    /// The frame that the pipeline makes of decoded samples.
    pub open spec fn frame_of(self, sequence: u32, timestamp: u64, samples: Vec<u32>) -> AudioFrame {
        AudioFrame { samples, channels: self.decoder.channels, timestamp, sequence }
    }

    /// The pipeline after a frame went to its jitter buffer.
    pub open spec fn after_insert(self, frame: AudioFrame) -> TrackView {
        TrackView { jitter: self.jitter.insert(frame), ..self }
    }

    /// The pipeline after its jitter buffer was asked for the next frame.
    pub open spec fn after_release(self, force: bool) -> TrackView {
        TrackView {
            jitter: if force {
                self.jitter.advance()
            } else {
                self.jitter.get()
            },
            ..self
        }
    }

    /// The frame that the jitter buffer hands out when asked.
    pub open spec fn released(self, force: bool) -> Option<AudioFrame> {
        if force {
            self.jitter.head()
        } else {
            self.jitter.get_output()
        }
    }
}

/// The decoder state and jitter buffer of one received track.
pub struct TrackState {
    pub decoder: OpusDecoder,
    pub jitter_buffer: JitterBuffer,
    pub packets_received: u64,
    pub packets_lost: u64,
}

impl View for TrackState {
    type V = TrackView;

    open spec fn view(&self) -> TrackView {
        TrackView {
            decoder: self.decoder@,
            jitter: self.jitter_buffer@,
            packets_received: self.packets_received,
            packets_lost: self.packets_lost,
        }
    }
}

impl TrackState {
    pub open spec fn wf(&self) -> bool {
        self.jitter_buffer.wf()
    }

    /// The pipeline of a track whose first packet was just seen.
    pub fn new(is_stereo: bool) -> (track: Self)
        ensures
            track.wf(),
            track@ == TrackView::fresh(is_stereo),
    {
        assert(crate::audio::jitter::is_power_of_two(32usize)) by {
            assert(32usize & 31usize == 0) by (bit_vector);
        }
        TrackState {
            decoder: OpusDecoder::mono_or_stereo(DEFAULT_SAMPLE_RATE, is_stereo, TRACK_FRAME_SIZE),
            jitter_buffer: JitterBuffer::new(TRACK_JITTER_CAPACITY, TRACK_JITTER_MIN_DELAY),
            packets_received: 0,
            packets_lost: 0,
        }
    }

    /// Takes in one packet of the track together with what the codec made of
    /// its payload: `n` samples a channel, or a failure. The packet is
    /// counted. A decoded one gives the number of samples in its frame, all
    /// channels together. One that the codec could not decode counts as lost
    /// and gives `DecodingFailed` with the codec's words.
    pub fn on_packet(&mut self, outcome: Result<usize, String>) -> (r: Result<usize, CodecError>)
        requires
            outcome matches Ok(n) ==> n * old(self)@.decoder.channels <= DECODE_BUFFER_LEN,
        ensures
            final(self)@ == old(self)@.after_packet(outcome),
            final(self).jitter_buffer == old(self).jitter_buffer,
            match outcome {
                Ok(n) => r == Ok::<usize, CodecError>((n * old(self)@.decoder.channels) as usize),
                Err(cause) => r == Err::<usize, CodecError>(CodecError::DecodingFailed(cause)),
            },
    {
        self.packets_received = self.packets_received.wrapping_add(1);
        let r = self.decoder.finish_decode(outcome);
        if r.is_err() {
            self.packets_lost = self.packets_lost.wrapping_add(1);
        }
        r
    }

    /// Files decoded samples in the jitter buffer, as a frame with the
    /// decoder's channel count and the packet's timestamp and sequence
    /// number. Returns `false` when the frame was late.
    pub fn insert(&mut self, sequence: u32, timestamp: u64, samples: Vec<u32>) -> (accepted: bool)
        requires
            old(self).wf(),
        ensures
            final(self).wf(),
            final(self)@.jitter.wf(),
            final(self)@ == old(self)@.after_insert(old(self)@.frame_of(sequence, timestamp, samples)),
            accepted == !old(self)@.jitter.is_late(sequence),
    {
        let frame = AudioFrame::new(samples, self.decoder.channels(), timestamp, sequence);
        self.jitter_buffer.insert(frame)
    }

    /// Moves the next frame of the track to its playback ring, as
    /// `playback::release` does.
    pub fn release(&mut self, ring: &mut RingBuffer, force: bool) -> (moved: bool)
        requires
            old(self).wf(),
        ensures
            final(self).wf(),
            final(self)@.jitter.wf(),
            final(self)@ == old(self)@.after_release(force),
            match old(self)@.released(force) {
                Some(frame) => final(ring)@ == old(ring)@.push(frame) && moved == !old(
                    ring
                )@.is_full(),
                None => final(ring)@ == old(ring)@ && !moved,
            },
    {
        release(&mut self.jitter_buffer, ring, force)
    }
}

/// The view of a slot of the track table.
pub open spec fn slot_view(slot: Option<TrackState>) -> Option<TrackView> {
    match slot {
        Some(track) => Some(track@),
        None => None,
    }
}

/// The table of received tracks, by track id.
pub struct Demux {
    tracks: Vec<Option<TrackState>>,
}

impl View for Demux {
    type V = Seq<Option<TrackView>>;

    closed spec fn view(&self) -> Seq<Option<TrackView>> {
        self.tracks@.map_values(|slot: Option<TrackState>| slot_view(slot))
    }
}

impl Demux {
    /// The table has a slot for each track id, and each pipeline in it is in
    /// a state its operations keep.
    pub closed spec fn wf(&self) -> bool {
        &&& self.tracks@.len() == TRACK_IDS
        &&& forall|i: int|
            0 <= i < self.tracks@.len() && (#[trigger] self.tracks@[i]) is Some
                ==> self.tracks@[i]->0.wf()
    }

    /// A table in a state its operations keep has a slot for each track id.
    pub proof fn lemma_wf_len(&self)
        requires
            self.wf(),
        ensures
            self@.len() == TRACK_IDS,
    {
    }

    /// The table after the pipeline of one track changed.
    pub open spec fn with_track(table: Seq<Option<TrackView>>, track_id: u8, track: TrackView) -> Seq<
        Option<TrackView>,
    > {
        table.update(track_id as int, Some(track))
    }

    /// A table with no track.
    pub fn new() -> (demux: Self)
        ensures
            demux.wf(),
            demux@ == Seq::new(TRACK_IDS as nat, |i: int| None::<TrackView>),
    {
        let mut tracks: Vec<Option<TrackState>> = Vec::new();
        let mut i: usize = 0;
        while i < TRACK_IDS
            invariant
                i <= TRACK_IDS,
                tracks@.len() == i,
                forall|k: int| 0 <= k < i ==> (#[trigger] tracks@[k]) is None,
            decreases TRACK_IDS - i,
        {
            tracks.push(None);
            i = i + 1;
        }
        let demux = Demux { tracks };
        demux
    }

    /// Makes sure that the track of a packet has a pipeline. A track that is
    /// seen for the first time gets a fresh one, mono or stereo as the packet
    /// says; a known track keeps its own. Returns whether one was made.
    pub fn route(&mut self, track_id: u8, is_stereo: bool) -> (created: bool)
        requires
            old(self).wf(),
        ensures
            final(self).wf(),
            final(self)@.len() == TRACK_IDS,
            created == (old(self)@[track_id as int] is None),
            created ==> final(self)@ == Self::with_track(
                old(self)@,
                track_id,
                TrackView::fresh(is_stereo),
            ),
            !created ==> final(self)@ == old(self)@,
    {
        let i = track_id as usize;
        if self.tracks[i].is_none() {
            self.tracks.set(i, Some(TrackState::new(is_stereo)));
            true
        } else {
            false
        }
    }

    /// Tears the pipeline of a track down. Returns whether there was one.
    pub fn remove(&mut self, track_id: u8) -> (removed: bool)
        requires
            old(self).wf(),
        ensures
            final(self).wf(),
            final(self)@.len() == TRACK_IDS,
            removed == (old(self)@[track_id as int] is Some),
            final(self)@ == old(self)@.update(track_id as int, None),
    {
        let i = track_id as usize;
        let removed = self.tracks[i].is_some();
        self.tracks.set(i, None);
        removed
    }

    /// `TrackState::on_packet` on the pipeline of a track. A track without a
    /// pipeline gives `None` and changes nothing.
    pub fn on_packet(&mut self, track_id: u8, outcome: Result<usize, String>) -> (r: Option<
        Result<usize, CodecError>,
    >)
        requires
            old(self).wf(),
            outcome matches Ok(n) && old(self)@[track_id as int] matches Some(track) ==> n
                * track.decoder.channels <= DECODE_BUFFER_LEN,
        ensures
            final(self).wf(),
            final(self)@.len() == TRACK_IDS,
            match old(self)@[track_id as int] {
                None => final(self)@ == old(self)@ && r is None,
                Some(before) => final(self)@ == Self::with_track(
                    old(self)@,
                    track_id,
                    before.after_packet(outcome),
                ) && (match outcome {
                    Ok(n) => r == Some(Ok::<usize, CodecError>((n * before.decoder.channels) as usize)),
                    Err(cause) => r == Some(
                        Err::<usize, CodecError>(CodecError::DecodingFailed(cause)),
                    ),
                }),
            },
    {
        let i = track_id as usize;
        match self.tracks[i].take() {
            Some(mut track) => {
                let r = track.on_packet(outcome);
                self.tracks.set(i, Some(track));
                Some(r)
            },
            None => None,
        }
    }

    /// `TrackState::insert` on the pipeline of a track. A track without a
    /// pipeline changes nothing and gives `false`.
    pub fn insert(&mut self, track_id: u8, sequence: u32, timestamp: u64, samples: Vec<u32>) -> (accepted:
        bool)
        requires
            old(self).wf(),
        ensures
            final(self).wf(),
            final(self)@.len() == TRACK_IDS,
            match old(self)@[track_id as int] {
                None => final(self)@ == old(self)@ && !accepted,
                Some(before) => final(self)@ == Self::with_track(
                    old(self)@,
                    track_id,
                    before.after_insert(before.frame_of(sequence, timestamp, samples)),
                ) && accepted == !before.jitter.is_late(sequence),
            },
    {
        let i = track_id as usize;
        match self.tracks[i].take() {
            Some(mut track) => {
                let accepted = track.insert(sequence, timestamp, samples);
                self.tracks.set(i, Some(track));
                accepted
            },
            None => false,
        }
    }

    /// `TrackState::release` on the pipeline of a track. A track without a
    /// pipeline changes nothing and gives `false`.
    pub fn release(&mut self, track_id: u8, ring: &mut RingBuffer, force: bool) -> (moved: bool)
        requires
            old(self).wf(),
        ensures
            final(self).wf(),
            final(self)@.len() == TRACK_IDS,
            match old(self)@[track_id as int] {
                None => final(self)@ == old(self)@ && final(ring)@ == old(ring)@ && !moved,
                Some(before) => final(self)@ == Self::with_track(
                    old(self)@,
                    track_id,
                    before.after_release(force),
                ) && (match before.released(force) {
                    Some(frame) => final(ring)@ == old(ring)@.push(frame) && moved == !old(
                        ring
                    )@.is_full(),
                    None => final(ring)@ == old(ring)@ && !moved,
                }),
            },
    {
        let i = track_id as usize;
        match self.tracks[i].take() {
            Some(mut track) => {
                let moved = track.release(ring, force);
                self.tracks.set(i, Some(track));
                moved
            },
            None => false,
        }
    }

    /// The pipeline of a track, if it has one.
    pub fn track(&self, track_id: u8) -> (track: Option<&TrackState>)
        requires
            self.wf(),
        ensures
            self@.len() == TRACK_IDS,
            match track {
                Some(t) => t.wf() && self@[track_id as int] == Some(t@),
                None => self@[track_id as int] is None,
            },
    {
        self.tracks[track_id as usize].as_ref()
    }
}

} // verus!
