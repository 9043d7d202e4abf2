use lan_audio_streamer::audio::buffer::RingBuffer;
use lan_audio_streamer::audio::capture::AudioCapture;
use lan_audio_streamer::audio::playback::AudioPlayback;
use lan_audio_streamer::audio::samples::SampleQueue;
use lan_audio_streamer::codec::{OpusDecoder, OpusEncoder};
use lan_audio_streamer::error::CodecError;
use lan_audio_streamer::network::receiver::{AudioReceiver, Demux, TrackState};
use lan_audio_streamer::network::sender::{MultiTrackSender, SendOutcome};

fn tone(frame: usize, count: usize) -> Vec<u32> {
    (0..count)
        .map(|i| {
            let t = (frame * count / 2 + i / 2) as f32 / 48000.0;
            ((t * 440.0 * 2.0 * std::f32::consts::PI).sin() * 0.5).to_bits()
        })
        .collect()
}

fn to_bytes(samples: &[u32]) -> Vec<u8> {
    samples.iter().flat_map(|s| s.to_be_bytes()).collect()
}

fn from_bytes(bytes: &[u8]) -> Vec<u32> {
    bytes.chunks(4).map(|c| u32::from_be_bytes([c[0], c[1], c[2], c[3]])).collect()
}

#[test]
fn demux_makes_a_pipeline_when_a_track_is_first_seen() {
    let mut demux = Demux::new();
    assert!(demux.track(5).is_none());
    assert!(demux.route(5, true));
    assert!(!demux.route(5, false));
    assert!(demux.route(6, false));
    let track = demux.track(5).unwrap();
    assert_eq!(track.decoder.channels(), 2);
    assert_eq!(track.decoder.sample_rate(), 48000);
    assert_eq!(track.decoder.frame_size(), 480);
    assert_eq!(track.jitter_buffer.stats().capacity, 32);
    assert_eq!(track.packets_received, 0);
    assert_eq!(demux.track(6).unwrap().decoder.channels(), 1);
    assert!(demux.track(0).is_none());
    assert!(demux.track(255).is_none());
}

#[test]
fn demux_teardown_forgets_the_track() {
    let mut demux = Demux::new();
    assert!(!demux.remove(9));
    assert!(demux.route(9, true));
    assert!(demux.insert(9, 0, 0, vec![1; 4]));
    assert!(demux.remove(9));
    assert!(demux.track(9).is_none());
    assert!(!demux.remove(9));
    // Seen again, the track starts afresh.
    assert!(demux.route(9, false));
    let track = demux.track(9).unwrap();
    assert_eq!(track.decoder.channels(), 1);
    assert_eq!(track.jitter_buffer.stats().level, 0);
    assert_eq!(track.jitter_buffer.stats().received, 0);
}

#[test]
fn demux_counts_packets_and_decode_failures() {
    let mut demux = Demux::new();
    assert!(demux.on_packet(3, Ok(480)).is_none());
    assert!(!demux.insert(3, 0, 0, vec![0; 960]));
    demux.route(3, true);
    assert_eq!(demux.on_packet(3, Ok(480)).unwrap().unwrap(), 960);
    assert!(demux.insert(3, 0, 1000, vec![7; 960]));
    match demux.on_packet(3, Err("corrupted stream".to_string())) {
        Some(Err(CodecError::DecodingFailed(msg))) => assert_eq!(msg, "corrupted stream"),
        _ => panic!("expected DecodingFailed"),
    }
    let track = demux.track(3).unwrap();
    assert_eq!(track.packets_received, 2);
    assert_eq!(track.packets_lost, 1);
    assert_eq!(track.decoder.stats().frames_decoded, 1);
    assert_eq!(track.decoder.stats().samples_produced, 960);
    assert_eq!(track.jitter_buffer.stats().level, 1);
    assert_eq!(track.jitter_buffer.stats().received, 1);
    let mut ring = RingBuffer::new(4);
    assert!(!demux.release(3, &mut ring, false));
    assert!(demux.release(3, &mut ring, true));
    assert!(!demux.release(4, &mut ring, true));
    let frame = ring.pop().unwrap();
    assert_eq!((frame.sequence, frame.timestamp, frame.channels), (0, 1000, 2));
    assert_eq!(frame.samples, vec![7; 960]);
}

#[test]
fn track_state_files_frames_with_the_decoder_channels() {
    let mut track = TrackState::new(false);
    assert_eq!(track.on_packet(Ok(480)).unwrap(), 480);
    assert!(track.insert(0, 5, vec![1; 480]));
    assert!(track.insert(1, 6, vec![2; 480]));
    let mut ring = RingBuffer::new(2);
    assert!(track.release(&mut ring, false));
    let frame = ring.pop().unwrap();
    assert_eq!(frame.channels, 1);
    assert_eq!(frame.sequence, 0);
    assert_eq!(frame.timestamp, 5);
    assert!(!track.insert(0, 7, vec![3; 480]));
    assert_eq!(track.jitter_buffer.stats().late, 1);
}

// The whole data plane on one machine. The codec and the socket are stood
// in for: a frame travels as the bytes of its samples, in datagrams of at
// most 300 samples, and each datagram is handed straight to the receiver.
#[test]
fn end_to_end_stream_loses_nothing() {
    const FRAMES: usize = 2000;
    const SAMPLES: usize = 480 * 2;
    const CHUNK: usize = 300;
    const BLOCK: usize = 441;

    let mut encoder = OpusEncoder::music(48000, 2).unwrap();
    assert_eq!(encoder.samples_per_frame(), SAMPLES);
    let mut capture = AudioCapture::new(0, "input:test", 2, Some(48000), Some(2), None);
    let mut capture_ring = RingBuffer::new(256);
    let mut sender = MultiTrackSender::new();
    let mut receiver = AudioReceiver::new();
    let mut demux = Demux::new();
    let mut playback_ring = RingBuffer::new(256);
    let mut pump = AudioPlayback::new();
    let mut worker = SampleQueue::new();
    let mut datagram = Vec::new();
    let mut played: Vec<u32> = Vec::new();
    let mut sent: Vec<u32> = Vec::new();
    // Frames released so far, and their samples that were not played yet.
    let mut released: usize = 0;
    let mut available: usize = 0;

    capture.start();
    for i in 0..FRAMES {
        let block = tone(i, SAMPLES);
        sent.extend_from_slice(&block);
        assert!(capture.on_input(block, i as u64 * 10_000, &mut capture_ring));

        while let Some(frame) = capture_ring.try_pop() {
            worker.extend(&frame.samples);
            while let Some(samples) = worker.take(encoder.samples_per_frame()) {
                encoder.begin_encode(samples.len()).unwrap();
                // Three datagrams of 300 samples and one of 60 for each frame.
                for chunk in samples.chunks(CHUNK) {
                    let payload = to_bytes(chunk);
                    encoder.finish_encode(Ok(payload.len())).unwrap();
                    let n = sender
                        .compose(0, &payload, frame.timestamp, true, false, &mut datagram)
                        .unwrap();
                    assert!(sender.record(SendOutcome::Sent(n)).unwrap());

                    let packet = receiver.accept(&datagram).unwrap();
                    demux.route(packet.track_id, packet.is_stereo);
                    let decoded = from_bytes(&packet.payload);
                    let total =
                        demux.on_packet(packet.track_id, Ok(decoded.len() / 2)).unwrap().unwrap();
                    assert_eq!(total, decoded.len());
                    assert!(demux.insert(
                        packet.track_id,
                        packet.sequence,
                        packet.timestamp,
                        decoded
                    ));
                    while demux.release(packet.track_id, &mut playback_ring, false) {
                        available += if released % 4 == 3 { 60 } else { CHUNK };
                        released += 1;
                    }
                }
            }
        }
        // The device asks for blocks of 441 samples, whatever the frames hold.
        while available >= BLOCK {
            played.extend_from_slice(&pump.fill(&mut playback_ring, BLOCK));
            available -= BLOCK;
        }
    }

    let track = demux.track(0).unwrap();
    let jitter = track.jitter_buffer.stats();
    assert_eq!(receiver.stats().invalid_packets, 0);
    assert_eq!(receiver.stats().packets_received, 4 * FRAMES as u64);
    assert_eq!(sender.stats().packets_sent, 4 * FRAMES as u64);
    assert_eq!(sender.stats().send_dropped, 0);
    assert_eq!(sender.next_sequence(0), 4 * FRAMES as u32);
    assert_eq!(encoder.stats().frames_encoded, 4 * FRAMES as u64);
    assert_eq!(encoder.stats().bytes_produced, (4 * SAMPLES * FRAMES) as u64);
    assert_eq!(track.packets_received, 4 * FRAMES as u64);
    assert_eq!(track.packets_lost, 0);
    assert_eq!(jitter.received, 4 * FRAMES);
    assert_eq!(jitter.lost, 0);
    assert_eq!(jitter.late, 0);
    assert_eq!(jitter.loss_rate().numerator, 0);
    assert_eq!(track.decoder.stats().samples_produced, (SAMPLES * FRAMES) as u64);
    assert_eq!(track.decoder.stats().loss_rate.numerator, 0);
    // All but the last datagram's frame, which still waits for the minimum
    // delay, and less than one device block were played, in order.
    assert_eq!(jitter.level, 1);
    assert_eq!(released, 4 * FRAMES - 1);
    assert_eq!(played.len() + available, SAMPLES * FRAMES - 60);
    assert!(available < BLOCK);
    assert_eq!(&played[..], &sent[..played.len()]);
    assert_eq!(capture_ring.overflow_count(), 0);
    assert_eq!(playback_ring.overflow_count(), 0);
    assert_eq!(playback_ring.underrun_count(), 0);
}

#[test]
fn decoder_for_a_track_matches_the_encoder_frame() {
    let encoder = OpusEncoder::music(48000, 2).unwrap();
    let mut decoder = OpusDecoder::new(48000, 2, encoder.frame_size()).unwrap();
    let mut total = 0usize;
    for _ in 0..2000 {
        total += decoder.finish_decode(Ok(encoder.frame_size())).unwrap();
    }
    assert_eq!(total, 480 * 2 * 2000);
    assert_eq!(decoder.stats().samples_produced, 480 * 2 * 2000);
}
