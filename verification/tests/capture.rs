use lan_audio_streamer::audio::buffer::RingBuffer;
use lan_audio_streamer::audio::capture::{AudioCapture, PipelineState, StreamSettings};
use lan_audio_streamer::audio::jitter::JitterBuffer;
use lan_audio_streamer::audio::playback::{process, release, AudioPlayback};
use lan_audio_streamer::audio::samples::SampleQueue;
use lan_audio_streamer::audio::AudioFrame;

#[test]
fn test_capture_creation() {
    let buffer = RingBuffer::new(64);
    let capture = AudioCapture::new(0, "input:Microphone", 1, Some(48000), Some(2), None);
    assert_eq!(capture.track_id(), 0);
    assert_eq!(capture.device_id(), "input:Microphone");
    assert_eq!(capture.sample_rate(), 48000);
    assert_eq!(capture.channels(), 2);
    assert_eq!(capture.config().buffer_size, None);
    assert!(!capture.is_running());
    assert_eq!(capture.state(), PipelineState::Created);
    assert_eq!(buffer.capacity(), 64);
}

#[test]
fn stream_settings_fall_back_to_defaults() {
    let s = StreamSettings::resolve(1, None, None, None);
    assert_eq!(s.channels, 1);
    assert_eq!(s.sample_rate, 48000);
    assert_eq!(s.buffer_size, None);
    let s = StreamSettings::resolve(6, Some(44100), Some(2), Some(256));
    assert_eq!(s.channels, 2);
    assert_eq!(s.sample_rate, 44100);
    assert_eq!(s.buffer_size, Some(256));
    let capture = AudioCapture::new(3, "x", 4, None, None, Some(128));
    assert_eq!(capture.channels(), 4);
    assert_eq!(capture.sample_rate(), 48000);
    assert_eq!(capture.config().buffer_size, Some(128));
}

#[test]
fn capture_life_cycle() {
    let mut ring = RingBuffer::new(4);
    let mut capture = AudioCapture::new(1, "mic", 2, None, None, None);
    assert!(!capture.stop());
    assert_eq!(capture.state(), PipelineState::Created);
    assert!(capture.start());
    assert!(capture.is_running());
    assert!(!capture.start());
    assert!(capture.on_input(vec![1, 2, 3, 4], 10, &mut ring));
    assert_eq!(capture.current_sequence(), 1);
    assert_eq!(capture.samples_captured(), 4);
    assert!(capture.stop());
    assert_eq!(capture.state(), PipelineState::Stopped);
    assert!(!capture.stop());
    // Counters stay until the next start.
    assert_eq!(capture.current_sequence(), 1);
    assert!(capture.start());
    assert_eq!(capture.state(), PipelineState::Running);
    assert_eq!(capture.current_sequence(), 0);
    assert_eq!(capture.samples_captured(), 0);
}

#[test]
fn capture_callback_frames_and_counts() {
    let mut ring = RingBuffer::new(2);
    let mut capture = AudioCapture::new(1, "mic", 2, Some(48000), Some(2), None);
    // Not running: the block is dropped.
    assert!(!capture.on_input(vec![9; 8], 5, &mut ring));
    assert_eq!(ring.len(), 0);
    assert_eq!(capture.current_sequence(), 0);
    assert_eq!(capture.samples_captured(), 0);
    capture.start();
    assert!(capture.on_input(vec![1; 8], 100, &mut ring));
    assert!(capture.on_input(vec![2; 6], 200, &mut ring));
    // The ring is full: the frame is dropped, the counters still move.
    assert!(!capture.on_input(vec![3; 4], 300, &mut ring));
    assert_eq!(ring.overflow_count(), 1);
    assert_eq!(capture.current_sequence(), 3);
    assert_eq!(capture.samples_captured(), 18);
    let f = ring.pop().unwrap();
    assert_eq!((f.sequence, f.timestamp, f.channels), (0, 100, 2));
    assert_eq!(f.samples, vec![1; 8]);
    let f = ring.pop().unwrap();
    assert_eq!((f.sequence, f.timestamp, f.channels), (1, 200, 2));
    assert_eq!(f.samples, vec![2; 6]);
    assert!(capture.on_input(vec![4; 2], 400, &mut ring));
    assert_eq!(ring.pop().unwrap().sequence, 3);
}

#[test]
fn sample_queue_takes_blocks_of_any_length() {
    let mut queue = SampleQueue::new();
    assert_eq!(queue.len(), 0);
    assert!(queue.take(1).is_none());
    assert_eq!(queue.take(0), Some(vec![]));
    queue.extend(&[1, 2, 3]);
    queue.extend(&[4, 5]);
    assert_eq!(queue.len(), 5);
    assert!(queue.take(6).is_none());
    assert_eq!(queue.len(), 5);
    assert_eq!(queue.take(2), Some(vec![1, 2]));
    assert_eq!(queue.take(3), Some(vec![3, 4, 5]));
    assert_eq!(queue.len(), 0);
    queue.extend(&[7, 8, 9]);
    assert_eq!(queue.take_padded(2), vec![7, 8]);
    assert_eq!(queue.take_padded(4), vec![9, 0, 0, 0]);
    assert_eq!(queue.len(), 0);
    assert_eq!(queue.take_padded(2), vec![0, 0]);
    assert_eq!(queue.take_padded(0), Vec::<u32>::new());
}

#[test]
fn encoder_worker_accumulates_whole_codec_frames() {
    // Device blocks of 5 samples, codec frames of 8.
    let mut ring = RingBuffer::new(8);
    let mut n: u32 = 0;
    for seq in 0..5u32 {
        let block: Vec<u32> = (0..5).map(|_| {
            n += 1;
            n
        }).collect();
        assert!(ring.push(AudioFrame::new(block, 1, 0, seq)));
    }
    let mut queue = SampleQueue::new();
    let mut frames: Vec<Vec<u32>> = Vec::new();
    while let Some(frame) = ring.try_pop() {
        queue.extend(&frame.samples);
        while let Some(block) = queue.take(8) {
            frames.push(block);
        }
    }
    assert_eq!(frames.len(), 3);
    let flat: Vec<u32> = frames.concat();
    assert_eq!(flat, (1..=24).collect::<Vec<u32>>());
    assert_eq!(queue.len(), 1);
    assert_eq!(ring.underrun_count(), 0);
}

#[test]
fn playback_fill_buffers_the_remainder() {
    let mut ring = RingBuffer::new(8);
    assert!(ring.push(AudioFrame::new(vec![1, 2, 3, 4, 5, 6], 2, 0, 0)));
    assert!(ring.push(AudioFrame::new(vec![7, 8, 9, 10, 11, 12], 2, 0, 1)));
    let mut pump = AudioPlayback::new();
    assert_eq!(pump.fill(&mut ring, 4), vec![1, 2, 3, 4]);
    assert_eq!(ring.len(), 1);
    assert_eq!(pump.fill(&mut ring, 4), vec![5, 6, 7, 8]);
    assert_eq!(ring.len(), 0);
    assert_eq!(pump.fill(&mut ring, 4), vec![9, 10, 11, 12]);
    assert_eq!(ring.underrun_count(), 0);
    assert_eq!(pump.fill(&mut ring, 0), Vec::<u32>::new());
    assert_eq!(ring.underrun_count(), 0);
}

#[test]
fn playback_fill_writes_silence_on_underrun() {
    let mut ring = RingBuffer::new(8);
    let mut pump = AudioPlayback::new();
    assert_eq!(pump.fill(&mut ring, 3), vec![0, 0, 0]);
    assert_eq!(ring.underrun_count(), 1);
    assert!(ring.push(AudioFrame::new(vec![5, 6], 1, 0, 0)));
    assert_eq!(pump.fill(&mut ring, 5), vec![5, 6, 0, 0, 0]);
    assert_eq!(ring.underrun_count(), 2);
    assert!(ring.push(AudioFrame::new(vec![7, 8, 9], 1, 0, 1)));
    assert!(ring.push(AudioFrame::new(vec![10], 1, 0, 2)));
    assert_eq!(pump.fill(&mut ring, 2), vec![7, 8]);
    assert_eq!(ring.len(), 1);
    assert_eq!(pump.fill(&mut ring, 2), vec![9, 10]);
    assert_eq!(ring.underrun_count(), 2);
    assert_eq!(0.0f32.to_bits(), 0);
}

#[test]
fn release_moves_frames_from_jitter_buffer_to_ring() {
    let mut jitter = JitterBuffer::new(8, 2);
    let mut ring = RingBuffer::new(1);
    assert!(jitter.insert(AudioFrame::new(vec![1], 1, 0, 0)));
    // Below the minimum delay nothing is released unless forced.
    assert!(!release(&mut jitter, &mut ring, false));
    assert_eq!(ring.len(), 0);
    assert!(release(&mut jitter, &mut ring, true));
    assert_eq!(ring.len(), 1);
    assert!(jitter.insert(AudioFrame::new(vec![2], 1, 0, 1)));
    assert!(jitter.insert(AudioFrame::new(vec![3], 1, 0, 2)));
    // The ring is full: the released frame is dropped and counted.
    assert!(!release(&mut jitter, &mut ring, false));
    assert_eq!(ring.overflow_count(), 1);
    assert_eq!(jitter.stats().level, 1);
    assert_eq!(ring.pop().unwrap().sequence, 0);
    assert!(release(&mut jitter, &mut ring, true));
    assert_eq!(ring.pop().unwrap().sequence, 2);
    // A forced release of an empty slot counts a loss and moves nothing.
    assert!(!release(&mut jitter, &mut ring, true));
    assert_eq!(jitter.stats().lost, 1);
}

#[test]
fn process_moves_what_is_due_and_forces_when_starved() {
    let mut jitter = JitterBuffer::new(8, 2);
    let mut ring = RingBuffer::new(2);
    // Nothing waits: nothing moves, and a starved device gets a counted loss.
    assert_eq!(process(&mut jitter, &mut ring, false), 0);
    assert_eq!(jitter.stats().lost, 0);
    assert_eq!(process(&mut jitter, &mut ring, true), 0);
    assert_eq!(jitter.stats().lost, 1);
    jitter.reset();
    for s in 0..5u32 {
        assert!(jitter.insert(AudioFrame::new(vec![s], 1, 0, s)));
    }
    // The ring takes two frames; the rest stays in the jitter buffer.
    assert_eq!(process(&mut jitter, &mut ring, true), 2);
    assert!(ring.is_full());
    assert_eq!(ring.overflow_count(), 0);
    assert_eq!(jitter.stats().level, 3);
    assert_eq!(process(&mut jitter, &mut ring, true), 0);
    assert_eq!(ring.pop().unwrap().sequence, 0);
    assert_eq!(ring.pop().unwrap().sequence, 1);
    // Three wait, the minimum delay is two: two move, one is held back.
    assert_eq!(process(&mut jitter, &mut ring, false), 2);
    assert_eq!(jitter.stats().level, 1);
    assert_eq!(ring.pop().unwrap().sequence, 2);
    assert_eq!(ring.pop().unwrap().sequence, 3);
    assert_eq!(process(&mut jitter, &mut ring, false), 0);
    assert_eq!(jitter.stats().level, 1);
    // Starved: the last frame is forced out.
    assert_eq!(process(&mut jitter, &mut ring, true), 1);
    assert_eq!(ring.pop().unwrap().sequence, 4);
    assert_eq!(jitter.stats().lost, 1);
}
