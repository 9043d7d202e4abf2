use lan_audio_streamer::codec::decoder::{OpusDecoder, DECODE_BUFFER_LEN};
use lan_audio_streamer::codec::encoder::{EncoderSetting, OpusEncoder};
use lan_audio_streamer::config::{OpusBandwidth, OpusConfig, OpusSignal};
use lan_audio_streamer::error::CodecError;
use lan_audio_streamer::protocol::TrackType;
use lan_audio_streamer::text::with_number;

#[test]
fn test_decoder_creation() {
    let decoder = OpusDecoder::new(48000, 2, 480);
    assert!(decoder.is_ok());
}

#[test]
fn test_encode_decode_roundtrip() {
    let mut encoder = OpusEncoder::music(48000, 2).unwrap();
    let mut decoder = OpusDecoder::new(48000, 2, encoder.frame_size()).unwrap();

    // Create test samples (sine wave)
    let frame_size = encoder.samples_per_frame();
    let mut samples: Vec<u32> = Vec::with_capacity(frame_size);
    for i in 0..frame_size / 2 {
        let t = i as f32 / 48000.0;
        let val = (t * 440.0 * 2.0 * std::f32::consts::PI).sin() * 0.5;
        samples.push(val.to_bits()); // Left
        samples.push(val.to_bits()); // Right
    }

    // The frame is one the encoder takes; the codec's part is its packet size
    // on the way in and its samples per channel on the way out.
    assert_eq!(encoder.begin_encode(samples.len()).unwrap(), frame_size);
    let encoded = encoder.finish_encode(Ok(120)).unwrap();
    assert_eq!(encoded, 120);
    let decoded = decoder.finish_decode(Ok(encoder.frame_size())).unwrap();

    // Verify we got the right number of samples back
    assert_eq!(decoded, frame_size);
}

#[test]
fn test_plc() {
    let mut decoder = OpusDecoder::new(48000, 2, 480).unwrap();

    // Take in a concealment frame
    let plc_samples = decoder.finish_plc(Ok(480));
    assert!(plc_samples.is_ok());

    let stats = decoder.stats();
    assert_eq!(stats.frames_lost, 1);
}

#[test]
fn test_encoder_creation() {
    let encoder = OpusEncoder::music(48000, 2);
    assert!(encoder.is_ok());

    let encoder = encoder.unwrap();
    assert_eq!(encoder.config().sample_rate, 48000);
    assert_eq!(encoder.config().channels, 2);
}

#[test]
fn test_encoding() {
    let mut encoder = OpusEncoder::music(48000, 2).unwrap();
    let frame_size = encoder.samples_per_frame();

    // Create a test frame (silence)
    let samples = vec![0.0f32.to_bits(); frame_size];

    let result = encoder.begin_encode(samples.len());
    assert!(result.is_ok());

    let encoded = encoder.finish_encode(Ok(3)).unwrap();
    assert!(encoded > 0);
    assert!(encoded < frame_size * 4); // Should be compressed
}

#[test]
fn test_voice_encoder() {
    let encoder = OpusEncoder::voice(48000, 1).unwrap();
    let frame_size = encoder.samples_per_frame();

    let samples = vec![0.0f32.to_bits(); frame_size];
    let result = encoder.begin_encode(samples.len());
    assert!(result.is_ok());
}

#[test]
fn test_low_latency_encoder() {
    let encoder = OpusEncoder::low_latency(48000, 2).unwrap();

    // Low latency should use 2.5ms frames = 120 samples at 48kHz
    assert_eq!(encoder.frame_size(), 120);
    assert!((encoder.frame_duration_us() as f32 / 1000.0 - 2.5).abs() < 0.1);
    assert_eq!(encoder.frame_duration_us(), 2_500);
}

#[test]
fn frame_size_from_duration() {
    assert_eq!(OpusConfig::frame_size_from_us(48000, 10_000), 480);
    assert_eq!(OpusConfig::frame_size_from_us(48000, 2_500), 120);
    assert_eq!(OpusConfig::frame_size_from_us(48000, 5_000), 240);
    assert_eq!(OpusConfig::frame_size_from_us(48000, 20_000), 960);
    assert_eq!(OpusConfig::frame_size_from_us(44100, 2_500), 110);
    assert_eq!(OpusConfig::frame_size_from_us(0, 10_000), 0);
    let mut config = OpusConfig::music();
    assert_eq!(config.frame_duration_us(), 10_000);
    config.sample_rate = 44100;
    config.frame_size = 441;
    assert_eq!(config.frame_duration_us(), 10_000);
}

#[test]
fn presets() {
    let voice = OpusConfig::voice();
    assert_eq!(voice.application, TrackType::Voice);
    assert_eq!(voice.channels, 1);
    assert_eq!(voice.signal, OpusSignal::Voice);
    assert!(voice.fec);
    let music = OpusConfig::music();
    assert_eq!(music.application, TrackType::Music);
    assert_eq!(music.sample_rate, 48000);
    assert_eq!(music.channels, 2);
    assert_eq!(music.bitrate, 128_000);
    assert_eq!(music.frame_size, 480);
    assert_eq!(music.max_bandwidth, OpusBandwidth::Fullband);
    let low = OpusConfig::low_latency();
    assert_eq!(low.application, TrackType::LowLatency);
    assert_eq!(low.frame_size, 120);
}

#[test]
fn encoder_presets_take_rate_and_channels() {
    let e = OpusEncoder::voice(16000, 2).unwrap();
    assert_eq!(e.config().sample_rate, 16000);
    assert_eq!(e.config().channels, 2);
    assert_eq!(e.frame_size(), 160);
    assert_eq!(e.samples_per_frame(), 320);
    assert_eq!(e.config().application, TrackType::Voice);
    let e = OpusEncoder::low_latency(44100, 1).unwrap();
    assert_eq!(e.frame_size(), 110);
    assert_eq!(e.samples_per_frame(), 110);
}

#[test]
fn encoder_rejects_channel_counts_other_than_one_and_two() {
    for channels in [0u16, 3, 6, 65535] {
        match OpusEncoder::music(48000, channels) {
            Err(CodecError::EncoderInit(msg)) => {
                assert_eq!(msg, format!("Unsupported channel count: {}", channels))
            }
            _ => panic!("expected EncoderInit"),
        }
        let mut config = OpusConfig::voice();
        config.channels = channels;
        assert!(matches!(OpusEncoder::new(config), Err(CodecError::EncoderInit(_))));
        match OpusDecoder::new(48000, channels, 480) {
            Err(CodecError::DecoderInit(msg)) => {
                assert_eq!(msg, format!("Unsupported channel count: {}", channels))
            }
            _ => panic!("expected DecoderInit"),
        }
    }
    assert!(OpusEncoder::music(48000, 1).is_ok());
    assert!(OpusDecoder::new(48000, 1, 480).is_ok());
}

#[test]
fn encoder_rejects_wrong_frame_size() {
    let encoder = OpusEncoder::music(48000, 2).unwrap();
    for n in [0usize, 1, 480, 959, 961, 1920] {
        match encoder.begin_encode(n) {
            Err(CodecError::InvalidFrameSize(got)) => assert_eq!(got, n),
            _ => panic!("expected InvalidFrameSize"),
        }
    }
    assert_eq!(encoder.begin_encode(960).unwrap(), 960);
}

#[test]
fn encoder_counts_frames_and_bytes() {
    let mut encoder = OpusEncoder::music(48000, 2).unwrap();
    assert_eq!(encoder.stats().average_frame_size.numerator, 0);
    assert_eq!(encoder.stats().average_frame_size.denominator, 1);
    assert_eq!(encoder.finish_encode(Ok(100)).unwrap(), 100);
    assert_eq!(encoder.finish_encode(Ok(50)).unwrap(), 50);
    match encoder.finish_encode(Err("bad arg".to_string())) {
        Err(CodecError::EncodingFailed(msg)) => assert_eq!(msg, "bad arg"),
        _ => panic!("expected EncodingFailed"),
    }
    let stats = encoder.stats();
    assert_eq!(stats.frames_encoded, 2);
    assert_eq!(stats.bytes_produced, 150);
    assert_eq!(stats.average_frame_size.numerator, 150);
    assert_eq!(stats.average_frame_size.denominator, 2);
    encoder.reset_stats();
    assert_eq!(encoder.stats().frames_encoded, 0);
    assert_eq!(encoder.stats().bytes_produced, 0);
    assert_eq!(encoder.config().bitrate, 128_000);
}

#[test]
fn encoder_settings_follow_the_configuration() {
    let encoder = OpusEncoder::music(48000, 2).unwrap();
    let names: Vec<String> = encoder.settings().iter().map(|s| format!("{:?}", s)).collect();
    assert_eq!(
        names,
        vec![
            "Bitrate(128000)",
            "Vbr(true)",
            "VbrConstraint(true)",
            "Complexity(10)",
            "InbandFec(false)",
            "Dtx(false)",
            "Signal(Music)",
            "MaxBandwidth(Fullband)"
        ]
    );
    let encoder = OpusEncoder::voice(48000, 1).unwrap();
    let names: Vec<String> = encoder.settings().iter().map(|s| format!("{:?}", s)).collect();
    assert_eq!(
        names,
        vec![
            "Bitrate(32000)",
            "Vbr(true)",
            "Complexity(8)",
            "InbandFec(true)",
            "PacketLossPerc(5)",
            "Dtx(true)",
            "Signal(Voice)",
            "MaxBandwidth(Wideband)"
        ]
    );
    let mut config = OpusConfig::low_latency();
    config.cvbr = true;
    let encoder = OpusEncoder::new(config).unwrap();
    let names: Vec<String> = encoder.settings().iter().map(|s| format!("{:?}", s)).collect();
    assert_eq!(names[1], "Vbr(false)");
    assert_eq!(names[2], "Complexity(5)");
    assert_eq!(names.len(), 7);
}

#[test]
fn encoder_dynamic_controls_keep_the_counts() {
    let mut encoder = OpusEncoder::music(48000, 2).unwrap();
    encoder.finish_encode(Ok(80)).unwrap();
    encoder.set_bitrate(64_000);
    assert_eq!(encoder.config().bitrate, 64_000);
    encoder.set_fec(true, 20);
    assert!(encoder.config().fec);
    assert_eq!(encoder.config().packet_loss_perc, 20);
    encoder.set_fec(false, 7);
    assert!(!encoder.config().fec);
    assert_eq!(encoder.config().packet_loss_perc, 7);
    assert_eq!(encoder.stats().frames_encoded, 1);
    assert_eq!(encoder.stats().bytes_produced, 80);
    assert_eq!(encoder.frame_size(), 480);
    let on: Vec<String> =
        OpusEncoder::fec_settings(true, 20).iter().map(|s| format!("{:?}", s)).collect();
    assert_eq!(on, vec!["InbandFec(true)", "PacketLossPerc(20)"]);
    let off: Vec<String> =
        OpusEncoder::fec_settings(false, 20).iter().map(|s| format!("{:?}", s)).collect();
    assert_eq!(off, vec!["InbandFec(false)"]);
}

#[test]
fn setting_failure_messages() {
    let cases = [
        (EncoderSetting::Bitrate(1), "Failed to set bitrate: x"),
        (EncoderSetting::Vbr(true), "Failed to set VBR: x"),
        (EncoderSetting::VbrConstraint(true), "Failed to set CVBR: x"),
        (EncoderSetting::Complexity(3), "Failed to set complexity: x"),
        (EncoderSetting::InbandFec(true), "Failed to set FEC: x"),
        (EncoderSetting::PacketLossPerc(3), "Failed to set packet loss: x"),
        (EncoderSetting::Dtx(false), "Failed to set DTX: x"),
        (EncoderSetting::Signal(OpusSignal::Auto), "Failed to set signal type: x"),
        (EncoderSetting::MaxBandwidth(OpusBandwidth::Narrowband), "Failed to set bandwidth: x"),
    ];
    for (setting, expected) in cases.iter() {
        match setting.failure("x") {
            CodecError::EncoderInit(msg) => assert_eq!(&msg, expected),
            _ => panic!("expected EncoderInit"),
        }
    }
}

#[test]
fn decoder_counts_frames_samples_and_losses() {
    let mut decoder = OpusDecoder::new(48000, 2, 480).unwrap();
    assert_eq!(decoder.sample_rate(), 48000);
    assert_eq!(decoder.channels(), 2);
    assert_eq!(decoder.frame_size(), 480);
    assert_eq!(decoder.stats().loss_rate.numerator, 0);
    assert_eq!(decoder.stats().loss_rate.denominator, 1);
    assert_eq!(decoder.finish_decode(Ok(480)).unwrap(), 960);
    assert_eq!(decoder.finish_decode(Ok(120)).unwrap(), 240);
    assert_eq!(decoder.finish_decode(Ok(DECODE_BUFFER_LEN / 2)).unwrap(), DECODE_BUFFER_LEN);
    assert_eq!(decoder.finish_plc(Ok(480)).unwrap(), 960);
    match decoder.finish_decode(Err("corrupted stream".to_string())) {
        Err(CodecError::DecodingFailed(msg)) => assert_eq!(msg, "corrupted stream"),
        _ => panic!("expected DecodingFailed"),
    }
    assert!(matches!(
        decoder.finish_plc(Err("x".to_string())),
        Err(CodecError::DecodingFailed(_))
    ));
    let stats = decoder.stats();
    assert_eq!(stats.frames_decoded, 3);
    assert_eq!(stats.frames_lost, 1);
    assert_eq!(stats.samples_produced, 960 + 240 + 11520 + 960);
    assert_eq!(stats.loss_rate.numerator, 1);
    assert_eq!(stats.loss_rate.denominator, 4);
    decoder.reset_stats();
    let stats = decoder.stats();
    assert_eq!(stats.frames_decoded, 0);
    assert_eq!(stats.frames_lost, 0);
    assert_eq!(stats.samples_produced, 0);
    assert_eq!(decoder.channels(), 2);
    let mut mono = OpusDecoder::mono_or_stereo(48000, false, 480);
    assert_eq!(mono.channels(), 1);
    assert_eq!(mono.finish_decode(Ok(480)).unwrap(), 480);
}

#[test]
fn decimal_text() {
    assert_eq!(with_number("n = ", 0), "n = 0");
    assert_eq!(with_number("", 7), "7");
    assert_eq!(with_number("", 10), "10");
    assert_eq!(with_number("x", 1234567890), "x1234567890");
    assert_eq!(with_number("", u64::MAX), "18446744073709551615");
}
