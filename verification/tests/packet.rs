use lan_audio_streamer::error::NetworkError;
use lan_audio_streamer::network::packet::{
    build_packet, parse_packet, PacketHeader, HEADER_SIZE, MAX_PAYLOAD_SIZE,
};
use lan_audio_streamer::network::receiver::AudioReceiver;
use lan_audio_streamer::network::sender::{MultiTrackSender, SendOutcome};

fn header() -> PacketHeader {
    PacketHeader {
        track_id: 7,
        sequence: 0x0102_0304,
        timestamp: 0x1122_3344_5566_7788,
        is_stereo: true,
        is_fec: false,
    }
}

#[test]
fn packet_layout_is_bit_exact() {
    let mut out = vec![0xAAu8; 3];
    let n = build_packet(&header(), &[9, 8, 7], &mut out).unwrap();
    assert_eq!(n, 19);
    assert_eq!(
        out,
        vec![
            7, 0x01, 0x01, 0x02, 0x03, 0x04, 0x11, 0x22, 0x33, 0x44, 0x55, 0x66, 0x77, 0x88, 0x00,
            0x03, 9, 8, 7
        ]
    );
}

#[test]
fn packet_flags_byte() {
    let mut out = Vec::new();
    for (stereo, fec, flags) in
        [(false, false, 0u8), (true, false, 1), (false, true, 2), (true, true, 3)]
    {
        let h = PacketHeader { is_stereo: stereo, is_fec: fec, ..header() };
        build_packet(&h, &[1], &mut out).unwrap();
        assert_eq!(out[1], flags);
        let p = parse_packet(&out).unwrap();
        assert_eq!(p.is_stereo, stereo);
        assert_eq!(p.is_fec, fec);
    }
}

#[test]
fn packet_round_trip() {
    let mut out = Vec::new();
    let payloads: Vec<Vec<u8>> = vec![
        vec![0],
        vec![255; 40],
        (0..200u32).map(|i| (i * 7 % 256) as u8).collect(),
        vec![3; MAX_PAYLOAD_SIZE],
    ];
    let headers = [
        PacketHeader { track_id: 0, sequence: 0, timestamp: 0, is_stereo: false, is_fec: false },
        PacketHeader {
            track_id: 255,
            sequence: u32::MAX,
            timestamp: u64::MAX,
            is_stereo: true,
            is_fec: true,
        },
        header(),
        PacketHeader {
            track_id: 16,
            sequence: 65_536,
            timestamp: 1 << 32,
            is_stereo: false,
            is_fec: true,
        },
    ];
    for h in headers.iter() {
        for payload in payloads.iter() {
            let n = build_packet(h, payload, &mut out).unwrap();
            assert_eq!(n, HEADER_SIZE + payload.len());
            assert_eq!(out.len(), n);
            let p = parse_packet(&out).unwrap();
            assert_eq!(p.track_id, h.track_id);
            assert_eq!(p.sequence, h.sequence);
            assert_eq!(p.timestamp, h.timestamp);
            assert_eq!(p.is_stereo, h.is_stereo);
            assert_eq!(p.is_fec, h.is_fec);
            assert_eq!(&p.payload, payload);
        }
    }
}

#[test]
fn packet_build_rejects_oversize_and_empty_payload() {
    let mut out = vec![1u8, 2, 3];
    let too_large = vec![0u8; MAX_PAYLOAD_SIZE + 1];
    match build_packet(&header(), &too_large, &mut out) {
        Err(NetworkError::PacketTooLarge(n)) => assert_eq!(n, 1201),
        other => panic!("unexpected: {:?}", other),
    }
    assert_eq!(out, vec![1, 2, 3]);
    assert!(matches!(build_packet(&header(), &[], &mut out), Err(NetworkError::InvalidPacket)));
    assert_eq!(out, vec![1, 2, 3]);
    assert_eq!(build_packet(&header(), &vec![0u8; MAX_PAYLOAD_SIZE], &mut out).unwrap(), 1216);
}

#[test]
fn packet_parse_rejects_length_mismatch() {
    // 20 bytes whose header claims a payload of 100 bytes.
    let mut datagram = vec![0u8; 20];
    datagram[15] = 100;
    assert!(matches!(parse_packet(&datagram), Err(NetworkError::InvalidPacket)));
    let mut receiver = AudioReceiver::new();
    assert!(receiver.accept(&datagram).is_none());
    assert_eq!(receiver.stats().invalid_packets, 1);
    assert_eq!(receiver.stats().packets_received, 0);
    // The receiver goes on with the next datagram.
    datagram[15] = 4;
    let p = receiver.accept(&datagram).unwrap();
    assert_eq!(p.payload, vec![0u8; 4]);
    assert_eq!(receiver.stats().invalid_packets, 1);
    assert_eq!(receiver.stats().packets_received, 1);
    assert_eq!(receiver.stats().bytes_received, 20);
}

#[test]
fn packet_parse_rejects_short_reserved_and_long() {
    let mut out = Vec::new();
    build_packet(&header(), &[1, 2, 3, 4], &mut out).unwrap();
    assert!(parse_packet(&out).is_ok());
    for n in 0..=16usize {
        assert!(matches!(parse_packet(&out[..n]), Err(NetworkError::InvalidPacket)));
    }
    assert!(matches!(parse_packet(&out[..19]), Err(NetworkError::InvalidPacket)));
    let mut longer = out.clone();
    longer.push(0);
    assert!(matches!(parse_packet(&longer), Err(NetworkError::InvalidPacket)));
    for bit in 2..8 {
        let mut bad = out.clone();
        bad[1] |= 1 << bit;
        assert!(matches!(parse_packet(&bad), Err(NetworkError::InvalidPacket)));
    }
    // A length field above 1200 is refused even when it matches the datagram.
    let mut big = vec![0u8; 16 + 1201];
    big[14] = (1201u16 >> 8) as u8;
    big[15] = (1201u16 & 0xff) as u8;
    assert!(matches!(parse_packet(&big), Err(NetworkError::InvalidPacket)));
    let mut ok = vec![0u8; 16 + 1200];
    ok[14] = (1200u16 >> 8) as u8;
    ok[15] = (1200u16 & 0xff) as u8;
    assert_eq!(parse_packet(&ok).unwrap().payload.len(), 1200);
}

#[test]
fn sender_numbers_each_track_on_its_own() {
    let mut sender = MultiTrackSender::new();
    let mut out = Vec::new();
    for expected in 0..3u32 {
        assert_eq!(sender.next_sequence(4), expected);
        sender.compose(4, &[1, 2], 1000 + expected as u64, true, false, &mut out).unwrap();
        let p = parse_packet(&out).unwrap();
        assert_eq!(p.track_id, 4);
        assert_eq!(p.sequence, expected);
        assert_eq!(p.timestamp, 1000 + expected as u64);
        assert!(p.is_stereo);
        assert!(!p.is_fec);
        assert_eq!(p.payload, vec![1, 2]);
    }
    sender.compose(9, &[5], 0, false, true, &mut out).unwrap();
    let p = parse_packet(&out).unwrap();
    assert_eq!(p.sequence, 0);
    assert!(p.is_fec);
    assert!(!p.is_stereo);
    assert_eq!(sender.next_sequence(4), 3);
    assert_eq!(sender.next_sequence(9), 1);
    assert_eq!(sender.next_sequence(0), 0);
}

#[test]
fn sender_keeps_sequence_when_payload_is_refused() {
    let mut sender = MultiTrackSender::new();
    let mut out = vec![7u8];
    let r = sender.compose(1, &vec![0u8; 1500], 0, true, false, &mut out);
    assert!(matches!(r, Err(NetworkError::PacketTooLarge(1500))));
    assert!(matches!(
        sender.compose(1, &[], 0, true, false, &mut out),
        Err(NetworkError::InvalidPacket)
    ));
    assert_eq!(out, vec![7u8]);
    assert_eq!(sender.next_sequence(1), 0);
}

#[test]
fn sender_counts_sent_and_dropped() {
    let mut sender = MultiTrackSender::new();
    assert!(matches!(sender.record(SendOutcome::Sent(56)), Ok(true)));
    assert!(matches!(sender.record(SendOutcome::Sent(44)), Ok(true)));
    assert!(matches!(sender.record(SendOutcome::WouldBlock), Ok(false)));
    match sender.record(SendOutcome::Failed("network down".to_string())) {
        Err(NetworkError::SendFailed(msg)) => assert_eq!(msg, "network down"),
        other => panic!("unexpected: {:?}", other),
    }
    let stats = sender.stats();
    assert_eq!(stats.packets_sent, 2);
    assert_eq!(stats.bytes_sent, 100);
    assert_eq!(stats.send_dropped, 1);
}
