//! The sending side: one wire sequence counter for each track, and the
//! counts of what was sent and what was dropped.

use vstd::prelude::*;

use crate::error::NetworkError;
use crate::network::packet::{build_packet, PacketHeader, PacketView, MAX_PAYLOAD_SIZE};

verus! {

/// Number of track ids.
pub const TRACK_IDS: usize = 256;

/// How the socket answered a send.
pub enum SendOutcome {
    /// The datagram went out; the number of bytes sent.
    Sent(usize),
    /// The socket would have blocked; the datagram is dropped.
    WouldBlock,
    /// The socket failed, with its message.
    Failed(String),
}

/// What a sender has counted.
#[derive(Clone, Copy, Debug)]
pub struct SenderStats {
    pub packets_sent: u64,
    pub bytes_sent: u64,
    pub send_dropped: u64,
}

/// A sender as plain values.
pub struct SenderState {
    /// The next wire sequence number of each track, by track id.
    pub sequences: Seq<u32>,
    pub packets_sent: u64,
    pub bytes_sent: u64,
    pub send_dropped: u64,
}

impl SenderState {
    /// The sender after the socket answered a send.
    pub open spec fn record(self, outcome: SendOutcome) -> SenderState {
        match outcome {
            SendOutcome::Sent(n) => SenderState {
                packets_sent: self.packets_sent.wrapping_add(1),
                bytes_sent: self.bytes_sent.wrapping_add(n as u64),
                ..self
            },
            SendOutcome::WouldBlock => SenderState {
                send_dropped: self.send_dropped.wrapping_add(1),
                ..self
            },
            SendOutcome::Failed(_) => self,
        }
    }
}

/// The sending side of all tracks of one endpoint.
pub struct MultiTrackSender {
    sequences: [u32; 256],
    packets_sent: u64,
    bytes_sent: u64,
    send_dropped: u64,
}

impl View for MultiTrackSender {
    type V = SenderState;

    closed spec fn view(&self) -> SenderState {
        SenderState {
            sequences: self.sequences@,
            packets_sent: self.packets_sent,
            bytes_sent: self.bytes_sent,
            send_dropped: self.send_dropped,
        }
    }
}

impl MultiTrackSender {
    /// A sender with every track at sequence number 0 and nothing counted.
    pub fn new() -> (sender: Self)
        ensures
            sender@ == (SenderState {
                sequences: Seq::new(TRACK_IDS as nat, |i: int| 0u32),
                packets_sent: 0,
                bytes_sent: 0,
                send_dropped: 0,
            }),
    {
        let sequences = [0u32; 256];
        assert(sequences@ =~= Seq::new(TRACK_IDS as nat, |i: int| 0u32));
        MultiTrackSender { sequences, packets_sent: 0, bytes_sent: 0, send_dropped: 0 }
    }

    /// Writes the next datagram of a track into `out` and returns its
    /// length. The packet carries the track's wire sequence number, which
    /// then moves on by one, modulo 2^32. A payload that cannot travel fails
    /// as in `build_packet`, and the sequence number stays.
    pub fn compose(
        &mut self,
        track_id: u8,
        payload: &[u8],
        timestamp: u64,
        stereo: bool,
        fec: bool,
        out: &mut Vec<u8>,
    ) -> (r: Result<usize, NetworkError>)
        ensures
            final(self)@.sequences.len() == TRACK_IDS,
            payload@.len() > MAX_PAYLOAD_SIZE ==> r == Err::<usize, NetworkError>(
                NetworkError::PacketTooLarge(payload@.len() as usize),
            ),
            payload@.len() == 0 ==> r == Err::<usize, NetworkError>(NetworkError::InvalidPacket),
            r is Err ==> final(self)@ == old(self)@ && final(out)@ == old(out)@,
            1 <= payload@.len() <= MAX_PAYLOAD_SIZE ==> {
                &&& r == Ok::<usize, NetworkError>((16 + payload@.len()) as usize)
                &&& final(out)@ == (PacketView {
                    track_id,
                    sequence: old(self)@.sequences[track_id as int],
                    timestamp,
                    is_stereo: stereo,
                    is_fec: fec,
                    payload: payload@,
                }).wire()
                &&& final(self)@ == (SenderState {
                    sequences: old(self)@.sequences.update(
                        track_id as int,
                        old(self)@.sequences[track_id as int].wrapping_add(1),
                    ),
                    ..old(self)@
                })
            },
    {
        let sequence = self.sequences[track_id as usize];
        let header = PacketHeader { track_id, sequence, timestamp, is_stereo: stereo, is_fec: fec };
        let n = build_packet(&header, payload, out)?;
        self.sequences.set(track_id as usize, sequence.wrapping_add(1));
        Ok(n)
    }

    /// Takes in the socket's answer to a send. A sent datagram counts as one
    /// packet and its bytes, and gives `Ok(true)`. A send that would block is
    /// counted as dropped and gives `Ok(false)`: it is not tried again. A
    /// failure gives `SendFailed` with the socket's message and counts nothing.
    pub fn record(&mut self, outcome: SendOutcome) -> (r: Result<bool, NetworkError>)
        ensures
            final(self)@ == old(self)@.record(outcome),
            match outcome {
                SendOutcome::Sent(_) => r == Ok::<bool, NetworkError>(true),
                SendOutcome::WouldBlock => r == Ok::<bool, NetworkError>(false),
                SendOutcome::Failed(msg) => r == Err::<bool, NetworkError>(
                    NetworkError::SendFailed(msg),
                ),
            },
    {
        match outcome {
            SendOutcome::Sent(n) => {
                self.packets_sent = self.packets_sent.wrapping_add(1);
                self.bytes_sent = self.bytes_sent.wrapping_add(n as u64);
                Ok(true)
            },
            SendOutcome::WouldBlock => {
                self.send_dropped = self.send_dropped.wrapping_add(1);
                Ok(false)
            },
            SendOutcome::Failed(msg) => Err(NetworkError::SendFailed(msg)),
        }
    }

    /// The wire sequence number that the next packet of a track will carry.
    pub fn next_sequence(&self, track_id: u8) -> (n: u32)
        ensures
            self@.sequences.len() == TRACK_IDS,
            n == self@.sequences[track_id as int],
    {
        self.sequences[track_id as usize]
    }

    pub fn stats(&self) -> (stats: SenderStats)
        ensures
            stats.packets_sent == self@.packets_sent,
            stats.bytes_sent == self@.bytes_sent,
            stats.send_dropped == self@.send_dropped,
    {
        SenderStats {
            packets_sent: self.packets_sent,
            bytes_sent: self.bytes_sent,
            send_dropped: self.send_dropped,
        }
    }
}

} // verus!
