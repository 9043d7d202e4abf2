//! The datagram format: a fixed 16-byte header, then the codec payload.
//!
//! ```text
//! offset size field
//! 0      1    track id
//! 1      1    flags (bit 0 stereo, bit 1 FEC, the rest zero)
//! 2      4    sequence number, big-endian
//! 6      8    timestamp in microseconds, big-endian
//! 14     2    payload length, big-endian, 1 to 1200
//! 16     N    payload
//! ```

use vstd::prelude::*;

use crate::error::NetworkError;

verus! {

/// Length of the packet header in bytes.
pub const HEADER_SIZE: usize = 16;

/// Largest payload a packet carries, in bytes.
pub const MAX_PAYLOAD_SIZE: usize = 1200;

/// The fields of a packet header.
#[derive(Clone, Copy, Debug)]
pub struct PacketHeader {
    pub track_id: u8,
    pub sequence: u32,
    pub timestamp: u64,
    pub is_stereo: bool,
    pub is_fec: bool,
}

/// A packet as it comes out of a datagram.
#[derive(Debug)]
pub struct ReceivedPacket {
    pub track_id: u8,
    pub sequence: u32,
    pub timestamp: u64,
    pub is_stereo: bool,
    pub is_fec: bool,
    pub payload: Vec<u8>,
}

/// A packet as plain values.
pub struct PacketView {
    pub track_id: u8,
    pub sequence: u32,
    pub timestamp: u64,
    pub is_stereo: bool,
    pub is_fec: bool,
    pub payload: Seq<u8>,
}

impl View for ReceivedPacket {
    type V = PacketView;

    open spec fn view(&self) -> PacketView {
        PacketView {
            track_id: self.track_id,
            sequence: self.sequence,
            timestamp: self.timestamp,
            is_stereo: self.is_stereo,
            is_fec: self.is_fec,
            payload: self.payload@,
        }
    }
}

impl PacketHeader {
    /// The packet that this header makes with a payload.
    pub open spec fn with_payload(self, payload: Seq<u8>) -> PacketView {
        PacketView {
            track_id: self.track_id,
            sequence: self.sequence,
            timestamp: self.timestamp,
            is_stereo: self.is_stereo,
            is_fec: self.is_fec,
            payload,
        }
    }
}

/// The flags byte: 1 for stereo plus 2 for FEC.
pub open spec fn flags_byte(is_stereo: bool, is_fec: bool) -> u8 {
    ((if is_stereo {
        1int
    } else {
        0int
    }) + (if is_fec {
        2int
    } else {
        0int
    })) as u8
}

/// The two bytes of a 16-bit value, most significant first.
pub open spec fn be16(v: u16) -> Seq<u8> {
    seq![(v / 0x100) as u8, (v % 0x100) as u8]
}

/// The four bytes of a 32-bit value, most significant first: the upper half,
/// then the lower half.
pub open spec fn be32(v: u32) -> Seq<u8> {
    be16((v / 0x1_0000) as u16) + be16((v % 0x1_0000) as u16)
}

/// The eight bytes of a 64-bit value, most significant first: the upper half,
/// then the lower half.
pub open spec fn be64(v: u64) -> Seq<u8> {
    be32((v / 0x1_0000_0000) as u32) + be32((v % 0x1_0000_0000) as u32)
}

/// The value of the two big-endian bytes from `b[at]` on.
pub open spec fn read16(b: Seq<u8>, at: int) -> int {
    b[at] * 0x100 + b[at + 1]
}

/// The value of the four big-endian bytes from `b[at]` on.
pub open spec fn read32(b: Seq<u8>, at: int) -> int {
    read16(b, at) * 0x1_0000 + read16(b, at + 2)
}

/// The value of the eight big-endian bytes from `b[at]` on.
pub open spec fn read64(b: Seq<u8>, at: int) -> int {
    read32(b, at) * 0x1_0000_0000 + read32(b, at + 4)
}

impl PacketView {
    /// A packet that can travel: its payload has 1 to 1200 bytes.
    pub open spec fn valid(self) -> bool {
        1 <= self.payload.len() <= MAX_PAYLOAD_SIZE
    }

    /// The datagram of a packet: header, then payload.
    pub open spec fn wire(self) -> Seq<u8> {
        seq![self.track_id, flags_byte(self.is_stereo, self.is_fec)] + be32(self.sequence) + be64(
            self.timestamp,
        ) + be16(self.payload.len() as u16) + self.payload
    }
}

/// A datagram is well formed when it has a header and at least one payload
/// byte, its length field is at most 1200 and equals the number of bytes
/// after the header, and the reserved flag bits are zero.
pub open spec fn well_formed(bytes: Seq<u8>) -> bool {
    &&& bytes.len() > HEADER_SIZE
    &&& read16(bytes, 14) + HEADER_SIZE == bytes.len()
    &&& read16(bytes, 14) <= MAX_PAYLOAD_SIZE
    &&& bytes[1] < 4
}

/// The packet in a well-formed datagram.
pub open spec fn decode(bytes: Seq<u8>) -> PacketView {
    PacketView {
        track_id: bytes[0],
        sequence: read32(bytes, 2) as u32,
        timestamp: read64(bytes, 6) as u64,
        is_stereo: bytes[1] % 2 == 1,
        is_fec: bytes[1] / 2 % 2 == 1,
        payload: bytes.subrange(HEADER_SIZE as int, bytes.len() as int),
    }
}

/// Where a sequence holds the big-endian bytes of a 16-bit value, it reads as that value.
pub proof fn lemma_read_be16(b: Seq<u8>, at: int, v: u16)
    requires
        0 <= at,
        at + 2 <= b.len(),
        b.subrange(at, at + 2) == be16(v),
    ensures
        read16(b, at) == v,
{
    let part = b.subrange(at, at + 2);
    assert(b[at] == part[0] && b[at + 1] == part[1]);
}

/// Where a sequence holds the big-endian bytes of a 32-bit value, it reads as that value.
pub proof fn lemma_read_be32(b: Seq<u8>, at: int, v: u32)
    requires
        0 <= at,
        at + 4 <= b.len(),
        b.subrange(at, at + 4) == be32(v),
    ensures
        read32(b, at) == v,
{
    let part = b.subrange(at, at + 4);
    let upper = (v / 0x1_0000) as u16;
    let lower = (v % 0x1_0000) as u16;
    assert(b.subrange(at, at + 2) =~= part.subrange(0, 2));
    assert(b.subrange(at + 2, at + 4) =~= part.subrange(2, 4));
    assert(part.subrange(0, 2) =~= be16(upper));
    assert(part.subrange(2, 4) =~= be16(lower));
    lemma_read_be16(b, at, upper);
    lemma_read_be16(b, at + 2, lower);
}

/// Where a sequence holds the big-endian bytes of a 64-bit value, it reads as that value.
pub proof fn lemma_read_be64(b: Seq<u8>, at: int, v: u64)
    requires
        0 <= at,
        at + 8 <= b.len(),
        b.subrange(at, at + 8) == be64(v),
    ensures
        read64(b, at) == v,
{
    let part = b.subrange(at, at + 8);
    let upper = (v / 0x1_0000_0000) as u32;
    let lower = (v % 0x1_0000_0000) as u32;
    assert(b.subrange(at, at + 4) =~= part.subrange(0, 4));
    assert(b.subrange(at + 4, at + 8) =~= part.subrange(4, 8));
    assert(part.subrange(0, 4) =~= be32(upper));
    assert(part.subrange(4, 8) =~= be32(lower));
    lemma_read_be32(b, at, upper);
    lemma_read_be32(b, at + 4, lower);
}

/// Two bytes are the big-endian bytes of the value they read as.
pub proof fn lemma_be16_read(b: Seq<u8>, at: int)
    requires
        0 <= at,
        at + 2 <= b.len(),
    ensures
        0 <= read16(b, at) <= u16::MAX,
        be16(read16(b, at) as u16) == b.subrange(at, at + 2),
{
}

/// Four bytes are the big-endian bytes of the value they read as.
pub proof fn lemma_be32_read(b: Seq<u8>, at: int)
    requires
        0 <= at,
        at + 4 <= b.len(),
    ensures
        0 <= read32(b, at) <= u32::MAX,
        be32(read32(b, at) as u32) == b.subrange(at, at + 4),
{
    lemma_be16_read(b, at);
    lemma_be16_read(b, at + 2);
    let upper = read16(b, at);
    let lower = read16(b, at + 2);
    let v = upper * 0x1_0000 + lower;
    assert(v / 0x1_0000 == upper && v % 0x1_0000 == lower);
}

/// Eight bytes are the big-endian bytes of the value they read as.
pub proof fn lemma_be64_read(b: Seq<u8>, at: int)
    requires
        0 <= at,
        at + 8 <= b.len(),
    ensures
        0 <= read64(b, at) <= u64::MAX,
        be64(read64(b, at) as u64) == b.subrange(at, at + 8),
{
    lemma_be32_read(b, at);
    lemma_be32_read(b, at + 4);
    let upper = read32(b, at);
    let lower = read32(b, at + 4);
    let v = upper * 0x1_0000_0000 + lower;
    assert(read64(b, at) == v);
    assert(v / 0x1_0000_0000 == upper && v % 0x1_0000_0000 == lower);
    assert(be64(v as u64) == be32(upper as u32) + be32(lower as u32));
}

/// Round trip: the datagram of a valid packet is well formed and decodes to
/// that packet.
pub proof fn lemma_decode_wire(packet: PacketView)
    requires
        packet.valid(),
    ensures
        well_formed(packet.wire()),
        decode(packet.wire()) == packet,
        packet.wire().len() == HEADER_SIZE + packet.payload.len(),
{
    let bytes = packet.wire();
    let s = be32(packet.sequence);
    let t = be64(packet.timestamp);
    let n = be16(packet.payload.len() as u16);
    assert(bytes.len() == 16 + packet.payload.len());
    assert(bytes.subrange(16, bytes.len() as int) =~= packet.payload);
    assert(bytes.subrange(2, 6) =~= s);
    assert(bytes.subrange(6, 14) =~= t);
    assert(bytes.subrange(14, 16) =~= n);
    lemma_read_be32(bytes, 2, packet.sequence);
    lemma_read_be64(bytes, 6, packet.timestamp);
    lemma_read_be16(bytes, 14, packet.payload.len() as u16);
}

/// The other way round: a well-formed datagram is the datagram of the packet
/// it decodes to, and that packet is valid.
pub proof fn lemma_wire_decode(bytes: Seq<u8>)
    requires
        well_formed(bytes),
    ensures
        decode(bytes).valid(),
        decode(bytes).wire() == bytes,
{
    let packet = decode(bytes);
    lemma_be32_read(bytes, 2);
    lemma_be64_read(bytes, 6);
    lemma_be16_read(bytes, 14);
    let s = be32(packet.sequence);
    let t = be64(packet.timestamp);
    let n = be16(packet.payload.len() as u16);
    assert(n == bytes.subrange(14, 16));
    let flags = bytes[1];
    let head = seq![bytes[0], flags];
    assert(head + s + t + n + packet.payload =~= bytes);
}

fn put16(out: &mut Vec<u8>, v: u16)
    ensures
        final(out)@ == old(out)@ + be16(v),
{
    out.push((v / 0x100) as u8);
    out.push((v % 0x100) as u8);
}

fn put32(out: &mut Vec<u8>, v: u32)
    ensures
        final(out)@ == old(out)@ + be32(v),
{
    put16(out, (v / 0x1_0000) as u16);
    put16(out, (v % 0x1_0000) as u16);
}

fn put64(out: &mut Vec<u8>, v: u64)
    ensures
        final(out)@ == old(out)@ + be64(v),
{
    put32(out, (v / 0x1_0000_0000) as u32);
    put32(out, (v % 0x1_0000_0000) as u32);
}

fn get16(data: &[u8], at: usize) -> (v: u16)
    requires
        at + 2 <= data@.len(),
    ensures
        v == read16(data@, at as int),
{
    data[at] as u16 * 0x100 + data[at + 1] as u16
}

fn get32(data: &[u8], at: usize) -> (v: u32)
    requires
        at + 4 <= data@.len() <= usize::MAX,
    ensures
        v == read32(data@, at as int),
{
    get16(data, at) as u32 * 0x1_0000 + get16(data, at + 2) as u32
}

fn get64(data: &[u8], at: usize) -> (v: u64)
    requires
        at + 8 <= data@.len() <= usize::MAX,
    ensures
        v == read64(data@, at as int),
{
    get32(data, at) as u64 * 0x1_0000_0000 + get32(data, at + 4) as u64
}

/// Writes the datagram of a header and a payload into `out`, whose earlier
/// content is dropped, and returns the datagram's length. A payload of more
/// than 1200 bytes fails with `PacketTooLarge` and its length, an empty one
/// with `InvalidPacket`; `out` is then untouched.
pub fn build_packet(header: &PacketHeader, payload: &[u8], out: &mut Vec<u8>) -> (r: Result<
    usize,
    NetworkError,
>)
    ensures
        payload@.len() > MAX_PAYLOAD_SIZE ==> r == Err::<usize, NetworkError>(
            NetworkError::PacketTooLarge(payload@.len() as usize),
        ) && final(out)@ == old(out)@,
        payload@.len() == 0 ==> r == Err::<usize, NetworkError>(NetworkError::InvalidPacket)
            && final(out)@ == old(out)@,
        1 <= payload@.len() <= MAX_PAYLOAD_SIZE ==> r == Ok::<usize, NetworkError>(
            (HEADER_SIZE + payload@.len()) as usize,
        ) && final(out)@ == header.with_payload(payload@).wire(),
{
    let n = payload.len();
    if n > MAX_PAYLOAD_SIZE {
        return Err(NetworkError::PacketTooLarge(n));
    }
    if n == 0 {
        return Err(NetworkError::InvalidPacket);
    }
    let mut flags: u8 = 0;
    if header.is_stereo {
        flags = flags + 1;
    }
    if header.is_fec {
        flags = flags + 2;
    }
    out.clear();
    out.push(header.track_id);
    out.push(flags);
    put32(out, header.sequence);
    put64(out, header.timestamp);
    put16(out, n as u16);
    out.extend_from_slice(payload);
    Ok(HEADER_SIZE + n)
}

/// Reads a datagram. One that is not well formed fails with `InvalidPacket`;
/// any other gives the packet it decodes to.
pub fn parse_packet(data: &[u8]) -> (r: Result<ReceivedPacket, NetworkError>)
    ensures
        well_formed(data@) ==> r is Ok && r->Ok_0@ == decode(data@),
        !well_formed(data@) ==> r == Err::<ReceivedPacket, NetworkError>(
            NetworkError::InvalidPacket,
        ),
{
    if data.len() <= HEADER_SIZE {
        return Err(NetworkError::InvalidPacket);
    }
    let payload_len = get16(data, 14) as usize;
    if payload_len > MAX_PAYLOAD_SIZE || payload_len + HEADER_SIZE != data.len() {
        return Err(NetworkError::InvalidPacket);
    }
    let flags = data[1];
    if flags >= 4 {
        return Err(NetworkError::InvalidPacket);
    }
    let mut payload: Vec<u8> = Vec::new();
    let mut i: usize = HEADER_SIZE;
    while i < data.len()
        invariant
            HEADER_SIZE <= i <= data@.len(),
            payload@ =~= data@.subrange(HEADER_SIZE as int, i as int),
        decreases data@.len() - i,
    {
        payload.push(data[i]);
        i = i + 1;
    }
    Ok(
        ReceivedPacket {
            track_id: data[0],
            sequence: get32(data, 2),
            timestamp: get64(data, 6),
            is_stereo: flags % 2 == 1,
            is_fec: flags / 2 % 2 == 1,
            payload,
        },
    )
}

} // verus!
