//! The wire format and the bookkeeping of the UDP sender and receiver.

pub mod packet;
pub mod receiver;
pub mod sender;

pub use packet::{build_packet, parse_packet, PacketHeader, ReceivedPacket};
pub use receiver::AudioReceiver;
pub use sender::MultiTrackSender;
