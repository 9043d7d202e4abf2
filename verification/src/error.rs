//! The errors of the audio, codec, network and track subsystems.

use vstd::prelude::*;
use vstd::std_specs::convert::FromSpecImpl;
use vstd::string::StringExecFns;

use crate::text::{decimal, with_number, with_text};

verus! {

/// `std::io::Error`, carried through as it comes.
#[verifier::external_type_specification]
#[verifier::external_body]
pub struct ExIoError(std::io::Error);

/// Any error of the streamer.
#[derive(Debug)]
pub enum Error {
    Audio(AudioError),
    Codec(CodecError),
    Network(NetworkError),
    Track(TrackError),
    Config(String),
    Io(std::io::Error),
}

/// Errors of the audio devices and buffers.
#[derive(Debug)]
pub enum AudioError {
    DeviceNotFound(String),
    StreamError(String),
    UnsupportedFormat(String),
    BufferOverflow,
    BufferUnderrun,
    WasapiError(String),
    CpalError(String),
}

/// Errors of the encoder and the decoder.
#[derive(Debug)]
pub enum CodecError {
    EncoderInit(String),
    DecoderInit(String),
    EncodingFailed(String),
    DecodingFailed(String),
    InvalidFrameSize(usize),
}

/// Errors of the wire format and the sockets.
#[derive(Debug)]
pub enum NetworkError {
    BindFailed(String),
    ConnectionFailed(String),
    SendFailed(String),
    ReceiveFailed(String),
    PacketTooLarge(usize),
    InvalidPacket,
    Timeout,
}

/// Errors of track management.
#[derive(Debug)]
pub enum TrackError {
    NotFound(u8),
    AlreadyExists(u8),
    MaxTracksReached(usize),
    InvalidConfig(String),
    NotActive,
}

/// `ToString::to_string` of `std::io::Error`: the error's own words.
#[verifier::external_body]
fn io_error_text(e: &std::io::Error) -> (text: String) {
    e.to_string()
}

impl AudioError {
    /// The error in words.
    pub open spec fn text(self) -> Seq<char> {
        match self {
            AudioError::DeviceNotFound(s) => "Device not found: "@ + s@,
            AudioError::StreamError(s) => "Failed to open stream: "@ + s@,
            AudioError::UnsupportedFormat(s) => "Unsupported format: "@ + s@,
            AudioError::BufferOverflow => "Buffer overflow"@,
            AudioError::BufferUnderrun => "Buffer underrun"@,
            AudioError::WasapiError(s) => "WASAPI error: "@ + s@,
            AudioError::CpalError(s) => "cpal error: "@ + s@,
        }
    }

    /// The error in words.
    pub fn to_string(&self) -> (text: String)
        ensures
            text@ == self.text(),
    {
        match self {
            AudioError::DeviceNotFound(s) => with_text("Device not found: ", s.as_str()),
            AudioError::StreamError(s) => with_text("Failed to open stream: ", s.as_str()),
            AudioError::UnsupportedFormat(s) => with_text("Unsupported format: ", s.as_str()),
            AudioError::BufferOverflow => String::from_str("Buffer overflow"),
            AudioError::BufferUnderrun => String::from_str("Buffer underrun"),
            AudioError::WasapiError(s) => with_text("WASAPI error: ", s.as_str()),
            AudioError::CpalError(s) => with_text("cpal error: ", s.as_str()),
        }
    }
}

impl CodecError {
    /// The error in words.
    pub open spec fn text(self) -> Seq<char> {
        match self {
            CodecError::EncoderInit(s) => "Encoder initialization failed: "@ + s@,
            CodecError::DecoderInit(s) => "Decoder initialization failed: "@ + s@,
            CodecError::EncodingFailed(s) => "Encoding failed: "@ + s@,
            CodecError::DecodingFailed(s) => "Decoding failed: "@ + s@,
            CodecError::InvalidFrameSize(n) => "Invalid frame size: "@ + decimal(n as nat),
        }
    }

    /// The error in words.
    pub fn to_string(&self) -> (text: String)
        ensures
            text@ == self.text(),
    {
        match self {
            CodecError::EncoderInit(s) => with_text("Encoder initialization failed: ", s.as_str()),
            CodecError::DecoderInit(s) => with_text("Decoder initialization failed: ", s.as_str()),
            CodecError::EncodingFailed(s) => with_text("Encoding failed: ", s.as_str()),
            CodecError::DecodingFailed(s) => with_text("Decoding failed: ", s.as_str()),
            CodecError::InvalidFrameSize(n) => with_number("Invalid frame size: ", *n as u64),
        }
    }
}

impl NetworkError {
    /// The error in words.
    pub open spec fn text(self) -> Seq<char> {
        match self {
            NetworkError::BindFailed(s) => "Socket bind failed: "@ + s@,
            NetworkError::ConnectionFailed(s) => "Connection failed: "@ + s@,
            NetworkError::SendFailed(s) => "Send failed: "@ + s@,
            NetworkError::ReceiveFailed(s) => "Receive failed: "@ + s@,
            NetworkError::PacketTooLarge(n) => "Packet too large: "@ + decimal(n as nat)
                + " bytes"@,
            NetworkError::InvalidPacket => "Invalid packet format"@,
            NetworkError::Timeout => "Timeout"@,
        }
    }

    /// The error in words.
    pub fn to_string(&self) -> (text: String)
        ensures
            text@ == self.text(),
    {
        match self {
            NetworkError::BindFailed(s) => with_text("Socket bind failed: ", s.as_str()),
            NetworkError::ConnectionFailed(s) => with_text("Connection failed: ", s.as_str()),
            NetworkError::SendFailed(s) => with_text("Send failed: ", s.as_str()),
            NetworkError::ReceiveFailed(s) => with_text("Receive failed: ", s.as_str()),
            NetworkError::PacketTooLarge(n) => with_number("Packet too large: ", *n as u64).concat(
                " bytes",
            ),
            NetworkError::InvalidPacket => String::from_str("Invalid packet format"),
            NetworkError::Timeout => String::from_str("Timeout"),
        }
    }
}

impl TrackError {
    /// The error in words.
    pub open spec fn text(self) -> Seq<char> {
        match self {
            TrackError::NotFound(id) => "Track not found: "@ + decimal(id as nat),
            TrackError::AlreadyExists(id) => "Track already exists: "@ + decimal(id as nat),
            TrackError::MaxTracksReached(n) => "Maximum tracks reached: "@ + decimal(n as nat),
            TrackError::InvalidConfig(s) => "Invalid track configuration: "@ + s@,
            TrackError::NotActive => "Track is not active"@,
        }
    }

    /// The error in words.
    pub fn to_string(&self) -> (text: String)
        ensures
            text@ == self.text(),
    {
        match self {
            TrackError::NotFound(id) => with_number("Track not found: ", *id as u64),
            TrackError::AlreadyExists(id) => with_number("Track already exists: ", *id as u64),
            TrackError::MaxTracksReached(n) => with_number("Maximum tracks reached: ", *n as u64),
            TrackError::InvalidConfig(s) => with_text("Invalid track configuration: ", s.as_str()),
            TrackError::NotActive => String::from_str("Track is not active"),
        }
    }
}

impl Error {
    /// The error in words: the subsystem, then the subsystem's own words.
    /// An I/O error follows `IO error: ` with the words of the system.
    pub fn to_string(&self) -> (text: String)
        ensures
            match *self {
                Error::Audio(e) => text@ == "Audio error: "@ + e.text(),
                Error::Codec(e) => text@ == "Codec error: "@ + e.text(),
                Error::Network(e) => text@ == "Network error: "@ + e.text(),
                Error::Track(e) => text@ == "Track error: "@ + e.text(),
                Error::Config(s) => text@ == "Configuration error: "@ + s@,
                Error::Io(_) => "IO error: "@.is_prefix_of(text@),
            },
    {
        match self {
            Error::Audio(e) => with_text("Audio error: ", e.to_string().as_str()),
            Error::Codec(e) => with_text("Codec error: ", e.to_string().as_str()),
            Error::Network(e) => with_text("Network error: ", e.to_string().as_str()),
            Error::Track(e) => with_text("Track error: ", e.to_string().as_str()),
            Error::Config(s) => with_text("Configuration error: ", s.as_str()),
            Error::Io(e) => with_text("IO error: ", io_error_text(e).as_str()),
        }
    }
}

impl From<AudioError> for Error {
    fn from(e: AudioError) -> (r: Error) {
        Error::Audio(e)
    }
}

impl FromSpecImpl<AudioError> for Error {
    open spec fn obeys_from_spec() -> bool {
        true
    }

    open spec fn from_spec(e: AudioError) -> Error {
        Error::Audio(e)
    }
}

impl From<CodecError> for Error {
    fn from(e: CodecError) -> (r: Error) {
        Error::Codec(e)
    }
}

impl FromSpecImpl<CodecError> for Error {
    open spec fn obeys_from_spec() -> bool {
        true
    }

    open spec fn from_spec(e: CodecError) -> Error {
        Error::Codec(e)
    }
}

impl From<NetworkError> for Error {
    fn from(e: NetworkError) -> (r: Error) {
        Error::Network(e)
    }
}

impl FromSpecImpl<NetworkError> for Error {
    open spec fn obeys_from_spec() -> bool {
        true
    }

    open spec fn from_spec(e: NetworkError) -> Error {
        Error::Network(e)
    }
}

impl From<TrackError> for Error {
    fn from(e: TrackError) -> (r: Error) {
        Error::Track(e)
    }
}

impl FromSpecImpl<TrackError> for Error {
    open spec fn obeys_from_spec() -> bool {
        true
    }

    open spec fn from_spec(e: TrackError) -> Error {
        Error::Track(e)
    }
}

impl From<std::io::Error> for Error {
    fn from(e: std::io::Error) -> (r: Error) {
        Error::Io(e)
    }
}

impl FromSpecImpl<std::io::Error> for Error {
    open spec fn obeys_from_spec() -> bool {
        true
    }

    open spec fn from_spec(e: std::io::Error) -> Error {
        Error::Io(e)
    }
}

} // verus!
